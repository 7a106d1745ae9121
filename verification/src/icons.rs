//! The closed set of image-icon identifiers, with its absent-icon variant,
//! the case-insensitive name normalizer, and each icon's numeric identifier
//! for the wire format.

use vstd::prelude::*;
use crate::text::{to_upper_chars, upper_chars, upper_matches};

verus! {

/// Icon identifiers accepted by the achievement-style endpoints. `NONE`
/// stands for "no icon": normalizing an unrecognized name yields it.
#[derive(Clone, Copy, Debug, PartialEq, Eq, Structural)]
#[allow(non_camel_case_types)]
pub enum MinecraftIcons {
    NONE,
    GRASS_BLOCK,
    DIAMOND,
    DIAMOND_SWORD,
    CREEPER,
    PIG,
    TNT,
    COOKIE,
    HEART,
    BED,
    CAKE,
    SIGN,
    RAIL,
    CRAFTING_BENCH,
    REDSTONE,
    FIRE,
    COBWEB,
    CHEST,
    FURNACE,
    BOOK,
    STONE_BLOCK,
    WOODEN_PLANK_BLOCK,
    IRON_INGOT,
    GOLD_INGOT,
    WOODEN_DOOR,
    IRON_DOOR,
    DIAMOND_CHESTPLATE,
    FLINT_AND_STEEL,
    GLASS_BOTTLE,
    SPLASH_POTION,
    CREEPER_SPAWNEGG,
    COAL,
    IRON_SWORD,
    BOW,
    ARROW,
    IRON_CHESTPLATE,
    BUCKET,
    BUCKET_WITH_WATER,
    BUCKET_WITH_LAVA,
    BUCKET_WITH_MILK,
    DIAMOND_BOOTS,
    WOODEN_HOE,
    BREAD,
    WOODEN_SWORD,
    BONE,
    OAK_LOG,
}

/// The numeric identifier the wire format uses for each icon; `NONE` is 0.
pub open spec fn icon_id_spec(icon: MinecraftIcons) -> int {
    match icon {
        MinecraftIcons::NONE => 0,
        MinecraftIcons::GRASS_BLOCK => 1,
        MinecraftIcons::DIAMOND => 2,
        MinecraftIcons::DIAMOND_SWORD => 3,
        MinecraftIcons::CREEPER => 4,
        MinecraftIcons::PIG => 5,
        MinecraftIcons::TNT => 6,
        MinecraftIcons::COOKIE => 7,
        MinecraftIcons::HEART => 8,
        MinecraftIcons::BED => 9,
        MinecraftIcons::CAKE => 10,
        MinecraftIcons::SIGN => 11,
        MinecraftIcons::RAIL => 12,
        MinecraftIcons::CRAFTING_BENCH => 13,
        MinecraftIcons::REDSTONE => 14,
        MinecraftIcons::FIRE => 15,
        MinecraftIcons::COBWEB => 16,
        MinecraftIcons::CHEST => 17,
        MinecraftIcons::FURNACE => 18,
        MinecraftIcons::BOOK => 19,
        MinecraftIcons::STONE_BLOCK => 20,
        MinecraftIcons::WOODEN_PLANK_BLOCK => 21,
        MinecraftIcons::IRON_INGOT => 22,
        MinecraftIcons::GOLD_INGOT => 23,
        MinecraftIcons::WOODEN_DOOR => 24,
        MinecraftIcons::IRON_DOOR => 25,
        MinecraftIcons::DIAMOND_CHESTPLATE => 26,
        MinecraftIcons::FLINT_AND_STEEL => 27,
        MinecraftIcons::GLASS_BOTTLE => 28,
        MinecraftIcons::SPLASH_POTION => 29,
        MinecraftIcons::CREEPER_SPAWNEGG => 30,
        MinecraftIcons::COAL => 31,
        MinecraftIcons::IRON_SWORD => 32,
        MinecraftIcons::BOW => 33,
        MinecraftIcons::ARROW => 34,
        MinecraftIcons::IRON_CHESTPLATE => 35,
        MinecraftIcons::BUCKET => 36,
        MinecraftIcons::BUCKET_WITH_WATER => 37,
        MinecraftIcons::BUCKET_WITH_LAVA => 38,
        MinecraftIcons::BUCKET_WITH_MILK => 39,
        MinecraftIcons::DIAMOND_BOOTS => 40,
        MinecraftIcons::WOODEN_HOE => 41,
        MinecraftIcons::BREAD => 42,
        MinecraftIcons::WOODEN_SWORD => 43,
        MinecraftIcons::BONE => 44,
        MinecraftIcons::OAK_LOG => 45,
    }
}

/// The icon named by a string, compared case-insensitively against the
/// canonical names; every unrecognized name is the absent icon `NONE`.
pub open spec fn icon_canon(s: Seq<char>) -> MinecraftIcons {
    let u = upper_chars(s);
    if u == "GRASS_BLOCK"@ { MinecraftIcons::GRASS_BLOCK }
    else if u == "DIAMOND"@ { MinecraftIcons::DIAMOND }
    else if u == "DIAMOND_SWORD"@ { MinecraftIcons::DIAMOND_SWORD }
    else if u == "CREEPER"@ { MinecraftIcons::CREEPER }
    else if u == "PIG"@ { MinecraftIcons::PIG }
    else if u == "TNT"@ { MinecraftIcons::TNT }
    else if u == "COOKIE"@ { MinecraftIcons::COOKIE }
    else if u == "HEART"@ { MinecraftIcons::HEART }
    else if u == "BED"@ { MinecraftIcons::BED }
    else if u == "CAKE"@ { MinecraftIcons::CAKE }
    else if u == "SIGN"@ { MinecraftIcons::SIGN }
    else if u == "RAIL"@ { MinecraftIcons::RAIL }
    else if u == "CRAFTING_BENCH"@ { MinecraftIcons::CRAFTING_BENCH }
    else if u == "REDSTONE"@ { MinecraftIcons::REDSTONE }
    else if u == "FIRE"@ { MinecraftIcons::FIRE }
    else if u == "COBWEB"@ { MinecraftIcons::COBWEB }
    else if u == "CHEST"@ { MinecraftIcons::CHEST }
    else if u == "FURNACE"@ { MinecraftIcons::FURNACE }
    else if u == "BOOK"@ { MinecraftIcons::BOOK }
    else if u == "STONE_BLOCK"@ { MinecraftIcons::STONE_BLOCK }
    else if u == "WOODEN_PLANK_BLOCK"@ { MinecraftIcons::WOODEN_PLANK_BLOCK }
    else if u == "IRON_INGOT"@ { MinecraftIcons::IRON_INGOT }
    else if u == "GOLD_INGOT"@ { MinecraftIcons::GOLD_INGOT }
    else if u == "WOODEN_DOOR"@ { MinecraftIcons::WOODEN_DOOR }
    else if u == "IRON_DOOR"@ { MinecraftIcons::IRON_DOOR }
    else if u == "DIAMOND_CHESTPLATE"@ { MinecraftIcons::DIAMOND_CHESTPLATE }
    else if u == "FLINT_AND_STEEL"@ { MinecraftIcons::FLINT_AND_STEEL }
    else if u == "GLASS_BOTTLE"@ { MinecraftIcons::GLASS_BOTTLE }
    else if u == "SPLASH_POTION"@ { MinecraftIcons::SPLASH_POTION }
    else if u == "CREEPER_SPAWNEGG"@ { MinecraftIcons::CREEPER_SPAWNEGG }
    else if u == "COAL"@ { MinecraftIcons::COAL }
    else if u == "IRON_SWORD"@ { MinecraftIcons::IRON_SWORD }
    else if u == "BOW"@ { MinecraftIcons::BOW }
    else if u == "ARROW"@ { MinecraftIcons::ARROW }
    else if u == "IRON_CHESTPLATE"@ { MinecraftIcons::IRON_CHESTPLATE }
    else if u == "BUCKET"@ { MinecraftIcons::BUCKET }
    else if u == "BUCKET_WITH_WATER"@ { MinecraftIcons::BUCKET_WITH_WATER }
    else if u == "BUCKET_WITH_LAVA"@ { MinecraftIcons::BUCKET_WITH_LAVA }
    else if u == "BUCKET_WITH_MILK"@ { MinecraftIcons::BUCKET_WITH_MILK }
    else if u == "DIAMOND_BOOTS"@ { MinecraftIcons::DIAMOND_BOOTS }
    else if u == "WOODEN_HOE"@ { MinecraftIcons::WOODEN_HOE }
    else if u == "BREAD"@ { MinecraftIcons::BREAD }
    else if u == "WOODEN_SWORD"@ { MinecraftIcons::WOODEN_SWORD }
    else if u == "BONE"@ { MinecraftIcons::BONE }
    else if u == "OAK_LOG"@ { MinecraftIcons::OAK_LOG }
    else { MinecraftIcons::NONE }
}

/// Maps a caller-supplied icon name to its identifier; unrecognized names
/// yield the absent icon rather than an error.
pub fn parse_icon(text: &str) -> (r: MinecraftIcons)
    ensures
        r == icon_canon(text@),
{
    let u = to_upper_chars(text);
    if upper_matches(&u, "GRASS_BLOCK") { MinecraftIcons::GRASS_BLOCK }
    else if upper_matches(&u, "DIAMOND") { MinecraftIcons::DIAMOND }
    else if upper_matches(&u, "DIAMOND_SWORD") { MinecraftIcons::DIAMOND_SWORD }
    else if upper_matches(&u, "CREEPER") { MinecraftIcons::CREEPER }
    else if upper_matches(&u, "PIG") { MinecraftIcons::PIG }
    else if upper_matches(&u, "TNT") { MinecraftIcons::TNT }
    else if upper_matches(&u, "COOKIE") { MinecraftIcons::COOKIE }
    else if upper_matches(&u, "HEART") { MinecraftIcons::HEART }
    else if upper_matches(&u, "BED") { MinecraftIcons::BED }
    else if upper_matches(&u, "CAKE") { MinecraftIcons::CAKE }
    else if upper_matches(&u, "SIGN") { MinecraftIcons::SIGN }
    else if upper_matches(&u, "RAIL") { MinecraftIcons::RAIL }
    else if upper_matches(&u, "CRAFTING_BENCH") { MinecraftIcons::CRAFTING_BENCH }
    else if upper_matches(&u, "REDSTONE") { MinecraftIcons::REDSTONE }
    else if upper_matches(&u, "FIRE") { MinecraftIcons::FIRE }
    else if upper_matches(&u, "COBWEB") { MinecraftIcons::COBWEB }
    else if upper_matches(&u, "CHEST") { MinecraftIcons::CHEST }
    else if upper_matches(&u, "FURNACE") { MinecraftIcons::FURNACE }
    else if upper_matches(&u, "BOOK") { MinecraftIcons::BOOK }
    else if upper_matches(&u, "STONE_BLOCK") { MinecraftIcons::STONE_BLOCK }
    else if upper_matches(&u, "WOODEN_PLANK_BLOCK") { MinecraftIcons::WOODEN_PLANK_BLOCK }
    else if upper_matches(&u, "IRON_INGOT") { MinecraftIcons::IRON_INGOT }
    else if upper_matches(&u, "GOLD_INGOT") { MinecraftIcons::GOLD_INGOT }
    else if upper_matches(&u, "WOODEN_DOOR") { MinecraftIcons::WOODEN_DOOR }
    else if upper_matches(&u, "IRON_DOOR") { MinecraftIcons::IRON_DOOR }
    else if upper_matches(&u, "DIAMOND_CHESTPLATE") { MinecraftIcons::DIAMOND_CHESTPLATE }
    else if upper_matches(&u, "FLINT_AND_STEEL") { MinecraftIcons::FLINT_AND_STEEL }
    else if upper_matches(&u, "GLASS_BOTTLE") { MinecraftIcons::GLASS_BOTTLE }
    else if upper_matches(&u, "SPLASH_POTION") { MinecraftIcons::SPLASH_POTION }
    else if upper_matches(&u, "CREEPER_SPAWNEGG") { MinecraftIcons::CREEPER_SPAWNEGG }
    else if upper_matches(&u, "COAL") { MinecraftIcons::COAL }
    else if upper_matches(&u, "IRON_SWORD") { MinecraftIcons::IRON_SWORD }
    else if upper_matches(&u, "BOW") { MinecraftIcons::BOW }
    else if upper_matches(&u, "ARROW") { MinecraftIcons::ARROW }
    else if upper_matches(&u, "IRON_CHESTPLATE") { MinecraftIcons::IRON_CHESTPLATE }
    else if upper_matches(&u, "BUCKET") { MinecraftIcons::BUCKET }
    else if upper_matches(&u, "BUCKET_WITH_WATER") { MinecraftIcons::BUCKET_WITH_WATER }
    else if upper_matches(&u, "BUCKET_WITH_LAVA") { MinecraftIcons::BUCKET_WITH_LAVA }
    else if upper_matches(&u, "BUCKET_WITH_MILK") { MinecraftIcons::BUCKET_WITH_MILK }
    else if upper_matches(&u, "DIAMOND_BOOTS") { MinecraftIcons::DIAMOND_BOOTS }
    else if upper_matches(&u, "WOODEN_HOE") { MinecraftIcons::WOODEN_HOE }
    else if upper_matches(&u, "BREAD") { MinecraftIcons::BREAD }
    else if upper_matches(&u, "WOODEN_SWORD") { MinecraftIcons::WOODEN_SWORD }
    else if upper_matches(&u, "BONE") { MinecraftIcons::BONE }
    else if upper_matches(&u, "OAK_LOG") { MinecraftIcons::OAK_LOG }
    else { MinecraftIcons::NONE }
}

impl MinecraftIcons {
    /// The numeric identifier the wire format uses for this icon; 0 for the
    /// absent icon.
    pub fn icon_id(&self) -> (r: i32)
        ensures
            r as int == icon_id_spec(*self),
    {
        match self {
            MinecraftIcons::NONE => 0,
            MinecraftIcons::GRASS_BLOCK => 1,
            MinecraftIcons::DIAMOND => 2,
            MinecraftIcons::DIAMOND_SWORD => 3,
            MinecraftIcons::CREEPER => 4,
            MinecraftIcons::PIG => 5,
            MinecraftIcons::TNT => 6,
            MinecraftIcons::COOKIE => 7,
            MinecraftIcons::HEART => 8,
            MinecraftIcons::BED => 9,
            MinecraftIcons::CAKE => 10,
            MinecraftIcons::SIGN => 11,
            MinecraftIcons::RAIL => 12,
            MinecraftIcons::CRAFTING_BENCH => 13,
            MinecraftIcons::REDSTONE => 14,
            MinecraftIcons::FIRE => 15,
            MinecraftIcons::COBWEB => 16,
            MinecraftIcons::CHEST => 17,
            MinecraftIcons::FURNACE => 18,
            MinecraftIcons::BOOK => 19,
            MinecraftIcons::STONE_BLOCK => 20,
            MinecraftIcons::WOODEN_PLANK_BLOCK => 21,
            MinecraftIcons::IRON_INGOT => 22,
            MinecraftIcons::GOLD_INGOT => 23,
            MinecraftIcons::WOODEN_DOOR => 24,
            MinecraftIcons::IRON_DOOR => 25,
            MinecraftIcons::DIAMOND_CHESTPLATE => 26,
            MinecraftIcons::FLINT_AND_STEEL => 27,
            MinecraftIcons::GLASS_BOTTLE => 28,
            MinecraftIcons::SPLASH_POTION => 29,
            MinecraftIcons::CREEPER_SPAWNEGG => 30,
            MinecraftIcons::COAL => 31,
            MinecraftIcons::IRON_SWORD => 32,
            MinecraftIcons::BOW => 33,
            MinecraftIcons::ARROW => 34,
            MinecraftIcons::IRON_CHESTPLATE => 35,
            MinecraftIcons::BUCKET => 36,
            MinecraftIcons::BUCKET_WITH_WATER => 37,
            MinecraftIcons::BUCKET_WITH_LAVA => 38,
            MinecraftIcons::BUCKET_WITH_MILK => 39,
            MinecraftIcons::DIAMOND_BOOTS => 40,
            MinecraftIcons::WOODEN_HOE => 41,
            MinecraftIcons::BREAD => 42,
            MinecraftIcons::WOODEN_SWORD => 43,
            MinecraftIcons::BONE => 44,
            MinecraftIcons::OAK_LOG => 45,
        }
    }
}

} // verus!
