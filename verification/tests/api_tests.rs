use alexflipnote::client::{AlexClient, ResponseKind};
use alexflipnote::icons::{parse_icon, MinecraftIcons};
use alexflipnote::normalize::{is_absent, parse_filter};
use alexflipnote::response::{
    color_from_parts, index_from_parts, transport_outcome, ApiError, ColorParts, IndexParts,
    WrapperInfo,
};

fn client() -> AlexClient {
    AlexClient::new("test-key")
}

#[test]
fn filter_names_normalize_to_canonical_tokens() {
    assert_eq!(parse_filter("blur"), "blur");
    assert_eq!(parse_filter("BLUR"), "blur");
    assert_eq!(parse_filter("Invert"), "invert");
    assert_eq!(parse_filter("black_and_white"), "b&w");
    assert_eq!(parse_filter("DeepFry"), "deepfry");
    assert_eq!(parse_filter("sepia"), "sepia");
    assert_eq!(parse_filter("PIXELATE"), "pixelate");
    assert_eq!(parse_filter("magik"), "magik");
    assert_eq!(parse_filter("jpegify"), "jpegify");
    assert_eq!(parse_filter("wide"), "wide");
    assert_eq!(parse_filter("Snow"), "snow");
    assert_eq!(parse_filter("gay"), "gay");
    assert_eq!(parse_filter("communist"), "communist");
}

#[test]
fn unknown_filter_names_fall_back_to_default() {
    assert_eq!(parse_filter("no_such_filter"), "magik");
    assert_eq!(parse_filter(""), "magik");
    assert_eq!(parse_filter("blurr"), "magik");
}

#[test]
fn icon_names_normalize_case_insensitively() {
    assert_eq!(parse_icon("diamond_sword"), MinecraftIcons::DIAMOND_SWORD);
    assert_eq!(parse_icon("DiAmOnD_sWoRd"), MinecraftIcons::DIAMOND_SWORD);
    assert_eq!(parse_icon("DIAMOND_SWORD"), MinecraftIcons::DIAMOND_SWORD);
    assert_eq!(parse_icon("grass_block"), MinecraftIcons::GRASS_BLOCK);
    assert_eq!(parse_icon("oak_log"), MinecraftIcons::OAK_LOG);
}

#[test]
fn unknown_icon_names_yield_the_absent_icon() {
    assert_eq!(parse_icon("not_a_real_icon"), MinecraftIcons::NONE);
    assert_eq!(parse_icon(""), MinecraftIcons::NONE);
}

// The corrected icon-name mapping: the names are matched as spelled, with no
// misspelled keys, so these two icons are reachable by their real names.
#[test]
fn bucket_icons_match_their_correct_spelling() {
    assert_eq!(parse_icon("bucket_with_water"), MinecraftIcons::BUCKET_WITH_WATER);
    assert_eq!(parse_icon("bucket_with_milk"), MinecraftIcons::BUCKET_WITH_MILK);
}

#[test]
fn icon_ids_are_the_wire_identifiers() {
    assert_eq!(MinecraftIcons::NONE.icon_id(), 0);
    assert_eq!(MinecraftIcons::GRASS_BLOCK.icon_id(), 1);
    assert_eq!(MinecraftIcons::DIAMOND_SWORD.icon_id(), 3);
    assert_eq!(MinecraftIcons::OAK_LOG.icon_id(), 45);
}

#[test]
fn sentinel_strings_are_recognized_in_any_case() {
    assert!(is_absent("none"));
    assert!(is_absent("NONE"));
    assert!(is_absent("None"));
    assert!(is_absent("null"));
    assert!(is_absent("NuLl"));
    assert!(is_absent("0"));
    assert!(is_absent("false"));
    assert!(is_absent("FALSE"));
}

#[test]
fn non_sentinel_strings_are_not_absent() {
    assert!(!is_absent("red"));
    assert!(!is_absent(""));
    assert!(!is_absent("1"));
    assert!(!is_absent("nonee"));
    assert!(!is_absent("nil"));
}

#[test]
fn required_parameters_appear_exactly_in_declared_order() {
    let c = client();
    let r = c.drake("top text", "bottom text");
    assert_eq!(
        r.url,
        "https://api.alexflipnote.dev/drake?top=top%20text&bottom=bottom%20text"
    );
    assert_eq!(r.key, "test-key");
    assert_eq!(r.kind, ResponseKind::Binary);
}

#[test]
fn reserved_characters_in_values_are_escaped() {
    let c = client();
    let r = c.calling("a&b=c?d");
    assert_eq!(
        r.url,
        "https://api.alexflipnote.dev/calling?text=a%26b%3Dc%3Fd"
    );
}

#[test]
fn non_ascii_values_are_escaped_byte_wise() {
    let c = client();
    let r = c.captcha("caf\u{e9}");
    assert_eq!(r.url, "https://api.alexflipnote.dev/captcha?text=caf%C3%A9");
}

#[test]
fn colorify_omits_sentinel_color_and_keeps_background() {
    let c = client();
    let r = c.colorify("img", "none", "RED");
    assert_eq!(
        r.url,
        "https://api.alexflipnote.dev/colourify?image=img&b=RED"
    );
}

#[test]
fn colorify_keeps_both_when_no_sentinel() {
    let c = client();
    let r = c.colorify("img", "BLUE", "RED");
    assert_eq!(
        r.url,
        "https://api.alexflipnote.dev/colourify?image=img&c=BLUE&b=RED"
    );
}

#[test]
fn colorify_omits_both_on_sentinels() {
    let c = client();
    let r = c.colorify("img", "0", "FALSE");
    assert_eq!(r.url, "https://api.alexflipnote.dev/colourify?image=img");
}

#[test]
fn achievement_omits_icon_zero() {
    let c = client();
    let r = c.achievement("hi", &0);
    assert_eq!(r.url, "https://api.alexflipnote.dev/achievement?text=hi");
}

#[test]
fn achievement_includes_nonzero_icon() {
    let c = client();
    let r = c.achievement("hi", &3);
    assert_eq!(
        r.url,
        "https://api.alexflipnote.dev/achievement?text=hi&icon=3"
    );
    let r2 = c.achievement("hi", &-12);
    assert_eq!(
        r2.url,
        "https://api.alexflipnote.dev/achievement?text=hi&icon=-12"
    );
}

#[test]
fn supreme_modes_select_a_style() {
    let c = client();
    assert_eq!(
        c.supreme("s", "light").url,
        "https://api.alexflipnote.dev/supreme?text=s&light=true"
    );
    assert_eq!(
        c.supreme("s", "DARK").url,
        "https://api.alexflipnote.dev/supreme?text=s&dark=true"
    );
    assert_eq!(
        c.supreme("s", "plain").url,
        "https://api.alexflipnote.dev/supreme?text=s"
    );
}

#[test]
fn filter_endpoint_encodes_the_name_segment() {
    let c = client();
    let name = parse_filter("black_and_white");
    let r = c.filter(name, "http://x/y.png");
    assert_eq!(
        r.url,
        "https://api.alexflipnote.dev/filter/b%26w?image=http%3A%2F%2Fx%2Fy.png"
    );
}

#[test]
fn color_endpoint_puts_the_hex_in_the_path() {
    let c = client();
    let r = c.color("ff00ff");
    assert_eq!(r.url, "https://api.alexflipnote.dev/color/ff00ff");
    assert_eq!(r.kind, ResponseKind::Json);
}

#[test]
fn index_is_the_bare_base_url() {
    let c = client();
    let r = c.index();
    assert_eq!(r.url, "https://api.alexflipnote.dev/");
    assert_eq!(r.kind, ResponseKind::Json);
}

#[test]
fn parameterless_endpoints_have_no_query() {
    let c = client();
    assert_eq!(c.birb().url, "https://api.alexflipnote.dev/birb");
    assert_eq!(c.cats().url, "https://api.alexflipnote.dev/cats");
    assert_eq!(c.dogs().url, "https://api.alexflipnote.dev/dogs");
    assert_eq!(c.fml().url, "https://api.alexflipnote.dev/fml");
    assert_eq!(c.sadcat().url, "https://api.alexflipnote.dev/sadcat");
}

#[test]
fn two_parameter_endpoints_keep_their_order() {
    let c = client();
    assert_eq!(
        c.didyoumean("a", "b").url,
        "https://api.alexflipnote.dev/didyoumean?top=a&bottom=b"
    );
    assert_eq!(
        c.floor("i", "t").url,
        "https://api.alexflipnote.dev/floor?image=i&text=t"
    );
    assert_eq!(
        c.pornhub("x", "y").url,
        "https://api.alexflipnote.dev/pornhub?text=x&text2=y"
    );
    assert_eq!(
        c.ship("u", "v").url,
        "https://api.alexflipnote.dev/ship?user=u&user2=v"
    );
    assert_eq!(
        c.trash("f", "t").url,
        "https://api.alexflipnote.dev/trash?face=f&trash=t"
    );
}

#[test]
fn single_image_endpoints_use_the_image_key() {
    let c = client();
    assert_eq!(
        c.amiajoke("u").url,
        "https://api.alexflipnote.dev/amiajoke?image=u"
    );
    assert_eq!(c.bad("u").url, "https://api.alexflipnote.dev/bad?image=u");
    assert_eq!(
        c.jokeoverhead("u").url,
        "https://api.alexflipnote.dev/jokeoverhead?image=u"
    );
    assert_eq!(c.salty("u").url, "https://api.alexflipnote.dev/salty?image=u");
    assert_eq!(c.shame("u").url, "https://api.alexflipnote.dev/shame?image=u");
    assert_eq!(c.what("u").url, "https://api.alexflipnote.dev/what?image=u");
    assert_eq!(
        c.scroll("s").url,
        "https://api.alexflipnote.dev/scroll?text=s"
    );
    assert_eq!(c.facts("s").url, "https://api.alexflipnote.dev/facts?text=s");
}

fn full_color_parts() -> ColorParts {
    ColorParts {
        blackorwhite_text: Some(String::from("#000000")),
        brightness: Some(128),
        hex: Some(String::from("#ff00ff")),
        image: Some(String::from("https://example.test/image")),
        image_gradient: Some(String::from("https://example.test/gradient")),
        int: Some(16711935),
        name: Some(String::from("Magenta")),
        rgb: Some(String::from("rgb(255, 0, 255)")),
        rgb_values: Some(vec![
            (String::from("r"), 255),
            (String::from("g"), 0),
            (String::from("b"), 255),
        ]),
        shade: Some(vec![String::from("#cc00cc")]),
        tint: Some(vec![String::from("#ff33ff")]),
    }
}

#[test]
fn complete_color_parts_assemble_a_record() {
    let r = color_from_parts(full_color_parts()).expect("complete parts must decode");
    assert_eq!(r.name, "Magenta");
    assert_eq!(r.brightness, 128);
    assert_eq!(r.int, 16711935);
    assert_eq!(r.rgb_values.len(), 3);
}

#[test]
fn missing_required_field_is_a_decode_error() {
    let mut parts = full_color_parts();
    parts.brightness = None;
    assert_eq!(color_from_parts(parts).unwrap_err(), ApiError::DecodeError);
    let mut parts2 = full_color_parts();
    parts2.name = None;
    assert_eq!(color_from_parts(parts2).unwrap_err(), ApiError::DecodeError);
}

#[test]
fn index_record_requires_all_fields() {
    let full = IndexParts {
        support_server: Some(String::from("https://example.test/chat")),
        endpoints: Some(vec![String::from("/birb"), String::from("/cats")]),
        wrappers: Some(vec![(
            String::from("rust"),
            WrapperInfo {
                author: String::from("someone"),
                url: String::from("https://example.test/repo"),
            },
        )]),
    };
    let ok = index_from_parts(full).expect("complete parts must decode");
    assert_eq!(ok.endpoints.len(), 2);
    let missing = IndexParts {
        support_server: None,
        endpoints: Some(vec![]),
        wrappers: Some(vec![]),
    };
    assert_eq!(index_from_parts(missing).unwrap_err(), ApiError::DecodeError);
}

#[test]
fn connection_failure_is_a_transport_error() {
    assert_eq!(transport_outcome(None).unwrap_err(), ApiError::TransportError);
}

#[test]
fn non_success_status_is_a_transport_error() {
    assert_eq!(
        transport_outcome(Some(404)).unwrap_err(),
        ApiError::TransportError
    );
    assert_eq!(
        transport_outcome(Some(500)).unwrap_err(),
        ApiError::TransportError
    );
    assert_eq!(transport_outcome(Some(200)).unwrap(), 200);
    assert_eq!(transport_outcome(Some(204)).unwrap(), 204);
}

#[test]
fn the_credential_is_carried_into_every_request() {
    let c = AlexClient::new("k-9000");
    assert_eq!(c.birb().key, "k-9000");
    assert_eq!(c.color("fff").key, "k-9000");
    assert_eq!(c.index().key, "k-9000");
}
