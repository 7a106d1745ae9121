//! Parameter normalization: case-insensitive mapping of caller-supplied
//! names to canonical API tokens, and recognition of the sentinel strings
//! that mean "omit this optional parameter".

use vstd::prelude::*;
use crate::text::{to_upper_chars, upper_chars, upper_matches};

verus! {

/// The canonical filter token for a caller-supplied name: a case-insensitive
/// exact match against the known filter names, and `magik` for everything
/// else. Total on purpose: an unrecognized name is substituted, not refused.
pub open spec fn filter_canon(s: Seq<char>) -> Seq<char> {
    let u = upper_chars(s);
    if u == "BLUR"@ {
        "blur"@
    } else if u == "INVERT"@ {
        "invert"@
    } else if u == "BLACK_AND_WHITE"@ {
        "b&w"@
    } else if u == "DEEPFRY"@ {
        "deepfry"@
    } else if u == "SEPIA"@ {
        "sepia"@
    } else if u == "PIXELATE"@ {
        "pixelate"@
    } else if u == "MAGIK"@ {
        "magik"@
    } else if u == "JPEGIFY"@ {
        "jpegify"@
    } else if u == "WIDE"@ {
        "wide"@
    } else if u == "SNOW"@ {
        "snow"@
    } else if u == "GAY"@ {
        "gay"@
    } else if u == "COMMUNIST"@ {
        "communist"@
    } else {
        "magik"@
    }
}

/// Maps a caller-supplied filter name to its canonical token; unrecognized
/// names fall back to the default filter rather than failing.
pub fn parse_filter(text: &str) -> (r: &'static str)
    ensures
        r@ == filter_canon(text@),
{
    let u = to_upper_chars(text);
    if upper_matches(&u, "BLUR") {
        "blur"
    } else if upper_matches(&u, "INVERT") {
        "invert"
    } else if upper_matches(&u, "BLACK_AND_WHITE") {
        "b&w"
    } else if upper_matches(&u, "DEEPFRY") {
        "deepfry"
    } else if upper_matches(&u, "SEPIA") {
        "sepia"
    } else if upper_matches(&u, "PIXELATE") {
        "pixelate"
    } else if upper_matches(&u, "MAGIK") {
        "magik"
    } else if upper_matches(&u, "JPEGIFY") {
        "jpegify"
    } else if upper_matches(&u, "WIDE") {
        "wide"
    } else if upper_matches(&u, "SNOW") {
        "snow"
    } else if upper_matches(&u, "GAY") {
        "gay"
    } else if upper_matches(&u, "COMMUNIST") {
        "communist"
    } else {
        "magik"
    }
}

/// True for the sentinel strings that mean "leave this optional parameter
/// out of the query", compared case-insensitively.
pub open spec fn is_absent_sentinel(s: Seq<char>) -> bool {
    let u = upper_chars(s);
    u == "NONE"@ || u == "NULL"@ || u == "0"@ || u == "FALSE"@
}

/// Decides whether an optional parameter value is one of the absence
/// sentinels (`none`, `null`, `0`, `false`, in any case); any other value is
/// sent literally.
pub fn is_absent(value: &str) -> (r: bool)
    ensures
        r == is_absent_sentinel(value@),
{
    let u = to_upper_chars(value);
    if upper_matches(&u, "NONE") {
        true
    } else if upper_matches(&u, "NULL") {
        true
    } else if upper_matches(&u, "0") {
        true
    } else if upper_matches(&u, "FALSE") {
        true
    } else {
        false
    }
}

} // verus!
