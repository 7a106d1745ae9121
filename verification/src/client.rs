//! The endpoint catalog: one request-building method per remote operation.
//!
//! A client owns the API credential; each method normalizes its parameters,
//! assembles the full request URL (base, path, percent-encoded query), and
//! returns an [`ApiRequest`] that carries the URL, the credential for the
//! `Authorization` header (sent raw, exactly once per request), and the
//! expected response kind. Sending the request is the transport's business,
//! outside this crate; building it is pure and fully specified.

use vstd::prelude::*;
use crate::encode::{pct_chars, pct_encode_into};
use crate::normalize::is_absent_sentinel;
use crate::normalize::is_absent;
use crate::numfmt::{dec_int, fmt_i32};
use crate::query::{build_query, pairs_view, query_of};
use crate::query::append_str;
use crate::text::{append_chars, string_from_chars, to_upper_chars, upper_chars, upper_matches};

verus! {

/// The fixed base of every request URL.
pub open spec fn base_url() -> Seq<char> {
    "https://api.alexflipnote.dev/"@
}

/// What shape of response an endpoint yields: a fixed-schema JSON record or
/// an opaque binary image.
#[derive(Clone, Copy, Debug, PartialEq, Eq, Structural)]
pub enum ResponseKind {
    Json,
    Binary,
}

/// A fully assembled request: the URL to fetch, the credential to send as
/// the raw `Authorization` header value (exactly once), and the response
/// kind the caller should expect.
#[derive(Clone, Debug)]
pub struct ApiRequest {
    pub url: String,
    pub key: String,
    pub kind: ResponseKind,
}

/// A client for the remote API: it owns the credential, injected at
/// construction and never mutated, and builds one request per call.
pub struct AlexClient {
    pub key: String,
}

/// The pairs of the achievement operation: the text always, the icon only
/// when its numeric identifier is not the absent icon 0.
pub open spec fn achievement_pairs(text: Seq<char>, icon: int) -> Seq<(Seq<char>, Seq<char>)> {
    let p = seq![("text"@, pct_chars(text))];
    if icon == 0 {
        p
    } else {
        p.push(("icon"@, pct_chars(dec_int(icon))))
    }
}

/// The pairs of the colorify operation: the image always; the color (`c`)
/// and background (`b`) only when the caller's value is not an absence
/// sentinel.
pub open spec fn colorify_pairs(image: Seq<char>, color: Seq<char>, background: Seq<char>) -> Seq<
    (Seq<char>, Seq<char>),
> {
    let p = seq![("image"@, pct_chars(image))];
    let q = if is_absent_sentinel(color) {
        p
    } else {
        p.push(("c"@, pct_chars(color)))
    };
    if is_absent_sentinel(background) {
        q
    } else {
        q.push(("b"@, pct_chars(background)))
    }
}

/// The pairs of the supreme operation: the text always, and `light=true` or
/// `dark=true` when the mode names one of the two styles (any case); any
/// other mode adds nothing.
pub open spec fn supreme_pairs(text: Seq<char>, mode: Seq<char>) -> Seq<(Seq<char>, Seq<char>)> {
    let p = seq![("text"@, pct_chars(text))];
    if upper_chars(mode) == "LIGHT"@ {
        p.push(("light"@, pct_chars("true"@)))
    } else if upper_chars(mode) == "DARK"@ {
        p.push(("dark"@, pct_chars("true"@)))
    } else {
        p
    }
}

/// The omission invariant of optional parameters: a value that is an
/// absence sentinel leaves no pair behind at all — the colorify pair list
/// then has no `c` (or `b`) key, rather than one with an empty value.
pub proof fn lemma_sentinel_omitted(image: Seq<char>, color: Seq<char>, background: Seq<char>)
    ensures
        is_absent_sentinel(color) ==> forall|j: int|
            0 <= j < colorify_pairs(image, color, background).len() ==> (#[trigger] colorify_pairs(
                image,
                color,
                background,
            )[j].0) != "c"@,
        is_absent_sentinel(background) ==> forall|j: int|
            0 <= j < colorify_pairs(image, color, background).len() ==> (#[trigger] colorify_pairs(
                image,
                color,
                background,
            )[j].0) != "b"@,
{
    reveal_strlit("image");
    reveal_strlit("c");
    reveal_strlit("b");
    assert("image"@.len() == 5 && "c"@.len() == 1 && "b"@.len() == 1);
    assert("c"@[0] == 'c' && "b"@[0] == 'b');
}

impl AlexClient {
    /// A new client holding the given credential.
    pub fn new(key: &str) -> (r: AlexClient)
        ensures
            r.key@ == key@,
    {
        AlexClient { key: key.to_owned() }
    }

    /// Assembles base URL, path and query string into one request.
    fn request_parts(&self, kind: ResponseKind, path: &str, pairs: &Vec<(&str, &str)>) -> (r:
        ApiRequest)
        ensures
            r.url@ == base_url() + path@ + query_of(pairs_view(pairs@)),
            r.key@ == self.key@,
            r.kind == kind,
    {
        let mut out: Vec<char> = Vec::new();
        append_str(&mut out, "https://api.alexflipnote.dev/");
        append_str(&mut out, path);
        let q = build_query(pairs);
        append_chars(&mut out, &q);
        ApiRequest { url: string_from_chars(&out), key: self.key.clone(), kind }
    }

    /// The index operation: the base URL itself, yielding the JSON listing.
    pub fn index(&self) -> (r: ApiRequest)
        ensures
            r.url@ == base_url(),
            r.key@ == self.key@,
            r.kind == ResponseKind::Json,
    {
        let pairs: Vec<(&str, &str)> = Vec::new();
        let r = self.request_parts(ResponseKind::Json, "", &pairs);
        proof {
            assert(pairs_view(pairs@).len() == 0);
            assert(query_of(pairs_view(pairs@)) =~= Seq::<char>::empty());
            reveal_strlit("");
            assert(""@ =~= Seq::<char>::empty());
            assert(base_url() + ""@ + Seq::<char>::empty() =~= base_url());
        }
        r
    }

    /// The color lookup: the hex value is a path segment, percent-encoded.
    pub fn color(&self, hex: &str) -> (r: ApiRequest)
        ensures
            r.url@ == base_url() + "color/"@ + pct_chars(hex@),
            r.key@ == self.key@,
            r.kind == ResponseKind::Json,
    {
        let mut out: Vec<char> = Vec::new();
        append_str(&mut out, "https://api.alexflipnote.dev/");
        append_str(&mut out, "color/");
        pct_encode_into(&mut out, hex);
        ApiRequest {
            url: string_from_chars(&out),
            key: self.key.clone(),
            kind: ResponseKind::Json,
        }
    }

    /// An image filter applied to a picture: the canonical filter name is a
    /// path segment, percent-encoded; the picture URL is the query value.
    pub fn filter(&self, name: &str, text: &str) -> (r: ApiRequest)
        ensures
            r.url@ == base_url() + "filter/"@ + pct_chars(name@) + query_of(
                seq![("image"@, pct_chars(text@))],
            ),
            r.key@ == self.key@,
            r.kind == ResponseKind::Binary,
    {
        let mut out: Vec<char> = Vec::new();
        append_str(&mut out, "https://api.alexflipnote.dev/");
        append_str(&mut out, "filter/");
        pct_encode_into(&mut out, name);
        let mut pairs: Vec<(&str, &str)> = Vec::new();
        pairs.push(("image", text));
        let q = build_query(&pairs);
        append_chars(&mut out, &q);
        proof {
            assert(pairs_view(pairs@) =~= seq![("image"@, pct_chars(text@))]);
        }
        ApiRequest {
            url: string_from_chars(&out),
            key: self.key.clone(),
            kind: ResponseKind::Binary,
        }
    }

    /// A meme of two lines.
    pub fn drake(&self, top: &str, bottom: &str) -> (r: ApiRequest)
        ensures
            r.url@ == base_url() + "drake"@ + query_of(
                seq![("top"@, pct_chars(top@)), ("bottom"@, pct_chars(bottom@))],
            ),
            r.key@ == self.key@,
            r.kind == ResponseKind::Binary,
    {
        let mut pairs: Vec<(&str, &str)> = Vec::new();
        pairs.push(("top", top));
        pairs.push(("bottom", bottom));
        let r = self.request_parts(ResponseKind::Binary, "drake", &pairs);
        proof {
            assert(pairs_view(pairs@) =~= seq![
                ("top"@, pct_chars(top@)),
                ("bottom"@, pct_chars(bottom@)),
            ]);
        }
        r
    }

    /// An achievement banner; icon 0 means no icon and is omitted.
    pub fn achievement(&self, text: &str, icon: &i32) -> (r: ApiRequest)
        ensures
            r.url@ == base_url() + "achievement"@ + query_of(
                achievement_pairs(text@, *icon as int),
            ),
            r.key@ == self.key@,
            r.kind == ResponseKind::Binary,
    {
        let icon_chars = fmt_i32(*icon);
        let icon_str = string_from_chars(&icon_chars);
        let mut pairs: Vec<(&str, &str)> = Vec::new();
        pairs.push(("text", text));
        if *icon != 0 {
            pairs.push(("icon", icon_str.as_str()));
        }
        let r = self.request_parts(ResponseKind::Binary, "achievement", &pairs);
        proof {
            assert(pairs_view(pairs@) =~= achievement_pairs(text@, *icon as int));
        }
        r
    }

    /// Stamps a picture as a joke.
    pub fn amiajoke(&self, url: &str) -> (r: ApiRequest)
        ensures
            r.url@ == base_url() + "amiajoke"@ + query_of(seq![("image"@, pct_chars(url@))]),
            r.key@ == self.key@,
            r.kind == ResponseKind::Binary,
    {
        self.one_image_param("amiajoke", url)
    }

    /// Marks a picture as bad.
    pub fn bad(&self, url: &str) -> (r: ApiRequest)
        ensures
            r.url@ == base_url() + "bad"@ + query_of(seq![("image"@, pct_chars(url@))]),
            r.key@ == self.key@,
            r.kind == ResponseKind::Binary,
    {
        self.one_image_param("bad", url)
    }

    /// A random bird picture.
    pub fn birb(&self) -> (r: ApiRequest)
        ensures
            r.url@ == base_url() + "birb"@,
            r.key@ == self.key@,
            r.kind == ResponseKind::Binary,
    {
        self.no_params("birb")
    }

    /// A calling meme with the given caption.
    pub fn calling(&self, text: &str) -> (r: ApiRequest)
        ensures
            r.url@ == base_url() + "calling"@ + query_of(seq![("text"@, pct_chars(text@))]),
            r.key@ == self.key@,
            r.kind == ResponseKind::Binary,
    {
        self.one_text_param("calling", text)
    }

    /// A captcha-style image of the given text.
    pub fn captcha(&self, text: &str) -> (r: ApiRequest)
        ensures
            r.url@ == base_url() + "captcha"@ + query_of(seq![("text"@, pct_chars(text@))]),
            r.key@ == self.key@,
            r.kind == ResponseKind::Binary,
    {
        self.one_text_param("captcha", text)
    }

    /// A random cat picture.
    pub fn cats(&self) -> (r: ApiRequest)
        ensures
            r.url@ == base_url() + "cats"@,
            r.key@ == self.key@,
            r.kind == ResponseKind::Binary,
    {
        self.no_params("cats")
    }

    /// Recolors a picture; color and background are optional and omitted on
    /// an absence sentinel. The remote path spells the operation `colourify`.
    pub fn colorify(&self, url: &str, color: &str, background: &str) -> (r: ApiRequest)
        ensures
            r.url@ == base_url() + "colourify"@ + query_of(
                colorify_pairs(url@, color@, background@),
            ),
            r.key@ == self.key@,
            r.kind == ResponseKind::Binary,
    {
        let mut pairs: Vec<(&str, &str)> = Vec::new();
        pairs.push(("image", url));
        if !is_absent(color) {
            pairs.push(("c", color));
        }
        if !is_absent(background) {
            pairs.push(("b", background));
        }
        let r = self.request_parts(ResponseKind::Binary, "colourify", &pairs);
        proof {
            assert(pairs_view(pairs@) =~= colorify_pairs(url@, color@, background@));
        }
        r
    }

    /// A did-you-mean meme of two lines.
    pub fn didyoumean(&self, top: &str, bottom: &str) -> (r: ApiRequest)
        ensures
            r.url@ == base_url() + "didyoumean"@ + query_of(
                seq![("top"@, pct_chars(top@)), ("bottom"@, pct_chars(bottom@))],
            ),
            r.key@ == self.key@,
            r.kind == ResponseKind::Binary,
    {
        let mut pairs: Vec<(&str, &str)> = Vec::new();
        pairs.push(("top", top));
        pairs.push(("bottom", bottom));
        let r = self.request_parts(ResponseKind::Binary, "didyoumean", &pairs);
        proof {
            assert(pairs_view(pairs@) =~= seq![
                ("top"@, pct_chars(top@)),
                ("bottom"@, pct_chars(bottom@)),
            ]);
        }
        r
    }

    /// A random dog picture.
    pub fn dogs(&self) -> (r: ApiRequest)
        ensures
            r.url@ == base_url() + "dogs"@,
            r.key@ == self.key@,
            r.kind == ResponseKind::Binary,
    {
        self.no_params("dogs")
    }

    /// A facts-book image of the given text.
    pub fn facts(&self, text: &str) -> (r: ApiRequest)
        ensures
            r.url@ == base_url() + "facts"@ + query_of(seq![("text"@, pct_chars(text@))]),
            r.key@ == self.key@,
            r.kind == ResponseKind::Binary,
    {
        self.one_text_param("facts", text)
    }

    /// A floor-is-lava meme with a caption and a picture.
    pub fn floor(&self, img: &str, text: &str) -> (r: ApiRequest)
        ensures
            r.url@ == base_url() + "floor"@ + query_of(
                seq![("image"@, pct_chars(img@)), ("text"@, pct_chars(text@))],
            ),
            r.key@ == self.key@,
            r.kind == ResponseKind::Binary,
    {
        let mut pairs: Vec<(&str, &str)> = Vec::new();
        pairs.push(("image", img));
        pairs.push(("text", text));
        let r = self.request_parts(ResponseKind::Binary, "floor", &pairs);
        proof {
            assert(pairs_view(pairs@) =~= seq![
                ("image"@, pct_chars(img@)),
                ("text"@, pct_chars(text@)),
            ]);
        }
        r
    }

    /// A random FML line as an image.
    pub fn fml(&self) -> (r: ApiRequest)
        ensures
            r.url@ == base_url() + "fml"@,
            r.key@ == self.key@,
            r.kind == ResponseKind::Binary,
    {
        self.no_params("fml")
    }

    /// A joke-over-head meme around a picture.
    pub fn jokeoverhead(&self, url: &str) -> (r: ApiRequest)
        ensures
            r.url@ == base_url() + "jokeoverhead"@ + query_of(seq![("image"@, pct_chars(url@))]),
            r.key@ == self.key@,
            r.kind == ResponseKind::Binary,
    {
        self.one_image_param("jokeoverhead", url)
    }

    /// A two-word logo-style image.
    pub fn pornhub(&self, text: &str, text2: &str) -> (r: ApiRequest)
        ensures
            r.url@ == base_url() + "pornhub"@ + query_of(
                seq![("text"@, pct_chars(text@)), ("text2"@, pct_chars(text2@))],
            ),
            r.key@ == self.key@,
            r.kind == ResponseKind::Binary,
    {
        let mut pairs: Vec<(&str, &str)> = Vec::new();
        pairs.push(("text", text));
        pairs.push(("text2", text2));
        let r = self.request_parts(ResponseKind::Binary, "pornhub", &pairs);
        proof {
            assert(pairs_view(pairs@) =~= seq![
                ("text"@, pct_chars(text@)),
                ("text2"@, pct_chars(text2@)),
            ]);
        }
        r
    }

    /// A random sad-cat picture.
    pub fn sadcat(&self) -> (r: ApiRequest)
        ensures
            r.url@ == base_url() + "sadcat"@,
            r.key@ == self.key@,
            r.kind == ResponseKind::Binary,
    {
        self.no_params("sadcat")
    }

    /// Marks a picture as salty.
    pub fn salty(&self, url: &str) -> (r: ApiRequest)
        ensures
            r.url@ == base_url() + "salty"@ + query_of(seq![("image"@, pct_chars(url@))]),
            r.key@ == self.key@,
            r.kind == ResponseKind::Binary,
    {
        self.one_image_param("salty", url)
    }

    /// A scroll-of-truth meme of the given text.
    pub fn scroll(&self, text: &str) -> (r: ApiRequest)
        ensures
            r.url@ == base_url() + "scroll"@ + query_of(seq![("text"@, pct_chars(text@))]),
            r.key@ == self.key@,
            r.kind == ResponseKind::Binary,
    {
        self.one_text_param("scroll", text)
    }

    /// A shame banner around a picture.
    pub fn shame(&self, url: &str) -> (r: ApiRequest)
        ensures
            r.url@ == base_url() + "shame"@ + query_of(seq![("image"@, pct_chars(url@))]),
            r.key@ == self.key@,
            r.kind == ResponseKind::Binary,
    {
        self.one_image_param("shame", url)
    }

    /// A ship image of two users.
    pub fn ship(&self, user: &str, user2: &str) -> (r: ApiRequest)
        ensures
            r.url@ == base_url() + "ship"@ + query_of(
                seq![("user"@, pct_chars(user@)), ("user2"@, pct_chars(user2@))],
            ),
            r.key@ == self.key@,
            r.kind == ResponseKind::Binary,
    {
        let mut pairs: Vec<(&str, &str)> = Vec::new();
        pairs.push(("user", user));
        pairs.push(("user2", user2));
        let r = self.request_parts(ResponseKind::Binary, "ship", &pairs);
        proof {
            assert(pairs_view(pairs@) =~= seq![
                ("user"@, pct_chars(user@)),
                ("user2"@, pct_chars(user2@)),
            ]);
        }
        r
    }

    /// A supreme-style logo; mode `light` or `dark` (any case) picks a style,
    /// anything else the default.
    pub fn supreme(&self, text: &str, mode: &str) -> (r: ApiRequest)
        ensures
            r.url@ == base_url() + "supreme"@ + query_of(supreme_pairs(text@, mode@)),
            r.key@ == self.key@,
            r.kind == ResponseKind::Binary,
    {
        let u = to_upper_chars(mode);
        let mut pairs: Vec<(&str, &str)> = Vec::new();
        pairs.push(("text", text));
        if upper_matches(&u, "LIGHT") {
            pairs.push(("light", "true"));
        } else if upper_matches(&u, "DARK") {
            pairs.push(("dark", "true"));
        }
        let r = self.request_parts(ResponseKind::Binary, "supreme", &pairs);
        proof {
            assert(pairs_view(pairs@) =~= supreme_pairs(text@, mode@));
        }
        r
    }

    /// A trash meme of a face and the thing it looks at.
    pub fn trash(&self, face: &str, trash: &str) -> (r: ApiRequest)
        ensures
            r.url@ == base_url() + "trash"@ + query_of(
                seq![("face"@, pct_chars(face@)), ("trash"@, pct_chars(trash@))],
            ),
            r.key@ == self.key@,
            r.kind == ResponseKind::Binary,
    {
        let mut pairs: Vec<(&str, &str)> = Vec::new();
        pairs.push(("face", face));
        pairs.push(("trash", trash));
        let r = self.request_parts(ResponseKind::Binary, "trash", &pairs);
        proof {
            assert(pairs_view(pairs@) =~= seq![
                ("face"@, pct_chars(face@)),
                ("trash"@, pct_chars(trash@)),
            ]);
        }
        r
    }

    /// A what-meme around a picture.
    pub fn what(&self, image: &str) -> (r: ApiRequest)
        ensures
            r.url@ == base_url() + "what"@ + query_of(seq![("image"@, pct_chars(image@))]),
            r.key@ == self.key@,
            r.kind == ResponseKind::Binary,
    {
        self.one_image_param("what", image)
    }

    /// A binary endpoint with no parameters.
    fn no_params(&self, path: &str) -> (r: ApiRequest)
        ensures
            r.url@ == base_url() + path@,
            r.key@ == self.key@,
            r.kind == ResponseKind::Binary,
    {
        let pairs: Vec<(&str, &str)> = Vec::new();
        let r = self.request_parts(ResponseKind::Binary, path, &pairs);
        proof {
            assert(pairs_view(pairs@).len() == 0);
            assert(query_of(pairs_view(pairs@)) =~= Seq::<char>::empty());
            assert(base_url() + path@ + Seq::<char>::empty() =~= base_url() + path@);
        }
        r
    }

    /// A binary endpoint whose single parameter is `image`.
    fn one_image_param(&self, path: &str, url: &str) -> (r: ApiRequest)
        ensures
            r.url@ == base_url() + path@ + query_of(seq![("image"@, pct_chars(url@))]),
            r.key@ == self.key@,
            r.kind == ResponseKind::Binary,
    {
        let mut pairs: Vec<(&str, &str)> = Vec::new();
        pairs.push(("image", url));
        let r = self.request_parts(ResponseKind::Binary, path, &pairs);
        proof {
            assert(pairs_view(pairs@) =~= seq![("image"@, pct_chars(url@))]);
        }
        r
    }

    /// A binary endpoint whose single parameter is `text`.
    fn one_text_param(&self, path: &str, text: &str) -> (r: ApiRequest)
        ensures
            r.url@ == base_url() + path@ + query_of(seq![("text"@, pct_chars(text@))]),
            r.key@ == self.key@,
            r.kind == ResponseKind::Binary,
    {
        let mut pairs: Vec<(&str, &str)> = Vec::new();
        pairs.push(("text", text));
        let r = self.request_parts(ResponseKind::Binary, path, &pairs);
        proof {
            assert(pairs_view(pairs@) =~= seq![("text"@, pct_chars(text@))]);
        }
        r
    }
}

} // verus!
