//! Character-level text helpers: bridging `&str` to `Vec<char>`, ASCII
//! case mapping, and equality of character sequences.

use vstd::prelude::*;

verus! {

/// Relies on `str::chars` and `Vec`'s `FromIterator`: the characters of a
/// string slice, in order, which is exactly the view vstd gives to `str`.
#[verifier::external_body]
pub fn chars_of(s: &str) -> (r: Vec<char>)
    ensures
        r@ == s@,
{
    s.chars().collect()
}

/// Relies on `String`'s `FromIterator` over `char`: concatenating the
/// characters in order yields a string whose view is the input sequence.
#[verifier::external_body]
pub fn string_from_chars(v: &Vec<char>) -> (r: String)
    ensures
        r@ == v@,
{
    v.iter().collect()
}

/// ASCII upper-casing of a single character; everything outside `a..=z`
/// is left unchanged.
pub open spec fn upper_char(c: char) -> char {
    if 97 <= c as u32 && c as u32 <= 122 {
        ((c as u32 - 32) as u8) as char
    } else {
        c
    }
}

/// ASCII upper-casing of a character sequence.
pub open spec fn upper_chars(s: Seq<char>) -> Seq<char> {
    s.map_values(|c: char| upper_char(c))
}

/// Upper-cases one character, ASCII-only.
pub fn to_upper_char(c: char) -> (r: char)
    ensures
        r == upper_char(c),
{
    let u: u32 = c as u32;
    if 97 <= u && u <= 122 {
        ((u - 32) as u8) as char
    } else {
        c
    }
}

/// ASCII upper-casing of a whole string, as a character vector.
pub fn to_upper_chars(s: &str) -> (r: Vec<char>)
    ensures
        r@ == upper_chars(s@),
{
    let cs = chars_of(s);
    let mut out: Vec<char> = Vec::new();
    let mut i: usize = 0;
    while i < cs.len()
        invariant
            i <= cs.len(),
            cs@ == s@,
            out@ == upper_chars(s@.take(i as int)),
        decreases cs.len() - i,
    {
        out.push(to_upper_char(cs[i]));
        i = i + 1;
        proof {
            assert(upper_chars(s@.take(i as int)) =~= upper_chars(
                s@.take(i - 1 as int),
            ).push(upper_char(s@[i - 1])));
        }
    }
    proof {
        assert(s@.take(cs.len() as int) =~= s@);
    }
    out
}

/// Appends one character vector to another.
pub fn append_chars(out: &mut Vec<char>, v: &Vec<char>)
    ensures
        final(out)@ == old(out)@ + v@,
{
    let ghost start = out@;
    let mut i: usize = 0;
    while i < v.len()
        invariant
            i <= v.len(),
            out@ == start + v@.take(i as int),
        decreases v.len() - i,
    {
        out.push(v[i]);
        i = i + 1;
        proof {
            assert(start + v@.take(i as int) =~= (start + v@.take(i - 1 as int)).push(v@[i - 1]));
        }
    }
    proof {
        assert(start + v@.take(v.len() as int) =~= start + v@);
    }
}

/// Equality of two character vectors, decided element by element.
pub fn eq_chars(a: &Vec<char>, b: &Vec<char>) -> (r: bool)
    ensures
        r == (a@ == b@),
{
    if a.len() != b.len() {
        proof {
            assert(a@ != b@);
        }
        return false;
    }
    let mut i: usize = 0;
    while i < a.len()
        invariant
            i <= a.len(),
            a.len() == b.len(),
            forall|j: int| 0 <= j < i ==> a@[j] == b@[j],
        decreases a.len() - i,
    {
        if a[i] != b[i] {
            proof {
                assert(a@ != b@);
            }
            return false;
        }
        i = i + 1;
    }
    proof {
        assert(a@ =~= b@);
    }
    true
}

/// True when the string, upper-cased ASCII-wise, equals the keyword.
pub fn upper_matches(upper: &Vec<char>, keyword: &str) -> (r: bool)
    ensures
        r == (upper@ == keyword@),
{
    let kw = chars_of(keyword);
    eq_chars(upper, &kw)
}

} // verus!
