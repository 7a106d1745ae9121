//! Percent-encoding of query values.
//!
//! A value is encoded byte-wise over its UTF-8 encoding: unreserved bytes
//! (ASCII letters, digits, `-`, `.`, `_`, `~`) stand for themselves, every
//! other byte becomes `%XY` with uppercase hexadecimal digits. Decoding the
//! encoding returns the original bytes, and the encoded text never contains
//! a query delimiter, so values embedded in a query string round-trip.

use vstd::prelude::*;
use vstd::arithmetic::div_mod::lemma_fundamental_div_mod;
use vstd::string::StringSliceAdditionalSpecFns;

verus! {

/// Bytes that stand for themselves in a percent-encoded value.
pub open spec fn is_unreserved(b: u8) -> bool {
    (65 <= b && b <= 90)  // A..Z
    || (97 <= b && b <= 122)  // a..z
    || (48 <= b && b <= 57)  // 0..9
    || b == 45  // -
    || b == 46  // .
    || b == 95  // _
    || b == 126  // ~
}

/// The uppercase hexadecimal digit for a value below sixteen.
pub open spec fn hex_digit(n: u8) -> char {
    if n == 0 { '0' } else if n == 1 { '1' } else if n == 2 { '2' } else if n == 3 { '3' }
    else if n == 4 { '4' } else if n == 5 { '5' } else if n == 6 { '6' } else if n == 7 { '7' }
    else if n == 8 { '8' } else if n == 9 { '9' } else if n == 10 { 'A' } else if n == 11 { 'B' }
    else if n == 12 { 'C' } else if n == 13 { 'D' } else if n == 14 { 'E' } else { 'F' }
}

/// The numeric value of an uppercase hexadecimal digit.
pub open spec fn hex_val(c: char) -> u8 {
    if c == '0' { 0 } else if c == '1' { 1 } else if c == '2' { 2 } else if c == '3' { 3 }
    else if c == '4' { 4 } else if c == '5' { 5 } else if c == '6' { 6 } else if c == '7' { 7 }
    else if c == '8' { 8 } else if c == '9' { 9 } else if c == 'A' { 10 } else if c == 'B' { 11 }
    else if c == 'C' { 12 } else if c == 'D' { 13 } else if c == 'E' { 14 } else { 15 }
}

/// The percent-encoding of a single byte.
pub open spec fn pct_byte(b: u8) -> Seq<char> {
    if is_unreserved(b) {
        seq![b as char]
    } else {
        seq!['%', hex_digit(b / 16), hex_digit(b % 16)]
    }
}

/// The percent-encoding of a byte sequence.
pub open spec fn pct_bytes(bs: Seq<u8>) -> Seq<char>
    decreases bs.len(),
{
    if bs.len() == 0 {
        Seq::empty()
    } else {
        pct_byte(bs[0]) + pct_bytes(bs.drop_first())
    }
}

/// The percent-encoding of a character sequence: its UTF-8 bytes, encoded.
pub open spec fn pct_chars(s: Seq<char>) -> Seq<char> {
    pct_bytes(vstd::utf8::encode_utf8(s))
}

/// The bytes a percent-encoded text decodes to: `%XY` gives one byte from
/// the two hexadecimal digits, any other character gives its code point.
pub open spec fn pct_decode(s: Seq<char>) -> Seq<u8>
    decreases s.len(),
{
    if s.len() == 0 {
        Seq::empty()
    } else if s[0] == '%' && s.len() >= 3 {
        seq![(16 * hex_val(s[1]) + hex_val(s[2])) as u8] + pct_decode(s.skip(3))
    } else {
        seq![(s[0] as u32) as u8] + pct_decode(s.skip(1))
    }
}

/// Encoding a sequence extended by one byte appends that byte's encoding.
pub proof fn lemma_pct_bytes_snoc(bs: Seq<u8>, b: u8)
    ensures
        pct_bytes(bs.push(b)) == pct_bytes(bs) + pct_byte(b),
    decreases bs.len(),
{
    if bs.len() == 0 {
        let s = bs.push(b);
        assert(s.len() == 1 && s[0] == b);
        assert(s.drop_first() =~= Seq::<u8>::empty());
        assert(s.drop_first().len() == 0);
        assert(pct_bytes(s.drop_first()) =~= Seq::<char>::empty());
        assert(pct_bytes(s) =~= pct_byte(b) + pct_bytes(s.drop_first()));
        assert(pct_bytes(bs) =~= Seq::<char>::empty());
        assert(pct_bytes(bs.push(b)) =~= pct_bytes(bs) + pct_byte(b));
    } else {
        assert(bs.push(b).drop_first() =~= bs.drop_first().push(b));
        lemma_pct_bytes_snoc(bs.drop_first(), b);
        assert(pct_bytes(bs.push(b)) =~= pct_bytes(bs) + pct_byte(b));
    }
}

/// Decoding undoes encoding: the encoded form of any byte sequence decodes
/// back to exactly that sequence.
pub proof fn lemma_pct_round_trip(bs: Seq<u8>)
    ensures
        pct_decode(pct_bytes(bs)) == bs,
    decreases bs.len(),
{
    if bs.len() == 0 {
        assert(pct_decode(pct_bytes(bs)) =~= bs);
    } else {
        let b: u8 = bs[0];
        let rest = bs.drop_first();
        lemma_pct_round_trip(rest);
        let e = pct_bytes(bs);
        assert(e =~= pct_byte(b) + pct_bytes(rest));
        if is_unreserved(b) {
            assert(e[0] == b as char);
            assert(b as char != '%');
            assert(((b as char) as u32) as u8 == b);
            assert(e.skip(1) =~= pct_bytes(rest));
            assert(pct_decode(e) =~= seq![b] + pct_decode(pct_bytes(rest)));
            assert(seq![b] + rest =~= bs);
        } else {
            assert(e[0] == '%' && e.len() >= 3);
            assert(e[1] == hex_digit(b / 16) && e[2] == hex_digit(b % 16));
            assert(hex_val(hex_digit(b / 16)) == b / 16);
            assert(hex_val(hex_digit(b % 16)) == b % 16);
            lemma_fundamental_div_mod(b as int, 16);
            assert(16 * hex_val(e[1]) + hex_val(e[2]) == b);
            assert(e.skip(3) =~= pct_bytes(rest));
            assert(pct_decode(e) =~= seq![b] + pct_decode(pct_bytes(rest)));
            assert(seq![b] + rest =~= bs);
        }
    }
}

/// The escaping round-trip law for whole texts: percent-decoding the
/// encoding of any text gives exactly its UTF-8 bytes, and decoding those
/// bytes gives the text back — no character, reserved or not, is lost or
/// altered by being carried in a query value.
pub proof fn lemma_pct_chars_round_trip(s: Seq<char>)
    ensures
        pct_decode(pct_chars(s)) == vstd::utf8::encode_utf8(s),
        vstd::utf8::decode_utf8(pct_decode(pct_chars(s))) == s,
{
    lemma_pct_round_trip(vstd::utf8::encode_utf8(s));
    vstd::utf8::encode_utf8_decode_utf8(s);
}

/// Query delimiters never occur in an encoded value: no `?`, `&` or `=`,
/// and `%` only as the start of an escape.
pub proof fn lemma_pct_no_delimiters(bs: Seq<u8>)
    ensures
        forall|i: int|
            0 <= i < pct_bytes(bs).len() ==> pct_bytes(bs)[i] != '?' && pct_bytes(bs)[i] != '&'
                && pct_bytes(bs)[i] != '=',
    decreases bs.len(),
{
    if bs.len() > 0 {
        let b: u8 = bs[0];
        lemma_pct_no_delimiters(bs.drop_first());
        assert(pct_bytes(bs) =~= pct_byte(b) + pct_bytes(bs.drop_first()));
        if is_unreserved(b) {
            assert(b as char != '?' && b as char != '&' && b as char != '=');
        }
        assert forall|i: int| 0 <= i < pct_bytes(bs).len() implies pct_bytes(bs)[i] != '?'
            && pct_bytes(bs)[i] != '&' && pct_bytes(bs)[i] != '=' by {
            if i < pct_byte(b).len() {
                assert(pct_bytes(bs)[i] == pct_byte(b)[i]);
            } else {
                assert(pct_bytes(bs)[i] == pct_bytes(bs.drop_first())[i - pct_byte(b).len()]);
            }
        }
    }
}

/// The uppercase hexadecimal digit for a value below sixteen.
pub fn hex_char(n: u8) -> (r: char)
    requires
        n < 16,
    ensures
        r == hex_digit(n),
{
    if n == 0 { '0' } else if n == 1 { '1' } else if n == 2 { '2' } else if n == 3 { '3' }
    else if n == 4 { '4' } else if n == 5 { '5' } else if n == 6 { '6' } else if n == 7 { '7' }
    else if n == 8 { '8' } else if n == 9 { '9' } else if n == 10 { 'A' } else if n == 11 { 'B' }
    else if n == 12 { 'C' } else if n == 13 { 'D' } else if n == 14 { 'E' } else { 'F' }
}

/// Appends the percent-encoding of the value to the output.
pub fn pct_encode_into(out: &mut Vec<char>, value: &str)
    ensures
        final(out)@ == old(out)@ + pct_chars(value@),
{
    let bs = value.as_bytes();
    let ghost start = out@;
    let mut i: usize = 0;
    while i < bs.len()
        invariant
            i <= bs.len(),
            bs@ == value.spec_bytes(),
            out@ == start + pct_bytes(bs@.take(i as int)),
        decreases bs.len() - i,
    {
        let b: u8 = bs[i];
        if (65 <= b && b <= 90) || (97 <= b && b <= 122) || (48 <= b && b <= 57) || b == 45
            || b == 46 || b == 95 || b == 126 {
            out.push(b as char);
        } else {
            out.push('%');
            out.push(hex_char(b / 16));
            out.push(hex_char(b % 16));
        }
        i = i + 1;
        proof {
            lemma_pct_bytes_snoc(bs@.take(i - 1 as int), bs@[i - 1]);
            assert(bs@.take(i as int) =~= bs@.take(i - 1 as int).push(bs@[i - 1]));
            assert(out@ =~= start + pct_bytes(bs@.take(i as int)));
        }
    }
    proof {
        assert(bs@.take(bs@.len() as int) =~= value.spec_bytes());
    }
}

} // verus!
