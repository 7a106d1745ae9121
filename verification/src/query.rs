//! Query-string construction.
//!
//! A query is built from an ordered list of `(key, value)` pairs: empty for
//! no pairs, otherwise `?k1=v1&k2=v2&...` with every value percent-encoded
//! and keys written as given (keys are canonical ASCII names from the
//! endpoint catalog).

use vstd::prelude::*;
use crate::encode::{pct_bytes, pct_chars, pct_decode, pct_encode_into};
use crate::encode::{lemma_pct_no_delimiters, lemma_pct_round_trip};
use crate::text::chars_of;

verus! {

/// One `key=value` pair, the value already encoded.
pub open spec fn pair_chars(k: Seq<char>, v: Seq<char>) -> Seq<char> {
    k + seq!['='] + v
}

/// The pairs after the first, each preceded by `&`.
pub open spec fn query_rest(pairs: Seq<(Seq<char>, Seq<char>)>) -> Seq<char>
    decreases pairs.len(),
{
    if pairs.len() == 0 {
        Seq::empty()
    } else {
        seq!['&'] + pair_chars(pairs[0].0, pairs[0].1) + query_rest(pairs.drop_first())
    }
}

/// The query string of an ordered pair list: empty when there are no pairs,
/// else `?` and the pairs joined by `&`, in order.
pub open spec fn query_of(pairs: Seq<(Seq<char>, Seq<char>)>) -> Seq<char> {
    if pairs.len() == 0 {
        Seq::empty()
    } else {
        seq!['?'] + pair_chars(pairs[0].0, pairs[0].1) + query_rest(pairs.drop_first())
    }
}

/// The view of an executable pair list: keys as given, values encoded.
pub open spec fn pairs_view(ps: Seq<(&str, &str)>) -> Seq<(Seq<char>, Seq<char>)> {
    ps.map_values(|p: (&str, &str)| (p.0@, pct_chars(p.1@)))
}

/// Extending the pair list appends one separator and one pair to the query.
pub proof fn lemma_query_push(pairs: Seq<(Seq<char>, Seq<char>)>, k: Seq<char>, v: Seq<char>)
    ensures
        query_of(pairs.push((k, v))) == query_of(pairs) + seq![
            if pairs.len() == 0 {
                '?'
            } else {
                '&'
            },
        ] + pair_chars(k, v),
    decreases pairs.len(),
{
    if pairs.len() == 0 {
        let s = pairs.push((k, v));
        assert(s.drop_first() =~= Seq::<(Seq<char>, Seq<char>)>::empty());
        assert(s.drop_first().len() == 0);
        assert(query_rest(s.drop_first()) =~= Seq::<char>::empty());
        assert(query_of(s) =~= seq!['?'] + pair_chars(k, v));
        assert(query_of(pairs) =~= Seq::<char>::empty());
        assert(query_of(pairs.push((k, v))) =~= query_of(pairs) + seq!['?'] + pair_chars(k, v));
    } else {
        lemma_rest_push(pairs.drop_first(), k, v);
        assert(pairs.push((k, v)).drop_first() =~= pairs.drop_first().push((k, v)));
        assert(query_of(pairs.push((k, v))) =~= query_of(pairs) + seq!['&'] + pair_chars(k, v));
    }
}

proof fn lemma_rest_push(pairs: Seq<(Seq<char>, Seq<char>)>, k: Seq<char>, v: Seq<char>)
    ensures
        query_rest(pairs.push((k, v))) == query_rest(pairs) + seq!['&'] + pair_chars(k, v),
    decreases pairs.len(),
{
    if pairs.len() == 0 {
        let s = pairs.push((k, v));
        assert(s.drop_first() =~= Seq::<(Seq<char>, Seq<char>)>::empty());
        assert(s.drop_first().len() == 0);
        assert(query_rest(s.drop_first()) =~= Seq::<char>::empty());
        assert(query_rest(s) =~= seq!['&'] + pair_chars(k, v));
        assert(query_rest(pairs) =~= Seq::<char>::empty());
        assert(query_rest(pairs.push((k, v))) =~= query_rest(pairs) + seq!['&'] + pair_chars(k, v));
    } else {
        lemma_rest_push(pairs.drop_first(), k, v);
        assert(pairs.push((k, v)).drop_first() =~= pairs.drop_first().push((k, v)));
        assert(query_rest(pairs.push((k, v))) =~= query_rest(pairs) + seq!['&'] + pair_chars(k, v));
    }
}

/// The position of the first occurrence of a character, or the length when
/// it does not occur.
pub open spec fn find_char(s: Seq<char>, d: char) -> nat
    decreases s.len(),
{
    if s.len() == 0 {
        0
    } else if s[0] == d {
        0
    } else {
        (1 + find_char(s.drop_first(), d)) as nat
    }
}

/// In a text free of the character, nothing is found.
pub proof fn lemma_find_char_free(s: Seq<char>, d: char)
    requires
        forall|i: int| 0 <= i < s.len() ==> s[i] != d,
    ensures
        find_char(s, d) == s.len(),
    decreases s.len(),
{
    if s.len() > 0 {
        assert(s[0] != d);
        assert forall|i: int| 0 <= i < s.drop_first().len() implies s.drop_first()[i] != d by {
            assert(s.drop_first()[i] == s[i + 1]);
        }
        lemma_find_char_free(s.drop_first(), d);
    }
}

/// After a prefix free of the character, the first occurrence is the one
/// standing right after that prefix.
pub proof fn lemma_find_char_concat(a: Seq<char>, b: Seq<char>, d: char)
    requires
        forall|i: int| 0 <= i < a.len() ==> a[i] != d,
    ensures
        find_char(a + seq![d] + b, d) == a.len(),
    decreases a.len(),
{
    let s = a + seq![d] + b;
    if a.len() == 0 {
        assert(s[0] == d);
    } else {
        assert(s[0] == a[0]);
        assert(s[0] != d);
        assert(s.drop_first() =~= a.drop_first() + seq![d] + b);
        assert forall|i: int| 0 <= i < a.drop_first().len() implies a.drop_first()[i] != d by {
            assert(a.drop_first()[i] == a[i + 1]);
        }
        lemma_find_char_concat(a.drop_first(), b, d);
    }
}

/// The pairs read back from a query text without its leading `?`: segments
/// split on `&`, each segment split at its first `=` into the key and the
/// percent-decoded value.
pub open spec fn parse_pairs(s: Seq<char>) -> Seq<(Seq<char>, Seq<u8>)>
    decreases s.len(),
{
    if s.len() == 0 {
        Seq::empty()
    } else {
        let seg_end: int = find_char(s, '&') as int;
        let seg = s.take(seg_end);
        let eq: int = find_char(seg, '=') as int;
        let key = seg.take(eq);
        let value = if eq < seg.len() {
            pct_decode(seg.skip(eq + 1))
        } else {
            Seq::empty()
        };
        if seg_end < s.len() {
            seq![(key, value)] + parse_pairs(s.skip(seg_end + 1))
        } else {
            seq![(key, value)]
        }
    }
}

/// The pairs read back from a whole query string: none from the empty
/// string, else what follows the leading `?`.
pub open spec fn parse_query(s: Seq<char>) -> Seq<(Seq<char>, Seq<u8>)> {
    if s.len() == 0 {
        Seq::empty()
    } else {
        parse_pairs(s.skip(1))
    }
}

/// A key that can ride in a query string as it is: free of the `&` and `=`
/// delimiters. Every key in the endpoint catalog is.
pub open spec fn wf_key(k: Seq<char>) -> bool {
    forall|i: int| 0 <= i < k.len() ==> k[i] != '&' && k[i] != '='
}

/// Pairs of keys and raw byte values, as the builder encodes them.
pub open spec fn encoded_pairs(ps: Seq<(Seq<char>, Seq<u8>)>) -> Seq<(Seq<char>, Seq<char>)> {
    ps.map_values(|p: (Seq<char>, Seq<u8>)| (p.0, pct_bytes(p.1)))
}

proof fn lemma_parse_blob(ps: Seq<(Seq<char>, Seq<u8>)>)
    requires
        ps.len() > 0,
        forall|j: int| 0 <= j < ps.len() ==> #[trigger] wf_key(ps[j].0),
    ensures
        parse_pairs(
            pair_chars(ps[0].0, pct_bytes(ps[0].1)) + query_rest(encoded_pairs(ps).drop_first()),
        ) == ps,
    decreases ps.len(),
{
    let e = encoded_pairs(ps);
    let k0 = ps[0].0;
    let v0 = ps[0].1;
    let enc0 = pct_bytes(v0);
    let a = k0 + seq!['='] + enc0;
    assert(pair_chars(k0, enc0) =~= a);
    lemma_pct_no_delimiters(v0);
    lemma_pct_round_trip(v0);
    assert(wf_key(ps[0].0));
    assert forall|i: int| 0 <= i < a.len() implies a[i] != '&' by {
        if i < k0.len() {
            assert(a[i] == k0[i]);
        } else if i == k0.len() {
            assert(a[i] == '=');
        } else {
            assert(a[i] == enc0[i - k0.len() - 1]);
        }
    }
    lemma_find_char_concat(k0, enc0, '=');
    assert(a.take(k0.len() as int) =~= k0);
    assert(a.skip(k0.len() as int + 1) =~= enc0);
    if ps.len() == 1 {
        let s = a + query_rest(e.drop_first());
        assert(e.drop_first().len() == 0);
        assert(query_rest(e.drop_first()) =~= Seq::<char>::empty());
        assert(s =~= a);
        lemma_find_char_free(s, '&');
        assert(s.take(s.len() as int) =~= s);
        assert(find_char(s, '=') == k0.len());
        assert(k0.len() < s.len());
        assert(parse_pairs(s) =~= seq![(k0, v0)]);
        assert(seq![(k0, v0)] =~= ps);
    } else {
        let rest = ps.drop_first();
        let erest = e.drop_first();
        assert(encoded_pairs(rest) =~= erest);
        assert(erest[0].0 == rest[0].0 && erest[0].1 == pct_bytes(rest[0].1));
        let tail_blob = pair_chars(rest[0].0, pct_bytes(rest[0].1)) + query_rest(
            erest.drop_first(),
        );
        assert(query_rest(erest) =~= seq!['&'] + pair_chars(erest[0].0, erest[0].1) + query_rest(
            erest.drop_first(),
        ));
        let s = a + query_rest(erest);
        assert(s =~= a + seq!['&'] + tail_blob);
        lemma_find_char_concat(a, tail_blob, '&');
        assert(find_char(s, '&') == a.len());
        assert(s.take(a.len() as int) =~= a);
        assert(a.len() < s.len());
        assert(s.skip(a.len() as int + 1) =~= tail_blob);
        assert forall|j: int| 0 <= j < rest.len() implies #[trigger] wf_key(rest[j].0) by {
            assert(rest[j] == ps[j + 1]);
            assert(wf_key(ps[j + 1].0));
        }
        lemma_parse_blob(rest);
        assert(encoded_pairs(rest).drop_first() =~= erest.drop_first());
        assert(parse_pairs(tail_blob) == rest);
        assert(parse_pairs(s) =~= seq![(k0, v0)] + rest);
        assert(seq![(k0, v0)] + rest =~= ps);
    }
}

/// The query round-trip law: parse back the query string built from any
/// list of keys and raw byte values — the keys merely delimiter-free, the
/// values arbitrary — and exactly those pairs come out: same keys, same
/// bytes, in declared order, through the percent-escaping.
pub proof fn lemma_query_round_trip(ps: Seq<(Seq<char>, Seq<u8>)>)
    requires
        forall|j: int| 0 <= j < ps.len() ==> #[trigger] wf_key(ps[j].0),
    ensures
        parse_query(query_of(encoded_pairs(ps))) == ps,
{
    let e = encoded_pairs(ps);
    if ps.len() == 0 {
        assert(e.len() == 0);
        assert(query_of(e) =~= Seq::<char>::empty());
        assert(parse_query(query_of(e)) =~= ps);
    } else {
        assert(e[0].0 == ps[0].0 && e[0].1 == pct_bytes(ps[0].1));
        let blob = pair_chars(ps[0].0, pct_bytes(ps[0].1)) + query_rest(e.drop_first());
        assert(query_of(e) =~= seq!['?'] + pair_chars(e[0].0, e[0].1) + query_rest(
            e.drop_first(),
        ));
        assert(query_of(e).len() > 0);
        assert(query_of(e).skip(1) =~= blob);
        lemma_parse_blob(ps);
    }
}

/// The round-trip law at an endpoint with only required parameters, as the
/// catalog builds them: the query of a two-parameter request parses back to
/// exactly those two parameters, in declared order, each value's bytes
/// intact through the escaping. One-parameter requests are the same with
/// the second pair dropped.
pub proof fn lemma_required_params_round_trip(
    k1: Seq<char>,
    v1: Seq<char>,
    k2: Seq<char>,
    v2: Seq<char>,
)
    requires
        wf_key(k1),
        wf_key(k2),
    ensures
        parse_query(query_of(seq![(k1, pct_chars(v1)), (k2, pct_chars(v2))])) == seq![
            (k1, vstd::utf8::encode_utf8(v1)),
            (k2, vstd::utf8::encode_utf8(v2)),
        ],
{
    let ps = seq![(k1, vstd::utf8::encode_utf8(v1)), (k2, vstd::utf8::encode_utf8(v2))];
    assert(encoded_pairs(ps) =~= seq![(k1, pct_chars(v1)), (k2, pct_chars(v2))]);
    assert forall|j: int| 0 <= j < ps.len() implies #[trigger] wf_key(ps[j].0) by {
        if j == 0 {
            assert(ps[j].0 == k1);
        } else {
            assert(ps[j].0 == k2);
        }
    }
    lemma_query_round_trip(ps);
}

/// Appends the characters of a string slice to the output.
pub fn append_str(out: &mut Vec<char>, s: &str)
    ensures
        final(out)@ == old(out)@ + s@,
{
    let cs = chars_of(s);
    let ghost start = out@;
    let mut i: usize = 0;
    while i < cs.len()
        invariant
            i <= cs.len(),
            cs@ == s@,
            out@ == start + s@.take(i as int),
        decreases cs.len() - i,
    {
        out.push(cs[i]);
        i = i + 1;
        proof {
            assert(start + s@.take(i as int) =~= (start + s@.take(i - 1 as int)).push(s@[i - 1]));
        }
    }
    proof {
        assert(start + s@.take(cs.len() as int) =~= start + s@);
    }
}

/// Appends `?`/`&`, the key, `=`, and the encoded value to the output.
pub fn push_param(out: &mut Vec<char>, key: &str, value: &str, first: bool)
    ensures
        final(out)@ == old(out)@ + seq![
            if first {
                '?'
            } else {
                '&'
            },
        ] + pair_chars(key@, pct_chars(value@)),
{
    if first {
        out.push('?');
    } else {
        out.push('&');
    }
    append_str(out, key);
    out.push('=');
    pct_encode_into(out, value);
    proof {
        assert(out@ =~= old(out)@ + seq![
            if first {
                '?'
            } else {
                '&'
            },
        ] + pair_chars(key@, pct_chars(value@)));
    }
}

/// Builds the whole query string of an ordered pair list.
pub fn build_query(pairs: &Vec<(&str, &str)>) -> (r: Vec<char>)
    ensures
        r@ == query_of(pairs_view(pairs@)),
{
    let mut out: Vec<char> = Vec::new();
    let mut i: usize = 0;
    while i < pairs.len()
        invariant
            i <= pairs.len(),
            out@ == query_of(pairs_view(pairs@.take(i as int))),
        decreases pairs.len() - i,
    {
        let (k, v) = pairs[i];
        push_param(&mut out, k, v, i == 0);
        i = i + 1;
        proof {
            let prev = pairs_view(pairs@.take(i - 1 as int));
            assert(prev.len() == i - 1);
            lemma_query_push(prev, k@, pct_chars(v@));
            assert(pairs_view(pairs@.take(i as int)) =~= prev.push((k@, pct_chars(v@))));
            assert(out@ =~= query_of(pairs_view(pairs@.take(i as int))));
        }
    }
    proof {
        assert(pairs@.take(pairs.len() as int) =~= pairs@);
    }
    out
}

} // verus!
