//! Decimal formatting of integers, for numeric query parameters.

use vstd::prelude::*;

verus! {

/// The decimal digit character for a value below ten.
pub open spec fn digit_char(n: int) -> char {
    if n == 0 { '0' } else if n == 1 { '1' } else if n == 2 { '2' } else if n == 3 { '3' }
    else if n == 4 { '4' } else if n == 5 { '5' } else if n == 6 { '6' } else if n == 7 { '7' }
    else if n == 8 { '8' } else { '9' }
}

/// The decimal digits of a non-negative number, most significant first,
/// without leading zeros (a single `0` for zero).
pub open spec fn dec_nat(n: nat) -> Seq<char>
    decreases n,
{
    if n < 10 {
        seq![digit_char(n as int)]
    } else {
        dec_nat(n / 10) + seq![digit_char((n % 10) as int)]
    }
}

/// The decimal form of a signed number: a `-` sign for negatives, then the
/// digits of the magnitude.
pub open spec fn dec_int(n: int) -> Seq<char> {
    if n < 0 {
        seq!['-'] + dec_nat((-n) as nat)
    } else {
        dec_nat(n as nat)
    }
}

/// The decimal digit character for a value below ten.
pub fn to_digit_char(n: u64) -> (r: char)
    requires
        n < 10,
    ensures
        r == digit_char(n as int),
{
    if n == 0 { '0' } else if n == 1 { '1' } else if n == 2 { '2' } else if n == 3 { '3' }
    else if n == 4 { '4' } else if n == 5 { '5' } else if n == 6 { '6' } else if n == 7 { '7' }
    else if n == 8 { '8' } else { '9' }
}

/// The decimal digits of a non-negative number, as characters.
pub fn fmt_u64(n: u64) -> (r: Vec<char>)
    ensures
        r@ == dec_nat(n as nat),
    decreases n,
{
    if n < 10 {
        let mut out: Vec<char> = Vec::new();
        out.push(to_digit_char(n));
        proof {
            assert(out@ =~= dec_nat(n as nat));
        }
        out
    } else {
        let mut out = fmt_u64(n / 10);
        out.push(to_digit_char(n % 10));
        proof {
            assert(out@ =~= dec_nat(n as nat));
        }
        out
    }
}

/// The decimal form of a signed number, as characters.
pub fn fmt_i32(n: i32) -> (r: Vec<char>)
    ensures
        r@ == dec_int(n as int),
{
    if n < 0 {
        let wide: i64 = n as i64;
        let mag: u64 = (-wide) as u64;
        let mut out: Vec<char> = Vec::new();
        out.push('-');
        let digits = fmt_u64(mag);
        let mut i: usize = 0;
        while i < digits.len()
            invariant
                i <= digits.len(),
                digits@ == dec_nat(mag as nat),
                out@ == seq!['-'] + digits@.take(i as int),
            decreases digits.len() - i,
        {
            out.push(digits[i]);
            i = i + 1;
            proof {
                assert(seq!['-'] + digits@.take(i as int) =~= (seq!['-'] + digits@.take(
                    i - 1 as int,
                )).push(digits@[i - 1]));
            }
        }
        proof {
            assert(digits@.take(digits.len() as int) =~= digits@);
            assert(out@ =~= dec_int(n as int));
        }
        out
    } else {
        let r = fmt_u64(n as u64);
        r
    }
}

} // verus!
