//! Decimal notation for the numeric fields of a session descriptor.
//!
//! The session file and the supervisor's handshake both carry ports and the
//! session token in plain decimal.  This module defines what a decimal
//! rendering is, renders `u64` and `i32` values, and parses bounded decimal
//! values back, each direction with an exact contract.

use vstd::arithmetic::div_mod::lemma_fundamental_div_mod;
use vstd::prelude::*;

verus! {

/// A decimal digit byte, `'0'` through `'9'`.
pub open spec fn is_digit(b: u8) -> bool {
    48 <= b <= 57
}

pub open spec fn digit_val(b: u8) -> nat {
    (b - 48) as nat
}

pub open spec fn all_digits(s: Seq<u8>) -> bool {
    forall|i: int| 0 <= i < s.len() ==> is_digit(s[i])
}

/// The canonical decimal rendering of a natural number, most significant
/// digit first, with no leading zeros (`0` renders as `"0"`).
pub open spec fn dec_digits(n: nat) -> Seq<u8>
    decreases n,
{
    if n < 10 {
        seq![(48 + n) as u8]
    } else {
        dec_digits(n / 10).push((48 + n % 10) as u8)
    }
}

/// The value denoted by a digit string (leading zeros allowed).
pub open spec fn dec_value(s: Seq<u8>) -> nat
    decreases s.len(),
{
    if s.len() == 0 {
        0
    } else {
        dec_value(s.drop_last()) * 10 + digit_val(s.last())
    }
}

pub proof fn lemma_dec_digits_wf(n: nat)
    ensures
        dec_digits(n).len() >= 1,
        all_digits(dec_digits(n)),
    decreases n,
{
    if n >= 10 {
        lemma_dec_digits_wf(n / 10);
        assert forall|i: int| 0 <= i < dec_digits(n).len() implies is_digit(dec_digits(n)[i]) by {
            if i < dec_digits(n / 10).len() {
                assert(dec_digits(n)[i] == dec_digits(n / 10)[i]);
            }
        }
    }
}

/// Parsing a canonical rendering gives the number back.
pub proof fn lemma_dec_value_of_digits(n: nat)
    ensures
        dec_value(dec_digits(n)) == n,
    decreases n,
{
    if n < 10 {
        let s = dec_digits(n);
        assert(s.drop_last() =~= Seq::<u8>::empty());
        assert(dec_value(Seq::<u8>::empty()) == 0);
        assert(s.last() == (48 + n) as u8);
        assert(digit_val((48 + n) as u8) == n);
        assert(dec_value(s) == dec_value(s.drop_last()) * 10 + digit_val(s.last()));
    } else {
        lemma_dec_value_of_digits(n / 10);
        let s = dec_digits(n);
        assert(s.drop_last() =~= dec_digits(n / 10));
        assert(s.last() == (48 + n % 10) as u8);
        assert(digit_val((48 + n % 10) as u8) == n % 10);
        assert(dec_value(s) == dec_value(dec_digits(n / 10)) * 10 + n % 10);
        lemma_fundamental_div_mod(n as int, 10);
    }
}

/// A digit string is worth at least any of its prefixes.
pub proof fn lemma_dec_value_prefix(s: Seq<u8>, i: int)
    requires
        0 <= i <= s.len(),
    ensures
        dec_value(s.take(i)) <= dec_value(s),
    decreases s.len(),
{
    if i == s.len() {
        assert(s.take(i) =~= s);
    } else {
        assert(s.drop_last().take(i) =~= s.take(i));
        lemma_dec_value_prefix(s.drop_last(), i);
    }
}

/// Parse the digits of `s` from position `from` to the end as a decimal
/// number, refusing an empty range, a non-digit byte, or a value above
/// `max`.  The contract is an exact description: `Some` exactly on a
/// non-empty all-digit range whose value is within the bound.
pub fn parse_dec_capped(s: &Vec<u8>, from: usize, max: u64) -> (r: Option<u64>)
    requires
        from <= s@.len(),
        max <= 4294967295,
    ensures
        match r {
            Some(v) => {
                let digits = s@.skip(from as int);
                &&& digits.len() > 0
                &&& all_digits(digits)
                &&& dec_value(digits) <= max
                &&& v == dec_value(digits)
            },
            None => {
                let digits = s@.skip(from as int);
                digits.len() == 0 || !all_digits(digits) || dec_value(digits) > max
            },
        },
{
    let ghost digits = s@.skip(from as int);
    if from == s.len() {
        return None;
    }
    let mut acc: u64 = 0;
    let mut i: usize = from;
    while i < s.len()
        invariant
            from <= i <= s@.len(),
            from < s@.len(),
            max <= 4294967295,
            digits == s@.skip(from as int),
            all_digits(s@.subrange(from as int, i as int)),
            acc == dec_value(s@.subrange(from as int, i as int)),
            acc <= max,
        decreases s@.len() - i,
    {
        let b: u8 = s[i];
        if b < 48 || b > 57 {
            assert(digits[i - from] == s@[i as int]);
            assert(!all_digits(digits));
            return None;
        }
        let d: u64 = (b - 48) as u64;
        let ghost pre = s@.subrange(from as int, i as int);
        let ghost pre1 = s@.subrange(from as int, i + 1);
        proof {
            assert(pre1.drop_last() =~= pre);
            assert(pre1.last() == s@[i as int]);
        }
        let next: u64 = acc * 10 + d;
        if next > max {
            proof {
                assert(dec_value(pre1) > max);
                assert(pre1 =~= digits.take(i + 1 - from));
                if all_digits(digits) {
                    lemma_dec_value_prefix(digits, i + 1 - from);
                }
            }
            return None;
        }
        acc = next;
        i = i + 1;
    }
    proof {
        assert(s@.subrange(from as int, i as int) =~= digits);
    }
    Some(acc)
}

/// The canonical rendering of a signed value: a `'-'` byte before the
/// magnitude for negative values.
pub open spec fn i32_dec_repr(t: int) -> Seq<u8> {
    if t < 0 {
        seq![45u8] + dec_digits((-t) as nat)
    } else {
        dec_digits(t as nat)
    }
}

/// The decimal reading of a possibly-signed token, bounded to the `i32`
/// range, `None` on anything else.
pub open spec fn parse_i32_spec(s: Seq<u8>) -> Option<int> {
    if s.len() >= 1 && s[0] == 45u8 {
        let mag = s.skip(1);
        if mag.len() > 0 && all_digits(mag) && dec_value(mag) <= 2147483648 {
            Some(-(dec_value(mag) as int))
        } else {
            None
        }
    } else {
        if s.len() > 0 && all_digits(s) && dec_value(s) <= 2147483647 {
            Some(dec_value(s) as int)
        } else {
            None
        }
    }
}

/// The decimal reading of an unsigned port number, bounded to the `u16`
/// range, `None` on anything else.
pub open spec fn parse_u16_spec(s: Seq<u8>) -> Option<int> {
    if s.len() > 0 && all_digits(s) && dec_value(s) <= 65535 {
        Some(dec_value(s) as int)
    } else {
        None
    }
}

pub fn parse_i32_bytes(s: &Vec<u8>) -> (r: Option<i32>)
    ensures
        match r {
            Some(v) => parse_i32_spec(s@) == Some(v as int),
            None => parse_i32_spec(s@) is None,
        },
{
    if s.len() >= 1 && s[0] == 45 {
        match parse_dec_capped(s, 1, 2147483648) {
            Some(v) => Some((-(v as i64)) as i32),
            None => None,
        }
    } else {
        match parse_dec_capped(s, 0, 2147483647) {
            Some(v) => {
                proof {
                    assert(s@.skip(0) =~= s@);
                }
                Some(v as i32)
            },
            None => {
                proof {
                    assert(s@.skip(0) =~= s@);
                }
                None
            },
        }
    }
}

pub fn parse_u16_bytes(s: &Vec<u8>) -> (r: Option<u16>)
    ensures
        match r {
            Some(v) => parse_u16_spec(s@) == Some(v as int),
            None => parse_u16_spec(s@) is None,
        },
{
    proof {
        assert(s@.skip(0) =~= s@);
    }
    match parse_dec_capped(s, 0, 65535) {
        Some(v) => Some(v as u16),
        None => None,
    }
}

/// Render `n` in canonical decimal.
pub fn u64_to_dec(n: u64) -> (r: Vec<u8>)
    ensures
        r@ == dec_digits(n as nat),
    decreases n,
{
    if n < 10 {
        let mut v: Vec<u8> = Vec::new();
        v.push(48 + n as u8);
        proof {
            assert(v@ =~= dec_digits(n as nat));
        }
        v
    } else {
        let mut v = u64_to_dec(n / 10);
        v.push(48 + (n % 10) as u8);
        v
    }
}

/// Render a signed token in canonical decimal.
pub fn i32_to_dec(t: i32) -> (r: Vec<u8>)
    ensures
        r@ == i32_dec_repr(t as int),
{
    if t >= 0 {
        u64_to_dec(t as u64)
    } else {
        let m: u64 = (-(t as i64)) as u64;
        let mut v: Vec<u8> = Vec::new();
        v.push(45);
        let mut d = u64_to_dec(m);
        v.append(&mut d);
        proof {
            assert(v@ =~= i32_dec_repr(t as int));
        }
        v
    }
}

/// Round trip for unsigned ports: parsing the canonical rendering of any
/// value in the `u16` range yields that value.
pub proof fn lemma_u16_round_trip(n: nat)
    requires
        n <= 65535,
    ensures
        parse_u16_spec(dec_digits(n)) == Some(n as int),
{
    lemma_dec_digits_wf(n);
    lemma_dec_value_of_digits(n);
}

/// Round trip for signed tokens: parsing the canonical rendering of any
/// value in the `i32` range yields that value.
pub proof fn lemma_i32_round_trip(t: int)
    requires
        -2147483648 <= t <= 2147483647,
    ensures
        parse_i32_spec(i32_dec_repr(t)) == Some(t),
{
    if t < 0 {
        let mag = (-t) as nat;
        lemma_dec_digits_wf(mag);
        lemma_dec_value_of_digits(mag);
        let s = i32_dec_repr(t);
        assert(s[0] == 45u8);
        assert(s.skip(1) =~= dec_digits(mag));
    } else {
        lemma_dec_digits_wf(t as nat);
        lemma_dec_value_of_digits(t as nat);
        let s = i32_dec_repr(t);
        assert(is_digit(s[0]));
    }
}

} // verus!
