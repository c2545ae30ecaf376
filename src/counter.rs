use crate::error::TotpError;
use vstd::arithmetic::div_mod::{
    lemma_div_by_self, lemma_div_denominator, lemma_div_is_ordered, lemma_fundamental_div_mod,
    lemma_fundamental_div_mod_converse,
};
use vstd::prelude::*;

verus! {

/// The counter of a time step: whole steps elapsed since the epoch start.
pub open spec fn counter_of(step: u64, t0: u64, unix_time: u64) -> Result<u64, TotpError> {
    if step == 0 || unix_time < t0 {
        Err(TotpError::InvalidTiming)
    } else {
        Ok(((unix_time - t0) / (step as int)) as u64)
    }
}

/// The eight bytes whose big-endian value is `c`.
pub open spec fn be_bytes(c: u64) -> Seq<u8> {
    choose|b: Seq<u8>| b.len() == 8 && be_value(b) == c
}

/// The base-256 digits of `c`, most significant first.
spec fn digits_of(c: int) -> Seq<u8> {
    seq![
        (c / 0x100000000000000) as u8,
        ((c / 0x1000000000000) % 256) as u8,
        ((c / 0x10000000000) % 256) as u8,
        ((c / 0x100000000) % 256) as u8,
        ((c / 0x1000000) % 256) as u8,
        ((c / 0x10000) % 256) as u8,
        ((c / 0x100) % 256) as u8,
        (c % 256) as u8,
    ]
}

/// The value that eight bytes hold, read most significant first.
pub open spec fn be_value(b: Seq<u8>) -> int
    recommends
        b.len() == 8,
{
    b[0] * 0x100000000000000 + b[1] * 0x1000000000000 + b[2] * 0x10000000000 + b[3]
        * 0x100000000 + b[4] * 0x1000000 + b[5] * 0x10000 + b[6] * 0x100 + b[7]
}

/// Counts the steps of `step` seconds from `t0` to `unix_time`.
/// A zero step and a time before `t0` are rejected rather than wrapped.
pub fn time_counter(step: u64, t0: u64, unix_time: u64) -> (r: Result<u64, TotpError>)
    ensures
        r == counter_of(step, t0, unix_time),
{
    if step == 0 || unix_time < t0 {
        Err(TotpError::InvalidTiming)
    } else {
        Ok((unix_time - t0) / step)
    }
}

/// Encodes a counter as eight big-endian bytes.
pub fn counter_bytes(c: u64) -> (r: [u8; 8])
    ensures
        r@.len() == 8,
        be_value(r@) == c,
        r@ == be_bytes(c),
{
    let r: [u8; 8] = [
        (c / 0x100000000000000) as u8,
        ((c / 0x1000000000000) % 256) as u8,
        ((c / 0x10000000000) % 256) as u8,
        ((c / 0x100000000) % 256) as u8,
        ((c / 0x1000000) % 256) as u8,
        ((c / 0x10000) % 256) as u8,
        ((c / 0x100) % 256) as u8,
        (c % 256) as u8,
    ];
    assert(r@ =~= digits_of(c as int));
    proof {
        lemma_be_value_of_bytes(c);
        let b = be_bytes(c);
        lemma_bytes_are_digits(b);
        lemma_bytes_are_digits(r@);
    }
    r
}

/// The base-256 digits of a counter read back to the counter.
proof fn lemma_be_value_of_bytes(c: u64)
    ensures
        be_value(digits_of(c as int)) == c,
{
    let x = c as int;
    let q1 = x / 0x100;
    let q2 = x / 0x10000;
    let q3 = x / 0x1000000;
    let q4 = x / 0x100000000;
    let q5 = x / 0x10000000000;
    let q6 = x / 0x1000000000000;
    let q7 = x / 0x100000000000000;
    lemma_fundamental_div_mod(x, 256);
    lemma_step(x, 0x100, q1);
    lemma_step(x, 0x10000, q2);
    lemma_step(x, 0x1000000, q3);
    lemma_step(x, 0x100000000, q4);
    lemma_step(x, 0x10000000000, q5);
    lemma_step(x, 0x1000000000000, q6);
    lemma_step(x, 0x100000000000000, q7);
    assert(q7 < 256) by {
        lemma_div_is_ordered(x, 0xffffffffffffffff, 0x100000000000000);
        assert(0xffffffffffffffffint / 0x100000000000000int == 255);
    }
}

/// One more step of the base-256 expansion: `x / d` is `256 * (x / (256 * d))`
/// plus its own last digit.
proof fn lemma_step(x: int, d: int, q: int)
    requires
        x >= 0,
        d > 0,
        q == x / d,
    ensures
        q == 256 * (x / (256 * d)) + q % 256,
{
    lemma_div_denominator(x, d, 256);
    lemma_fundamental_div_mod(q, 256);
}

/// Eight bytes are the base-256 digits of their big-endian value, so no two
/// byte strings share a value.
proof fn lemma_bytes_are_digits(b: Seq<u8>)
    requires
        b.len() == 8,
    ensures
        b == digits_of(be_value(b)),
{
    let v = be_value(b);
    let w1 = b[0] * 0x1000000000000 + b[1] * 0x10000000000 + b[2] * 0x100000000 + b[3]
        * 0x1000000 + b[4] * 0x10000 + b[5] * 0x100 + b[6];
    let w2 = b[0] * 0x10000000000 + b[1] * 0x100000000 + b[2] * 0x1000000 + b[3] * 0x10000
        + b[4] * 0x100 + b[5];
    let w3 = b[0] * 0x100000000 + b[1] * 0x1000000 + b[2] * 0x10000 + b[3] * 0x100 + b[4];
    let w4 = b[0] * 0x1000000 + b[1] * 0x10000 + b[2] * 0x100 + b[3];
    let w5 = b[0] * 0x10000 + b[1] * 0x100 + b[2];
    let w6 = b[0] * 0x100 + b[1];
    let w7 = b[0] as int;
    lemma_div_by_self(1);
    assert(v / 1 == v);
    lemma_peel(v, 1, v, w1, b[7] as int);
    lemma_peel(v, 0x100, w1, w2, b[6] as int);
    lemma_peel(v, 0x10000, w2, w3, b[5] as int);
    lemma_peel(v, 0x1000000, w3, w4, b[4] as int);
    lemma_peel(v, 0x100000000, w4, w5, b[3] as int);
    lemma_peel(v, 0x10000000000, w5, w6, b[2] as int);
    lemma_peel(v, 0x1000000000000, w6, w7, b[1] as int);
    assert(b =~= digits_of(v));
}

/// Taking off the last base-256 digit of `v / d`.
proof fn lemma_peel(v: int, d: int, w: int, w_next: int, digit: int)
    requires
        v >= 0,
        d > 0,
        w == v / d,
        w == w_next * 256 + digit,
        0 <= digit < 256,
    ensures
        digit == (v / d) % 256,
        w_next == v / (d * 256),
{
    lemma_fundamental_div_mod_converse(w, 256, w_next, digit);
    lemma_div_denominator(v, d, 256);
}

} // verus!
