use crate::counter::{be_bytes, counter_bytes, counter_of, time_counter};
use crate::error::TotpError;
use base32::Alphabet;
use hmac::digest::KeyInit;
use hmac::{Hmac, Mac};
use sha1::Sha1;
use std::time::{Duration, SystemTime, UNIX_EPOCH};
use vstd::prelude::*;

verus! {

/// The bytes that the unpadded RFC 4648 base32 decoder yields for a text,
/// or `None` where it rejects the text.
pub uninterp spec fn base32_decoded(s: Seq<char>) -> Option<Seq<u8>>;

/// The HMAC-SHA1 digest of `msg` under `key`.
pub uninterp spec fn hmac_sha1_of(key: Seq<u8>, msg: Seq<u8>) -> Seq<u8>;

/// A symbol of the RFC 4648 base32 alphabet: an upper-case letter or a digit
/// from 2 to 7.
pub open spec fn is_base32_char(c: char) -> bool {
    ('A' <= c && c <= 'Z') || ('2' <= c && c <= '7')
}

/// A text made only of base32 symbols.
pub open spec fn is_base32_text(s: Seq<char>) -> bool {
    forall|i: int| 0 <= i < s.len() ==> is_base32_char(#[trigger] s[i])
}

/// Relies on base32::decode with the unpadded RFC 4648 alphabet: it is a
/// function of the text alone; it accepts exactly the texts made of the
/// alphabet's symbols (anything else, `=` included, misses its table), and
/// keeps `len * 5 / 8` of the decoded bytes.
#[verifier::external_body]
fn decode_base32(s: &str) -> (r: Option<Vec<u8>>)
    ensures
        match r {
            Some(v) => base32_decoded(s@) == Some(v@),
            None => base32_decoded(s@) is None,
        },
        r is Some == is_base32_text(s@),
        r matches Some(v) ==> v@.len() == s@.len() * 5 / 8,
{
    base32::decode(Alphabet::Rfc4648 { padding: false }, s)
}

/// Relies on hmac's `Hmac<Sha1>`: keying accepts every key length (keys longer
/// than a block are hashed first), and the finalized tag is SHA-1's 20 bytes.
#[verifier::external_body]
fn hmac_sha1(key: &[u8], msg: &[u8]) -> (r: Option<Vec<u8>>)
    ensures
        r is Some,
        r matches Some(d) ==> d@ == hmac_sha1_of(key@, msg@) && d@.len() == 20,
{
    match <Hmac<Sha1> as KeyInit>::new_from_slice(key) {
        Ok(mut mac) => {
            mac.update(msg);
            Some(mac.finalize().into_bytes().to_vec())
        },
        Err(_) => None,
    }
}

#[verifier::external_type_specification]
#[verifier::external_body]
pub struct ExSystemTime(SystemTime);

/// Relies on SystemTime::now: the system clock's reading.
#[verifier::external_body]
fn clock_now() -> (r: SystemTime) {
    SystemTime::now()
}

/// Relies on SystemTime::duration_since: the whole seconds from the Unix epoch
/// to `t`, or `None` where `t` lies before it.
#[verifier::external_body]
fn unix_seconds(t: &SystemTime) -> (r: Option<u64>) {
    match t.duration_since(UNIX_EPOCH) {
        Ok(d) => Some(Duration::as_secs(&d)),
        Err(_) => None,
    }
}

/// The 31-bit value that dynamic truncation takes from a 20-byte digest: the
/// low nibble of the last byte picks an offset, and the four bytes from there
/// are read big-endian with the top bit cleared.
pub open spec fn truncated(d: Seq<u8>) -> int
    recommends
        d.len() == 20,
{
    let o = (d[19] & 0x0f) as int;
    (d[o] & 0x7f) * 0x1000000 + d[o + 1] * 0x10000 + d[o + 2] * 0x100 + d[o + 3]
}

/// The six-digit code of a digest.
pub open spec fn digest_code(d: Seq<u8>) -> u32
    recommends
        d.len() == 20,
{
    (truncated(d) % 1_000_000) as u32
}

/// The HOTP code of a key and a counter.
pub open spec fn hotp_code(key: Seq<u8>, c: u64) -> u32 {
    digest_code(hmac_sha1_of(key, be_bytes(c)))
}

/// The TOTP code of a base32 secret at a time, or why there is none.
pub open spec fn totp_code(secret: Seq<char>, step: u64, t0: u64, unix_time: u64) -> Result<
    u32,
    TotpError,
> {
    match base32_decoded(secret) {
        None => Err(TotpError::InvalidSecret),
        Some(key) => match counter_of(step, t0, unix_time) {
            Err(e) => Err(e),
            Ok(c) => Ok(hotp_code(key, c)),
        },
    }
}

/// A code is a function of the secret, the step, the epoch start and the
/// time: two computations on the same valid secret with a nonzero step agree,
/// and they succeed whenever the time is not before the epoch start.
pub proof fn lemma_compute_code_deterministic(
    secret: Seq<char>,
    step: u64,
    t0: u64,
    unix_time: u64,
    r1: Result<u32, TotpError>,
    r2: Result<u32, TotpError>,
)
    requires
        base32_decoded(secret) is Some,
        step > 0,
        r1 == totp_code(secret, step, t0, unix_time),
        r2 == totp_code(secret, step, t0, unix_time),
    ensures
        r1 == r2,
        unix_time >= t0 ==> r1 is Ok,
        unix_time < t0 ==> r1 == Err::<u32, TotpError>(TotpError::InvalidTiming),
{
}

/// A code depends on the time only through its counter: two step and epoch
/// settings that give the same counter give the same code.
pub proof fn lemma_same_counter_same_code(
    secret: Seq<char>,
    step1: u64,
    t01: u64,
    time1: u64,
    step2: u64,
    t02: u64,
    time2: u64,
)
    requires
        counter_of(step1, t01, time1) is Ok,
        counter_of(step1, t01, time1) == counter_of(step2, t02, time2),
    ensures
        totp_code(secret, step1, t01, time1) == totp_code(secret, step2, t02, time2),
{
}

proof fn lemma_masks(b: u8, n: u8)
    ensures
        b & 0x7f < 128,
        n & 0x0f < 16,
{
    assert(b & 0x7f < 128) by (bit_vector);
    assert(n & 0x0f < 16) by (bit_vector);
}

/// Dynamic truncation of a 20-byte digest, reduced to six digits.
pub fn code_from_digest(digest: &[u8]) -> (r: u32)
    requires
        digest@.len() == 20,
    ensures
        r == digest_code(digest@),
        r < 1_000_000,
{
    let offset = (digest[19] & 0x0f) as usize;
    proof {
        lemma_masks(digest@[offset as int], digest@[19]);
    }
    let b0 = (digest[offset] & 0x7f) as u32;
    let b1 = digest[offset + 1] as u32;
    let b2 = digest[offset + 2] as u32;
    let b3 = digest[offset + 3] as u32;
    let value: u32 = b0 * 0x1000000 + b1 * 0x10000 + b2 * 0x100 + b3;
    value % 1_000_000
}

/// The HOTP code of a raw key at a counter value.
pub fn hotp(key: &[u8], c: u64) -> (r: Result<u32, TotpError>)
    ensures
        r == Ok::<u32, TotpError>(hotp_code(key@, c)),
{
    let msg = counter_bytes(c);
    match hmac_sha1(key, &msg) {
        Some(d) => Ok(code_from_digest(d.as_slice())),
        None => Err(TotpError::InvalidSecret),
    }
}

/// The TOTP code of a base32 secret at `unix_time`, with the reason where
/// there is none.
pub fn compute_code(secret_base32: &str, step: u64, t0: u64, unix_time: u64) -> (r: Result<
    u32,
    TotpError,
>)
    ensures
        r == totp_code(secret_base32@, step, t0, unix_time),
        r matches Ok(code) ==> code < 1_000_000,
        !is_base32_text(secret_base32@) ==> r == Err::<u32, TotpError>(TotpError::InvalidSecret),
{
    let key = match decode_base32(secret_base32) {
        Some(k) => k,
        None => return Err(TotpError::InvalidSecret),
    };
    let c = match time_counter(step, t0, unix_time) {
        Ok(c) => c,
        Err(e) => return Err(e),
    };
    hotp(key.as_slice(), c)
}

/// The TOTP code of a base32 secret at `unix_time`, or `None` where the secret
/// is not valid base32, the step is zero or the time lies before `t0`.
pub fn totp_raw(secret_base32: &str, step: u64, t0: u64, unix_time: u64) -> (r: Option<u32>)
    ensures
        match totp_code(secret_base32@, step, t0, unix_time) {
            Ok(code) => r == Some(code),
            Err(_) => r is None,
        },
        !is_base32_text(secret_base32@) ==> r is None,
{
    match compute_code(secret_base32, step, t0, unix_time) {
        Ok(code) => Some(code),
        Err(_) => None,
    }
}

/// What the code at a clock reading is: the reading's seconds since the Unix
/// epoch, or `None` for a clock that reads before the epoch.
pub open spec fn code_at_reading_of(secret: Seq<char>, step: u64, t0: u64, now: Option<u64>) -> Result<
    u32,
    TotpError,
> {
    match now {
        Some(t) => totp_code(secret, step, t0, t),
        None => match totp_code(secret, step, t0, t0) {
            Err(e) => Err(e),
            Ok(_) => Err(TotpError::ClockUnavailable),
        },
    }
}

/// The TOTP code at a clock reading. A reading before the Unix epoch (`None`)
/// gives the error that every time would give, and `ClockUnavailable` where
/// the secret and step are valid.
pub fn code_at_reading(secret_base32: &str, step: u64, t0: u64, now: Option<u64>) -> (r: Result<
    u32,
    TotpError,
>)
    ensures
        r == code_at_reading_of(secret_base32@, step, t0, now),
{
    match now {
        Some(t) => compute_code(secret_base32, step, t0, t),
        None => match compute_code(secret_base32, step, t0, t0) {
            Err(e) => Err(e),
            Ok(_) => Err(TotpError::ClockUnavailable),
        },
    }
}

/// The TOTP code of a base32 secret at the current time of the system clock.
/// It fails whenever the code would fail at every time, and with
/// `ClockUnavailable` where the clock reads before the Unix epoch; otherwise
/// it is the code at the time read.
pub fn compute_code_now(secret_base32: &str, step: u64, t0: u64) -> (r: Result<u32, TotpError>)
    ensures
        base32_decoded(secret_base32@) is None ==> r == Err::<u32, TotpError>(
            TotpError::InvalidSecret,
        ),
        base32_decoded(secret_base32@) is Some && step == 0 ==> r == Err::<u32, TotpError>(
            TotpError::InvalidTiming,
        ),
        exists|now: Option<u64>| r == #[trigger] code_at_reading_of(secret_base32@, step, t0, now),
{
    let now = clock_now();
    let reading = unix_seconds(&now);
    code_at_reading(secret_base32, step, t0, reading)
}

/// The TOTP code of a base32 secret at the current time, or `None` where
/// [`compute_code_now`] fails.
pub fn totp_raw_now(secret_base32: &str, step: u64, t0: u64) -> (r: Option<u32>)
    ensures
        base32_decoded(secret_base32@) is None ==> r is None,
        step == 0 ==> r is None,
        exists|now: Option<u64>|
            match #[trigger] code_at_reading_of(secret_base32@, step, t0, now) {
                Ok(code) => r == Some(code),
                Err(_) => r is None,
            },
{
    match compute_code_now(secret_base32, step, t0) {
        Ok(code) => Some(code),
        Err(_) => None,
    }
}

} // verus!
