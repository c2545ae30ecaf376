use crate::otp::{base32_decoded, is_base32_text};
use base32::Alphabet;
use vstd::prelude::*;

verus! {

/// The unpadded RFC 4648 base32 text of some bytes.
pub uninterp spec fn base32_encoded(b: Seq<u8>) -> Seq<char>;

/// Relies on base32::encode with the unpadded RFC 4648 alphabet: the text is a
/// function of the bytes, no bytes give no text, and base32::decode with the
/// same alphabet gives the bytes back (the crate's `invertible_unpadded_rfc4648`
/// property). Each five bits give one symbol of the alphabet, and the last
/// partial group is cut to `(8 * n + 4) / 5` symbols in all.
#[verifier::external_body]
fn encode_base32(b: &[u8]) -> (r: String)
    ensures
        r@ == base32_encoded(b@),
        r@.len() == (8 * b@.len() + 4) / 5,
        is_base32_text(r@),
        base32_decoded(r@) == Some(b@),
        b@.len() == 0 ==> r@.len() == 0,
{
    base32::encode(Alphabet::Rfc4648 { padding: false }, b)
}

/// Relies on rand::random, drawn from the thread-local generator, which is
/// seeded from the operating system; nothing is known of the value.
pub assume_specification<T>[ rand::random::<T> ]() -> T
    where
        rand::distr::StandardUniform: rand::distr::Distribution<T>,
;

/// The base32 text of a secret made of the given bytes. A caller that holds
/// its own random source hands its bytes here.
pub fn secret_from_bytes(bytes: &[u8]) -> (r: String)
    ensures
        r@ == base32_encoded(bytes@),
        r@.len() == (8 * bytes@.len() + 4) / 5,
        is_base32_text(r@),
        base32_decoded(r@) == Some(bytes@),
        bytes@.len() == 0 ==> r@.len() == 0,
{
    encode_base32(bytes)
}

/// `length` random bytes.
pub fn random_secret_bytes(length: usize) -> (r: Vec<u8>)
    ensures
        r@.len() == length,
{
    let mut bytes: Vec<u8> = Vec::with_capacity(length);
    let mut i: usize = 0;
    while i < length
        invariant
            i <= length,
            bytes@.len() == i,
        decreases length - i,
    {
        let b: u8 = rand::random::<u8>();
        bytes.push(b);
        i = i + 1;
    }
    bytes
}

/// A new random secret of `length` bytes, as unpadded base32 text. It decodes
/// back to exactly `length` bytes; with no bytes it is the empty text.
pub fn generate_totp_secret(length: usize) -> (r: String)
    ensures
        base32_decoded(r@) matches Some(key) && key.len() == length,
        r@.len() == (8 * length + 4) / 5,
        is_base32_text(r@),
        length == 0 ==> r@.len() == 0,
{
    let bytes = random_secret_bytes(length);
    secret_from_bytes(bytes.as_slice())
}

} // verus!
