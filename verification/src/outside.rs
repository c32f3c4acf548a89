//! The crate's view of the world outside it: the coarse system clock, the
//! random source, and the Base64 encoder.  Each function here wraps one call
//! into an outside crate; its contract is what the rest of the crate is
//! verified against.

use vstd::prelude::*;
use crate::duration::UnixTimeStamp;
use ct_codecs::Encoder;
use rand::RngCore;

verus! {

/// The unpadded URL-safe Base64 encoding of a byte sequence, as the encoder
/// below produces it.
pub uninterp spec fn b64url_of(bytes: Seq<u8>) -> Seq<char>;

/// Relies on `coarsetime::Clock::now_since_epoch`: the time elapsed since
/// the UNIX epoch, read from the system clock as a count of 2^-32-second
/// ticks.  Nothing can be promised of a clock reading.
#[verifier::external_body]
pub(crate) fn clock_now() -> UnixTimeStamp {
    UnixTimeStamp { ticks: coarsetime::Clock::now_since_epoch().as_ticks() }
}

/// Relies on `rand::thread_rng` and `RngCore::fill_bytes`: 24 bytes from a
/// cryptographically secure generator.  Nothing can be promised of the
/// bytes beyond their number.
#[verifier::external_body]
pub(crate) fn random_bytes_24() -> (r: Vec<u8>)
    ensures
        r@.len() == 24,
{
    let mut buf = [0u8; 24];
    rand::thread_rng().fill_bytes(&mut buf);
    buf.to_vec()
}

/// Relies on `ct_codecs::Base64UrlSafeNoPadding::encode_to_string`:
/// unpadded URL-safe Base64, 4 characters for every 3 input bytes and 2 or 3
/// characters for a trailing partial group, deterministic in the bytes
/// alone.  The encoder fails only when the output length overflows `usize`,
/// which the bound on the input length rules out, so the unwrap cannot
/// panic.
#[verifier::external_body]
pub(crate) fn b64url_encode(bytes: &Vec<u8>) -> (r: String)
    requires
        bytes@.len() <= 0xffff_ffff,
    ensures
        r@ == b64url_of(bytes@),
        r@.len() == (bytes@.len() / 3) * 4 + if bytes@.len() % 3 == 0 {
            0int
        } else {
            2int + (bytes@.len() % 3) / 2
        },
{
    ct_codecs::Base64UrlSafeNoPadding::encode_to_string(bytes).unwrap()
}

} // verus!
