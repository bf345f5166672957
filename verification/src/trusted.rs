use rand::Rng;
use vstd::prelude::*;

use crate::model::{is_base32_char, slice_window_lo, slice_window_hi, totp_window_match};

verus! {

/// The code that the verification primitive derives from `secret` at time
/// step `step`, when the secret can be decoded at all. The derivation
/// (base32 decoding followed by an HMAC-based digest) depends on the secret
/// and the step alone.
pub uninterp spec fn hotp_code_at(secret: Seq<char>, step: u64) -> Option<Seq<char>>;

/// Relies on `google_authenticator::GoogleAuthenticator::create_secret`:
/// the returned secret has exactly `length` characters, each drawn from the
/// base32 alphabet (`A`-`Z` and `2`-`7`).
#[verifier::external_body]
pub(crate) fn new_secret(length: u8) -> (r: String)
    ensures
        r@.len() == length as nat,
        forall|i: int| 0 <= i < r@.len() ==> is_base32_char(#[trigger] r@[i]),
{
    google_authenticator::GA_AUTH.create_secret(length)
}

/// Relies on `google_authenticator::GoogleAuthenticator::verify_code`: it
/// accepts exactly when some examined time step, from `window` steps before
/// `step` through `window` steps after it, derives the candidate code from
/// the secret. A step of zero makes the primitive consult the clock itself,
/// and a window reaching back to step zero drags step zero into the
/// examined range, so both are excluded here.
#[verifier::external_body]
pub(crate) fn totp_verify(secret: &str, code: &str, window: u64, step: u64) -> (r: bool)
    requires
        window < step,
    ensures
        r == (exists|i: u64|
            slice_window_lo(step, window) <= i < slice_window_hi(step, window)
                && hotp_code_at(secret@, i) == Some(code@)),
        r == totp_window_match(secret@, code@, window, step),
{
    google_authenticator::GA_AUTH.verify_code(secret, code, window, step)
}

/// Relies on `std::time::SystemTime::now` and
/// `SystemTime::duration_since(UNIX_EPOCH)`: the number of whole seconds
/// since the Unix epoch, or `None` when the clock reads earlier than the
/// epoch. Nothing is promised of the value: it is whatever the clock says.
#[verifier::external_body]
pub(crate) fn unix_now() -> (r: Option<u64>) {
    match std::time::SystemTime::now().duration_since(std::time::UNIX_EPOCH) {
        Ok(d) => Some(d.as_secs()),
        Err(_) => None,
    }
}

#[verifier::external_type_specification]
#[verifier::external_body]
pub struct ExThreadRng(rand::rngs::ThreadRng);

/// Relies on `rand::thread_rng`: a handle to the thread-local
/// cryptographically secure generator. Nothing is promised of it.
#[verifier::external_body]
pub(crate) fn fresh_rng() -> (r: rand::rngs::ThreadRng) {
    rand::thread_rng()
}

/// Relies on `rand::Rng::gen_range`: a value uniformly distributed over the
/// inclusive range, which for `lo <= hi` is non-empty, so the call returns.
/// Only the bounds are promised: the draw is random.
#[verifier::external_body]
pub(crate) fn rng_range(rng: &mut rand::rngs::ThreadRng, lo: u64, hi: u64) -> (r: u64)
    requires
        lo <= hi,
    ensures
        lo <= r <= hi,
{
    rng.gen_range(lo..=hi)
}

} // verus!
