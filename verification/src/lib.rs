//! Time-based one-time-password second-factor verification.
//!
//! A [`Totp`] holds a shared secret, a set of single-use scratch codes, a
//! clock-drift tolerance window and a replay policy. The verifier routes a
//! candidate code to the scratch path or the time-step path, mutates the
//! state on success, and reports a typed outcome.
//!
//! Callers persisting the state must make the load-verify-save sequence
//! atomic (for example with an exclusive lock per principal); otherwise an
//! intercepted code can be replayed across concurrent loads.

mod digits;
mod errors;
mod laws;
mod model;
mod totp;
mod trusted;

pub use laws::{
    lemma_equal_views_same_behavior, lemma_replay_rejected, lemma_reusable_bypass,
    lemma_scratch_single_use, lemma_window_boundary_accept, lemma_window_boundary_reject,
};
pub use totp::{views_of, Totp};

pub use errors::VerifyError;
pub use model::{
    check_outcome, dec_digits, distinct_codes, is_base32_char, is_digit_char, is_scratch_code,
    parts_wf, scratch_outcome, time_outcome, totp_window_match, TotpView,
};
pub use trusted::hotp_code_at;
