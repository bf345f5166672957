use vstd::prelude::*;

use crate::errors::VerifyError;
use crate::model::{
    check_outcome, lemma_scratch_remove, parts_wf, scratch_outcome, time_outcome,
    totp_window_match, slice_window_lo, slice_window_hi, TotpView,
};
use crate::trusted::hotp_code_at;

verus! {

/// A scratch code is single-use: on a state that holds the code, the first
/// attempt succeeds and shrinks the scratch set by exactly one; repeating
/// the very same attempt on the resulting state fails with
/// [`VerifyError::InvalidCode`] and changes nothing.
pub proof fn lemma_scratch_single_use(
    pre: TotpView,
    mid: TotpView,
    post: TotpView,
    c: Seq<char>,
    r1: Result<(), VerifyError>,
    r2: Result<(), VerifyError>,
)
    requires
        parts_wf(pre.secret, pre.scratch),
        pre.scratch.contains(c),
        scratch_outcome(pre, mid, c, r1),
        scratch_outcome(mid, post, c, r2),
    ensures
        r1 == Ok::<(), VerifyError>(()),
        mid.scratch.len() == pre.scratch.len() - 1,
        r2 == Err::<(), VerifyError>(VerifyError::InvalidCode),
        post.scratch == mid.scratch,
        post.last_step == mid.last_step,
{
    let i = choose|i: int|
        0 <= i < pre.scratch.len() && pre.scratch[i] == c && mid.scratch == pre.scratch.remove(i);
    lemma_scratch_remove(pre.scratch, i);
    pre.scratch.remove_ensures(i);
}

/// Replay is rejected: with reuse forbidden, a successful time-stepped
/// verification at some step makes any further attempt at the same step
/// fail with [`VerifyError::CodeUsed`], whatever code it offers, and leaves
/// the state unchanged.
pub proof fn lemma_replay_rejected(
    pre: TotpView,
    mid: TotpView,
    post: TotpView,
    c1: Seq<char>,
    c2: Seq<char>,
    r2: Result<(), VerifyError>,
    step: u64,
)
    requires
        !pre.reusable,
        time_outcome(pre, mid, c1, Ok(()), step),
        time_outcome(mid, post, c2, r2, step),
    ensures
        mid.last_step == step,
        r2 == Err::<(), VerifyError>(VerifyError::CodeUsed),
        post.last_step == mid.last_step,
        post.scratch == mid.scratch,
        post.secret == mid.secret,
        post.window == mid.window,
        post.reusable == mid.reusable,
{
}

/// Window tolerance, accepting side: with reuse allowed, a code that the
/// secret yields exactly `window` steps before the current step is
/// accepted. (At the very last representable step with a window of zero the
/// underlying primitive examines an empty range and accepts nothing, so
/// that step stays out.)
pub proof fn lemma_window_boundary_accept(
    pre: TotpView,
    post: TotpView,
    c: Seq<char>,
    r: Result<(), VerifyError>,
    step: u64,
)
    requires
        pre.reusable,
        pre.window <= step,
        step < u64::MAX,
        hotp_code_at(pre.secret, (step - pre.window as u64) as u64) == Some(c),
        time_outcome(pre, post, c, r, step),
    ensures
        r == Ok::<(), VerifyError>(()),
{
    let w = pre.window as u64;
    let i = (step - w) as u64;
    assert(slice_window_lo(step, w) <= i < slice_window_hi(step, w));
    assert(totp_window_match(pre.secret, c, w, step));
}

/// Window tolerance, rejecting side: a code that the secret yields only at
/// the step just outside the tolerance window — one step further back than
/// the window reaches — is rejected with [`VerifyError::InvalidCode`], and
/// the state does not change.
pub proof fn lemma_window_boundary_reject(
    pre: TotpView,
    post: TotpView,
    c: Seq<char>,
    r: Result<(), VerifyError>,
    step: u64,
)
    requires
        pre.reusable,
        pre.window as u64 + 1 <= step,
        forall|i: u64| #[trigger] hotp_code_at(pre.secret, i) == Some(c)
            ==> i == step - pre.window as u64 - 1,
        time_outcome(pre, post, c, r, step),
    ensures
        r == Err::<(), VerifyError>(VerifyError::InvalidCode),
        post.last_step == pre.last_step,
        post.scratch == pre.scratch,
        post.secret == pre.secret,
        post.window == pre.window,
        post.reusable == pre.reusable,
{
    let w = pre.window as u64;
    assert(!totp_window_match(pre.secret, c, w, step)) by {
        if totp_window_match(pre.secret, c, w, step) {
            let i = choose|i: u64|
                slice_window_lo(step, w) <= i < slice_window_hi(step, w)
                    && hotp_code_at(pre.secret, i) == Some(c);
            assert(i == step - w - 1);
            assert(false);
        }
    }
}

/// Reuse bypass: with reuse allowed, a successful time-stepped verification
/// leaves the state as it was, and the very same attempt at the same step
/// succeeds again.
pub proof fn lemma_reusable_bypass(
    pre: TotpView,
    mid: TotpView,
    post: TotpView,
    c: Seq<char>,
    r2: Result<(), VerifyError>,
    step: u64,
)
    requires
        pre.reusable,
        time_outcome(pre, mid, c, Ok(()), step),
        time_outcome(mid, post, c, r2, step),
    ensures
        mid.last_step == pre.last_step,
        mid.scratch == pre.scratch,
        mid.secret == pre.secret,
        r2 == Ok::<(), VerifyError>(()),
{
}

/// Round trips preserve behavior: verification outcomes are a function of
/// the five persisted fields alone, so a state reloaded with the same
/// fields satisfies exactly the same outcome relations as the state that
/// was stored.
pub proof fn lemma_equal_views_same_behavior(
    a: TotpView,
    b: TotpView,
    post: TotpView,
    c: Seq<char>,
    r: Result<(), VerifyError>,
    step: u64,
)
    requires
        a == b,
    ensures
        scratch_outcome(a, post, c, r) == scratch_outcome(b, post, c, r),
        time_outcome(a, post, c, r, step) == time_outcome(b, post, c, r, step),
        check_outcome(a, post, c, r) == check_outcome(b, post, c, r),
{
}

} // verus!
