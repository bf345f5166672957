use vstd::prelude::*;

use crate::errors::VerifyError;
use crate::trusted::hotp_code_at;

verus! {

/// The mathematical value of a [`crate::Totp`]: exactly the five fields
/// that are persisted between verification attempts.
pub struct TotpView {
    pub secret: Seq<char>,
    pub scratch: Seq<Seq<char>>,
    pub window: u16,
    pub reusable: bool,
    pub last_step: u64,
}

/// `c` is a decimal digit.
pub open spec fn is_digit_char(c: char) -> bool {
    48 <= (c as u32) && (c as u32) <= 57
}

/// `c` is a character of the base32 alphabet used for shared secrets.
pub open spec fn is_base32_char(c: char) -> bool {
    (65 <= (c as u32) && (c as u32) <= 90) || (50 <= (c as u32) && (c as u32) <= 55)
}

/// `c` has the shape of a scratch code: exactly eight decimal digits.
pub open spec fn is_scratch_code(c: Seq<char>) -> bool {
    c.len() == 8 && forall|j: int| 0 <= j < c.len() ==> is_digit_char(#[trigger] c[j])
}

/// The codes in `s` are pairwise distinct.
pub open spec fn distinct_codes(s: Seq<Seq<char>>) -> bool {
    forall|i: int, j: int| 0 <= i < j < s.len() ==> s[i] != s[j]
}

/// The five persisted fields form a valid credential state: a non-empty
/// secret and a set of well-shaped, pairwise distinct scratch codes.
pub open spec fn parts_wf(secret: Seq<char>, scratch: Seq<Seq<char>>) -> bool {
    &&& secret.len() > 0
    &&& distinct_codes(scratch)
    &&& forall|i: int| 0 <= i < scratch.len() ==> is_scratch_code(#[trigger] scratch[i])
}

/// The character for decimal digit `d`.
pub open spec fn digit_char(d: int) -> char {
    if d == 0 { '0' }
    else if d == 1 { '1' }
    else if d == 2 { '2' }
    else if d == 3 { '3' }
    else if d == 4 { '4' }
    else if d == 5 { '5' }
    else if d == 6 { '6' }
    else if d == 7 { '7' }
    else if d == 8 { '8' }
    else { '9' }
}

/// The `k` low-order decimal digits of `n`, most significant first,
/// zero-padded to width `k`.
pub open spec fn dec_digits(n: nat, k: nat) -> Seq<char>
    decreases k,
{
    if k == 0 {
        Seq::empty()
    } else {
        dec_digits(n / 10, (k - 1) as nat).push(digit_char((n % 10) as int))
    }
}

/// First time-step index that the verification primitive examines for a
/// candidate at step `step` with tolerance `window` (clamped at zero).
pub open spec fn slice_window_lo(step: u64, window: u64) -> int {
    if step >= window { step - window } else { 0 }
}

/// One past the last time-step index that the verification primitive
/// examines (clamped at the largest step).
pub open spec fn slice_window_hi(step: u64, window: u64) -> int {
    if step + window + 1 <= u64::MAX { step + window + 1 } else { u64::MAX as int }
}

/// The time-step verification primitive accepts `code`: some step in the
/// examined range derives exactly this code from `secret`.
pub open spec fn totp_window_match(secret: Seq<char>, code: Seq<char>, window: u64, step: u64) -> bool {
    exists|i: u64|
        slice_window_lo(step, window) <= i < slice_window_hi(step, window)
            && hotp_code_at(secret, i) == Some(code)
}

/// Consuming one code out of a valid scratch set keeps the set valid, and
/// because the codes are pairwise distinct, the consumed code is gone for
/// good: the remaining set no longer contains it.
pub proof fn lemma_scratch_remove(s: Seq<Seq<char>>, i: int)
    requires
        0 <= i < s.len(),
        distinct_codes(s),
        forall|k: int| 0 <= k < s.len() ==> is_scratch_code(#[trigger] s[k]),
    ensures
        distinct_codes(s.remove(i)),
        forall|k: int| 0 <= k < s.remove(i).len() ==> is_scratch_code(#[trigger] s.remove(i)[k]),
        !s.remove(i).contains(s[i]),
{
    s.remove_ensures(i);
    let t = s.remove(i);
    assert forall|k: int| 0 <= k < t.len() implies t[k] != s[i] && is_scratch_code(t[k]) by {
        if k < i {
            assert(t[k] == s[k]);
        } else {
            assert(t[k] == s[k + 1]);
        }
    }
}

/// How a scratch-code attempt with candidate `c` relates the state before
/// (`pre`) to the state after (`post`) and to the reported outcome `r`:
/// a matching code is consumed (removed once) and the attempt succeeds;
/// otherwise the state is unchanged and the code is rejected. The scratch
/// path never touches the secret, the window, the policy or the last step.
pub open spec fn scratch_outcome(
    pre: TotpView,
    post: TotpView,
    c: Seq<char>,
    r: Result<(), VerifyError>,
) -> bool {
    &&& post.secret == pre.secret
    &&& post.window == pre.window
    &&& post.reusable == pre.reusable
    &&& post.last_step == pre.last_step
    &&& if pre.scratch.contains(c) {
        &&& r == Ok::<(), VerifyError>(())
        &&& exists|i: int|
            0 <= i < pre.scratch.len() && pre.scratch[i] == c
                && post.scratch == pre.scratch.remove(i)
    } else {
        &&& r == Err::<(), VerifyError>(VerifyError::InvalidCode)
        &&& post.scratch == pre.scratch
    }
}

/// How a time-step attempt with candidate `c` at step `step` relates the
/// state before to the state after and to the outcome: a step already
/// consumed is rejected outright when reuse is forbidden; otherwise the
/// attempt succeeds exactly when the primitive accepts the code within the
/// tolerance window, and success records the current step unless reuse is
/// allowed. The time path never touches the scratch codes.
pub open spec fn time_outcome(
    pre: TotpView,
    post: TotpView,
    c: Seq<char>,
    r: Result<(), VerifyError>,
    step: u64,
) -> bool {
    &&& post.secret == pre.secret
    &&& post.scratch == pre.scratch
    &&& post.window == pre.window
    &&& post.reusable == pre.reusable
    &&& if !pre.reusable && pre.last_step == step {
        r == Err::<(), VerifyError>(VerifyError::CodeUsed) && post.last_step == pre.last_step
    } else if totp_window_match(pre.secret, c, pre.window as u64, step) {
        &&& r == Ok::<(), VerifyError>(())
        &&& post.last_step == if pre.reusable { pre.last_step } else { step }
    } else {
        r == Err::<(), VerifyError>(VerifyError::InvalidCode) && post.last_step == pre.last_step
    }
}

/// The full contract of one verification attempt: a candidate of exactly
/// eight characters is routed to the scratch path; any other candidate is
/// routed to the time path, where either the clock could not supply a
/// usable step (the state is unchanged and a time fault is reported) or the
/// attempt ran at some positive step.
pub open spec fn check_outcome(
    pre: TotpView,
    post: TotpView,
    c: Seq<char>,
    r: Result<(), VerifyError>,
) -> bool {
    if c.len() == 8 {
        scratch_outcome(pre, post, c, r)
    } else {
        ||| (post == pre && r == Err::<(), VerifyError>(VerifyError::Time))
        ||| exists|step: u64| 1 <= step && time_outcome(pre, post, c, r, step)
    }
}

} // verus!
