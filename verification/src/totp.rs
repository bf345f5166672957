use vstd::prelude::*;
use vstd::string::{StrSliceExecFns, StringExecFns};

use crate::digits::{format_digits, lemma_dec_digits_scratch, lemma_free_code_exists};
use crate::errors::VerifyError;
use crate::model::{
    check_outcome, dec_digits, distinct_codes, is_digit_char, is_scratch_code, parts_wf,
    scratch_outcome, time_outcome, TotpView,
};
use crate::trusted::{fresh_rng, new_secret, rng_range, totp_verify, unix_now};

verus! {

/// A time-based one-time-password credential: the shared secret, the unused
/// scratch codes, the clock-drift tolerance window (in 30-second steps), the
/// replay policy, and the last time step that produced an accepted
/// time-stepped verification.
///
/// After every successful verification the state must be persisted again:
/// a scratch code has been consumed, or the current step has been recorded.
pub struct Totp {
    secret: String,
    scratch: Vec<String>,
    window: u16,
    reusable: bool,
    last_step: u64,
}

/// The character sequences held by a vector of strings.
pub open spec fn views_of(v: Seq<String>) -> Seq<Seq<char>> {
    v.map_values(|s: String| s@)
}

/// `views_of` reads the strings pointwise.
proof fn lemma_views_of(v: Seq<String>)
    ensures
        views_of(v).len() == v.len(),
        forall|i: int| 0 <= i < v.len() ==> views_of(v)[i] == v[i]@,
{
}

impl View for Totp {
    type V = TotpView;

    closed spec fn view(&self) -> TotpView {
        TotpView {
            secret: self.secret@,
            scratch: views_of(self.scratch@),
            window: self.window,
            reusable: self.reusable,
            last_step: self.last_step,
        }
    }
}

/// The index of the first string in `v` whose characters are exactly `c`.
fn find_code(v: &Vec<String>, c: &String) -> (r: Option<usize>)
    ensures
        match r {
            Some(i) => i < v@.len() && v@[i as int]@ == c@,
            None => forall|j: int| 0 <= j < v@.len() ==> v@[j]@ != c@,
        },
{
    let mut i: usize = 0;
    while i < v.len()
        invariant
            i <= v@.len(),
            forall|j: int| 0 <= j < i ==> v@[j]@ != c@,
        decreases v@.len() - i,
    {
        if v[i].eq(c) {
            return Some(i);
        }
        i += 1;
    }
    None
}

/// The smallest eight-digit code that does not occur in `v`. A set of
/// fewer than `10^8` codes always leaves one of the candidates
/// `0 ..= v.len()` free.
fn scan_free_code(v: &Vec<String>) -> (r: String)
    requires
        v@.len() < 100000000,
    ensures
        is_scratch_code(r@),
        forall|j: int| 0 <= j < v@.len() ==> v@[j]@ != r@,
{
    let mut c: u64 = 0;
    loop
        invariant
            v@.len() < 100000000,
            c <= v@.len(),
            forall|m: u64| m < c ==> views_of(v@).contains(dec_digits(m as nat, 8)),
        decreases v@.len() - c,
    {
        let s = format_digits(c, 8);
        proof {
            lemma_dec_digits_scratch(c as nat);
        }
        match find_code(v, &s) {
            None => {
                return s;
            },
            Some(i) => {
                proof {
                    assert(views_of(v@)[i as int] == dec_digits(c as nat, 8));
                    assert(views_of(v@).contains(dec_digits(c as nat, 8)));
                    if c == v@.len() {
                        lemma_free_code_exists(views_of(v@));
                        let w = choose|w: u64|
                            w <= views_of(v@).len() && !views_of(v@).contains(
                                dec_digits(w as nat, 8),
                            );
                        assert(false);
                    }
                }
                c += 1;
            },
        }
    }
}

/// Freshly generated scratch codes: `num` pairwise distinct eight-digit
/// strings drawn from the secure random source. On the rare collision with
/// an earlier draw, the smallest still-unused code stands in, so the count
/// and the distinctness never suffer.
fn gen_scratch(num: usize) -> (r: Vec<String>)
    requires
        num <= 100000000,
    ensures
        r@.len() == num,
        forall|i: int, j: int| 0 <= i < j < r@.len() ==> r@[i]@ != r@[j]@,
        forall|i: int| 0 <= i < r@.len() ==> is_scratch_code(#[trigger] r@[i]@),
{
    let mut rng = fresh_rng();
    let mut v: Vec<String> = Vec::new();
    while v.len() < num
        invariant
            num <= 100000000,
            v@.len() <= num,
            forall|i: int, j: int| 0 <= i < j < v@.len() ==> v@[i]@ != v@[j]@,
            forall|i: int| 0 <= i < v@.len() ==> is_scratch_code(#[trigger] v@[i]@),
        decreases num - v@.len(),
    {
        let n = rng_range(&mut rng, 0, 99999999);
        let s = format_digits(n, 8);
        proof {
            lemma_dec_digits_scratch(n as nat);
        }
        if find_code(&v, &s).is_none() {
            v.push(s);
        } else {
            let t = scan_free_code(&v);
            v.push(t);
        }
    }
    v
}

/// Whether every string in `v` has the shape of a scratch code.
fn all_valid_codes(v: &Vec<String>) -> (r: bool)
    ensures
        r == forall|i: int| 0 <= i < v@.len() ==> is_scratch_code(#[trigger] v@[i]@),
{
    let mut i: usize = 0;
    while i < v.len()
        invariant
            i <= v@.len(),
            forall|j: int| 0 <= j < i ==> is_scratch_code(#[trigger] v@[j]@),
        decreases v@.len() - i,
    {
        if !valid_code(&v[i]) {
            return false;
        }
        i += 1;
    }
    true
}

/// Whether `s` is exactly eight decimal digits.
fn valid_code(s: &String) -> (r: bool)
    ensures
        r == is_scratch_code(s@),
{
    let st = s.as_str();
    if st.unicode_len() != 8 {
        return false;
    }
    let mut j: usize = 0;
    while j < 8
        invariant
            st@ == s@,
            s@.len() == 8,
            j <= 8,
            forall|k: int| 0 <= k < j ==> is_digit_char(#[trigger] s@[k]),
        decreases 8 - j,
    {
        let c = st.get_char(j);
        let u = c as u32;
        if u < 48 || 57 < u {
            return false;
        }
        j += 1;
    }
    true
}

/// Whether the strings in `v` are pairwise distinct.
fn all_distinct(v: &Vec<String>) -> (r: bool)
    ensures
        r == forall|i: int, j: int| 0 <= i < j < v@.len() ==> v@[i]@ != v@[j]@,
{
    let mut i: usize = 0;
    while i < v.len()
        invariant
            i <= v@.len(),
            forall|a: int, b: int| 0 <= a < b < v@.len() && a < i ==> v@[a]@ != v@[b]@,
        decreases v@.len() - i,
    {
        let mut j: usize = i + 1;
        while j < v.len()
            invariant
                i < j,
                j <= v@.len(),
                i < v@.len(),
                forall|b: int| i < b < j ==> v@[i as int]@ != v@[b]@,
            decreases v@.len() - j,
        {
            if v[i].eq(&v[j]) {
                return false;
            }
            j += 1;
        }
        i += 1;
    }
    true
}

impl Totp {
    /// The five persisted fields form a valid credential state: a non-empty
    /// secret and well-shaped, pairwise distinct scratch codes.
    pub open spec fn wf(&self) -> bool {
        parts_wf(self@.secret, self@.scratch)
    }

    /// Creates a credential with a fresh 32-character secret, 8 fresh
    /// scratch codes, a tolerance window of 1 step, and replay protection on.
    pub fn new() -> (r: Totp)
        ensures
            r.wf(),
            r@.secret.len() == 32,
            r@.scratch.len() == 8,
            r@.window == 1,
            r@.reusable == false,
            r@.last_step == 0,
    {
        let secret = new_secret(32);
        let t = Totp { secret, scratch: Vec::new(), window: 1, reusable: false, last_step: 0 };
        proof {
            assert(t@.scratch =~= Seq::<Seq<char>>::empty());
        }
        t.with_scratch(8)
    }

    /// Replaces the scratch-code set with `num` freshly generated pairwise
    /// distinct eight-digit codes, discarding all prior ones. A `num` of 0
    /// disables scratch codes. All other fields are kept.
    ///
    /// There are only `10^8` distinct eight-digit codes, so no more than
    /// that many can be asked for.
    pub fn with_scratch(self, num: usize) -> (r: Totp)
        requires
            self.wf(),
            num <= 100000000,
        ensures
            r.wf(),
            r@.secret == self@.secret,
            r@.window == self@.window,
            r@.reusable == self@.reusable,
            r@.last_step == self@.last_step,
            r@.scratch.len() == num,
            distinct_codes(r@.scratch),
            forall|i: int| 0 <= i < r@.scratch.len() ==> is_scratch_code(#[trigger] r@.scratch[i]),
    {
        let scratch = gen_scratch(num);
        let mut out = self;
        out.scratch = scratch;
        out
    }

    /// Sets the tolerance window: how many 30-second steps of clock drift
    /// between code generator and verifier are still accepted. All other
    /// fields are kept.
    pub fn with_window(self, window: u16) -> (r: Totp)
        ensures
            r@.window == window,
            r@.secret == self@.secret,
            r@.scratch == self@.scratch,
            r@.reusable == self@.reusable,
            r@.last_step == self@.last_step,
            r.wf() == self.wf(),
    {
        let mut out = self;
        out.window = window;
        out
    }

    /// Enables or disables code reuse within one time step. All other
    /// fields are kept.
    pub fn with_reusable(self, reusable: bool) -> (r: Totp)
        ensures
            r@.reusable == reusable,
            r@.secret == self@.secret,
            r@.scratch == self@.scratch,
            r@.window == self@.window,
            r@.last_step == self@.last_step,
            r.wf() == self.wf(),
    {
        let mut out = self;
        out.reusable = reusable;
        out
    }

    /// The scratch path of one verification attempt: a matching scratch
    /// code is consumed and the attempt succeeds; anything else is rejected
    /// and leaves the state unchanged.
    fn consume_scratch(&mut self, code: &str) -> (r: Result<(), VerifyError>)
        requires
            old(self).wf(),
        ensures
            final(self).wf(),
            scratch_outcome(old(self)@, final(self)@, code@, r),
    {
        let key = code.to_owned();
        match find_code(&self.scratch, &key) {
            Some(i) => {
                self.scratch.remove(i);
                proof {
                    let pre = old(self)@.scratch;
                    assert(final(self)@.scratch =~= pre.remove(i as int));
                    assert(pre.contains(code@)) by {
                        assert(pre[i as int] == code@);
                    }
                    crate::model::lemma_scratch_remove(pre, i as int);
                }
                Ok(())
            },
            None => {
                proof {
                    if old(self)@.scratch.contains(code@) {
                        let w = choose|k: int|
                            0 <= k < old(self)@.scratch.len() && old(self)@.scratch[k] == code@;
                        assert(old(self).scratch@[w]@ == key@);
                    }
                }
                Err(VerifyError::InvalidCode)
            },
        }
    }

    /// The time-step path of one verification attempt, at a given current
    /// step. A step already consumed is rejected outright when reuse is
    /// forbidden; otherwise the attempt succeeds exactly when the external
    /// primitive accepts the code within the tolerance window, and success
    /// records the current step unless reuse is allowed.
    ///
    /// The step must lie beyond the tolerance window, so that the examined
    /// range of steps stays clear of step zero, which the primitive treats
    /// as a request to consult the clock itself.
    pub fn verify_at_step(&mut self, code: &str, step: u64) -> (r: Result<(), VerifyError>)
        requires
            old(self).wf(),
            old(self)@.window < step,
        ensures
            final(self).wf(),
            time_outcome(old(self)@, final(self)@, code@, r, step),
    {
        if !self.reusable && self.last_step == step {
            return Err(VerifyError::CodeUsed);
        }
        let ok = totp_verify(self.secret.as_str(), code, self.window as u64, step);
        if ok {
            if !self.reusable {
                self.last_step = step;
            }
            Ok(())
        } else {
            Err(VerifyError::InvalidCode)
        }
    }

    /// Checks a candidate code against this credential, consuming a matched
    /// scratch code or recording the current time step on success.
    ///
    /// A candidate of exactly eight characters is treated as a scratch-code
    /// attempt; anything else is checked as a time-stepped code against the
    /// current clock. A clock that cannot be read, or reads so early that
    /// the tolerance window would reach the epoch, fails with
    /// [`VerifyError::Time`].
    pub fn verify_code(&mut self, code: &str) -> (r: Result<(), VerifyError>)
        requires
            old(self).wf(),
        ensures
            final(self).wf(),
            check_outcome(old(self)@, final(self)@, code@, r),
    {
        if code.unicode_len() == 8 {
            return self.consume_scratch(code);
        }
        let now = match unix_now() {
            Some(x) => x,
            None => {
                return Err(VerifyError::Time);
            },
        };
        let step = now / 30;
        if step <= self.window as u64 {
            return Err(VerifyError::Time);
        }
        let r = self.verify_at_step(code, step);
        proof {
            assert(1 <= step && time_outcome(old(self)@, final(self)@, code@, r, step));
        }
        r
    }

    /// Like [`Totp::verify_code`], but collapses every failure to `false`.
    pub fn verify(&mut self, code: &str) -> (r: bool)
        requires
            old(self).wf(),
        ensures
            final(self).wf(),
            exists|res: Result<(), VerifyError>|
                #[trigger] check_outcome(old(self)@, final(self)@, code@, res) && r == (res is Ok),
    {
        let res = self.verify_code(code);
        proof {
            assert(check_outcome(old(self)@, final(self)@, code@, res));
        }
        res.is_ok()
    }

    /// The provisioning URI for this credential, in the standard
    /// `otpauth://totp/` scheme. `name` and `issuer` are interpolated as
    /// given: the caller must keep characters that would break a URI out of
    /// them.
    pub fn uri(&self, name: &str, issuer: &str) -> (r: String)
        ensures
            r@ == "otpauth://totp/"@ + name@ + "?secret="@ + self@.secret + "&issuer="@
                + issuer@,
    {
        let mut s = "otpauth://totp/".to_owned();
        s.append(name);
        s.append("?secret=");
        s.append(self.secret.as_str());
        s.append("&issuer=");
        s.append(issuer);
        proof {
            assert(s@ =~= "otpauth://totp/"@ + name@ + "?secret="@ + self@.secret + "&issuer="@
                + issuer@);
        }
        s
    }

    /// The shared secret, for manual entry where a URI cannot be used.
    pub fn secret(&self) -> (r: &str)
        ensures
            r@ == self@.secret,
    {
        self.secret.as_str()
    }

    /// A snapshot of the scratch codes that are still unused.
    pub fn scratch_codes(&self) -> (r: Vec<&str>)
        ensures
            r@.len() == self@.scratch.len(),
            forall|i: int| 0 <= i < r@.len() ==> #[trigger] r@[i]@ == self@.scratch[i],
    {
        let mut out: Vec<&str> = Vec::new();
        let mut i: usize = 0;
        while i < self.scratch.len()
            invariant
                i <= self.scratch@.len(),
                out@.len() == i,
                forall|j: int| 0 <= j < i ==> #[trigger] out@[j]@ == self@.scratch[j],
            decreases self.scratch@.len() - i,
        {
            out.push(self.scratch[i].as_str());
            i += 1;
        }
        out
    }

    /// The tolerance window, in 30-second steps.
    pub fn window(&self) -> (r: u16)
        ensures
            r == self@.window,
    {
        self.window
    }

    /// Whether code reuse within one time step is allowed.
    pub fn reusable(&self) -> (r: bool)
        ensures
            r == self@.reusable,
    {
        self.reusable
    }

    /// The last time step that produced an accepted time-stepped
    /// verification, or 0 before the first one.
    pub fn last_step(&self) -> (r: u64)
        ensures
            r == self@.last_step,
    {
        self.last_step
    }

    /// Rebuilds a credential from its five persisted fields, as read back
    /// from storage. Fields that do not form a valid state (an empty
    /// secret, a malformed or duplicated scratch code) are rejected, so a
    /// reconstructed credential always carries the state invariant.
    pub fn from_parts(
        secret: String,
        scratch: Vec<String>,
        window: u16,
        reusable: bool,
        last_step: u64,
    ) -> (r: Option<Totp>)
        ensures
            match r {
                Some(t) => {
                    &&& t.wf()
                    &&& t@.secret == secret@
                    &&& t@.scratch == views_of(scratch@)
                    &&& t@.window == window
                    &&& t@.reusable == reusable
                    &&& t@.last_step == last_step
                },
                None => !parts_wf(secret@, views_of(scratch@)),
            },
    {
        proof {
            lemma_views_of(scratch@);
        }
        if secret.as_str().is_empty() {
            return None;
        }
        if !all_valid_codes(&scratch) {
            proof {
                let i = choose|i: int| 0 <= i < scratch@.len() && !is_scratch_code(scratch@[i]@);
                assert(views_of(scratch@)[i] == scratch@[i]@);
            }
            return None;
        }
        if !all_distinct(&scratch) {
            proof {
                let (a, b) = choose|a: int, b: int|
                    0 <= a < b < scratch@.len() && scratch@[a]@ == scratch@[b]@;
                assert(views_of(scratch@)[a] == scratch@[a]@);
                assert(views_of(scratch@)[b] == scratch@[b]@);
                assert(!distinct_codes(views_of(scratch@)));
            }
            return None;
        }
        Some(Totp { secret, scratch, window, reusable, last_step })
    }
}

/// Wraps [`Totp::new`].
impl Default for Totp {
    fn default() -> (r: Totp)
        ensures
            r.wf(),
            r@.secret.len() == 32,
            r@.scratch.len() == 8,
            r@.window == 1,
            r@.reusable == false,
            r@.last_step == 0,
    {
        Totp::new()
    }
}

} // verus!
