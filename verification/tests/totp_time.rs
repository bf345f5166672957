use eztotp::{Totp, VerifyError};
use google_authenticator::GoogleAuthenticator;
use std::time::{SystemTime, UNIX_EPOCH};

const SECRET: &str = "ABCDEFGHIJKLMNOPQRSTUVWXYZ234567";
const STEP: u64 = 54424000;

fn state(window: u16, reusable: bool, last_step: u64) -> Totp {
    Totp::from_parts(SECRET.to_string(), Vec::new(), window, reusable, last_step).unwrap()
}

fn code_at(step: u64) -> String {
    GoogleAuthenticator::new().get_code(SECRET, step).unwrap()
}

#[test]
fn current_code_accepted_at_step() {
    let mut t = state(1, false, 0);
    assert_eq!(t.verify_at_step(&code_at(STEP), STEP), Ok(()));
    assert_eq!(t.last_step(), STEP);
}

#[test]
fn wrong_code_rejected_at_step() {
    let valid = code_at(STEP);
    let wrong = if valid == "123456" { "654321" } else { "123456" };
    let mut t = state(1, false, 0);
    assert_eq!(t.verify_at_step(wrong, STEP), Err(VerifyError::InvalidCode));
    assert_eq!(t.last_step(), 0);
}

#[test]
fn replay_rejected_in_same_step() {
    // With reuse forbidden, a second attempt in the same step fails with
    // CodeUsed even though the code itself is still valid for the step.
    let code = code_at(STEP);
    let mut t = state(1, false, 0);
    assert_eq!(t.verify_at_step(&code, STEP), Ok(()));
    assert_eq!(t.verify_at_step(&code, STEP), Err(VerifyError::CodeUsed));
    assert_eq!(t.last_step(), STEP);
}

#[test]
fn replay_allowed_when_reusable() {
    let code = code_at(STEP);
    let mut t = state(1, true, 0);
    assert_eq!(t.verify_at_step(&code, STEP), Ok(()));
    assert_eq!(t.verify_at_step(&code, STEP), Ok(()));
    assert_eq!(t.last_step(), 0);
}

#[test]
fn code_at_window_boundary_accepted() {
    // A code from exactly `window` steps back is still accepted.
    let mut t = state(3, true, 0);
    assert_eq!(t.verify_at_step(&code_at(STEP - 3), STEP), Ok(()));
}

#[test]
fn code_just_outside_window_rejected() {
    // A code from one step further back than the window reaches is not.
    let mut t = state(3, true, 0);
    let stale = code_at(STEP - 4);
    let near = [
        code_at(STEP - 3),
        code_at(STEP - 2),
        code_at(STEP - 1),
        code_at(STEP),
        code_at(STEP + 1),
        code_at(STEP + 2),
        code_at(STEP + 3),
    ];
    if near.contains(&stale) {
        // One-in-a-million collision of six-digit codes: nothing to test.
        return;
    }
    assert_eq!(t.verify_at_step(&stale, STEP), Err(VerifyError::InvalidCode));
}

#[test]
fn new_step_accepted_after_earlier_success() {
    let mut t = state(1, false, 0);
    assert_eq!(t.verify_at_step(&code_at(STEP), STEP), Ok(()));
    assert_eq!(t.verify_at_step(&code_at(STEP + 2), STEP + 2), Ok(()));
    assert_eq!(t.last_step(), STEP + 2);
}

#[test]
fn verify_code_uses_the_clock() {
    let now = SystemTime::now().duration_since(UNIX_EPOCH).unwrap().as_secs();
    let step = now / 30;
    // A wide window keeps this robust against the step advancing between
    // computing the code and checking it.
    let mut t = state(5, true, 0);
    assert_eq!(t.verify_code(&code_at(step)), Ok(()));
    assert!(t.verify(&code_at(step)));
}

#[test]
fn round_trip_preserves_verification_behavior() {
    // A state stored after a successful verification and reloaded from its
    // five fields accepts and rejects exactly as the stored one does.
    let mut t = Totp::from_parts(
        SECRET.to_string(),
        vec!["11111111".to_string(), "22222222".to_string()],
        3,
        false,
        0,
    )
    .unwrap();
    assert_eq!(t.verify_code("22222222"), Ok(()));
    assert_eq!(t.verify_at_step(&code_at(STEP), STEP), Ok(()));

    let mut copy = Totp::from_parts(
        t.secret().to_string(),
        t.scratch_codes().iter().map(|c| c.to_string()).collect(),
        t.window(),
        t.reusable(),
        t.last_step(),
    )
    .unwrap();

    // Same replay rejection, same scratch set, same acceptances.
    assert_eq!(copy.verify_at_step(&code_at(STEP), STEP), Err(VerifyError::CodeUsed));
    assert_eq!(t.verify_at_step(&code_at(STEP), STEP), Err(VerifyError::CodeUsed));
    assert_eq!(copy.verify_code("22222222"), Err(VerifyError::InvalidCode));
    assert_eq!(t.verify_code("22222222"), Err(VerifyError::InvalidCode));
    assert_eq!(copy.verify_code("11111111"), Ok(()));
    assert_eq!(t.verify_code("11111111"), Ok(()));
    assert_eq!(
        copy.verify_at_step(&code_at(STEP + 1), STEP + 1),
        t.verify_at_step(&code_at(STEP + 1), STEP + 1)
    );
}
