use eztotp::{Totp, VerifyError};

fn secret32() -> String {
    "ABCDEFGHIJKLMNOPQRSTUVWXYZ234567".to_string()
}

fn codes(v: Vec<&str>) -> Vec<String> {
    v.into_iter().map(|c| c.to_string()).collect()
}

#[test]
fn new_has_defaults() {
    let t = Totp::new();
    assert_eq!(t.secret().len(), 32);
    assert_eq!(t.scratch_codes().len(), 8);
    assert_eq!(t.window(), 1);
    assert!(!t.reusable());
    assert_eq!(t.last_step(), 0);
}

#[test]
fn new_secret_is_base32() {
    let t = Totp::new();
    for c in t.secret().chars() {
        assert!(c.is_ascii_uppercase() || ('2'..='7').contains(&c));
    }
}

#[test]
fn scratch_codes_unique_and_well_shaped() {
    let t = Totp::new().with_scratch(50);
    let codes = t.scratch_codes();
    assert_eq!(codes.len(), 50);
    for (i, c) in codes.iter().enumerate() {
        assert_eq!(c.len(), 8);
        assert!(c.chars().all(|ch| ch.is_ascii_digit()));
        assert!(c.parse::<u64>().unwrap() <= 99999999);
        for d in codes.iter().skip(i + 1) {
            assert_ne!(c, d);
        }
    }
}

#[test]
fn with_scratch_zero_disables() {
    let t = Totp::new().with_scratch(0);
    assert!(t.scratch_codes().is_empty());
    let mut t = t;
    assert_eq!(t.verify_code("00000000"), Err(VerifyError::InvalidCode));
}

#[test]
fn scratch_code_consumed_once() {
    // create() with the default scratch count of 8; using the first code
    // succeeds and shrinks the set; the exact same call then fails.
    let mut t = Totp::new();
    let snapshot = t.scratch_codes();
    assert_eq!(snapshot.len(), 8);
    let code = snapshot[0].to_string();
    assert_eq!(t.verify_code(&code), Ok(()));
    assert_eq!(t.scratch_codes().len(), 7);
    assert!(!t.scratch_codes().contains(&code.as_str()));
    assert_eq!(t.verify_code(&code), Err(VerifyError::InvalidCode));
    assert_eq!(t.scratch_codes().len(), 7);
}

#[test]
fn unknown_scratch_code_rejected_without_change() {
    let scratch = codes(vec!["11111111", "22222222", "33333333"]);
    let mut t = Totp::from_parts(secret32(), scratch, 1, false, 0).unwrap();
    assert_eq!(t.verify_code("00000000"), Err(VerifyError::InvalidCode));
    let left = t.scratch_codes();
    assert_eq!(left, vec!["11111111", "22222222", "33333333"]);
}

#[test]
fn verify_collapses_failure_to_false() {
    let scratch = codes(vec!["11111111"]);
    let mut t = Totp::from_parts(secret32(), scratch, 1, false, 0).unwrap();
    assert!(!t.verify("00000000"));
    assert!(t.verify("11111111"));
    assert!(!t.verify("11111111"));
}

#[test]
fn reconfiguration_keeps_other_fields() {
    let t = Totp::new().with_window(7).with_reusable(true);
    assert_eq!(t.window(), 7);
    assert!(t.reusable());
    assert_eq!(t.scratch_codes().len(), 8);
    let s = t.secret().to_string();
    let t = t.with_scratch(3);
    assert_eq!(t.scratch_codes().len(), 3);
    assert_eq!(t.window(), 7);
    assert!(t.reusable());
    assert_eq!(t.secret(), s);
}

#[test]
fn uri_has_expected_shape() {
    let t = Totp::from_parts(secret32(), Vec::new(), 1, false, 0).unwrap();
    assert_eq!(
        t.uri("alice", "example"),
        "otpauth://totp/alice?secret=ABCDEFGHIJKLMNOPQRSTUVWXYZ234567&issuer=example"
    );
}

#[test]
fn from_parts_rejects_invalid_fields() {
    assert!(Totp::from_parts(String::new(), Vec::new(), 1, false, 0).is_none());
    let short = codes(vec!["1234567"]);
    assert!(Totp::from_parts(secret32(), short, 1, false, 0).is_none());
    let alpha = codes(vec!["1234567a"]);
    assert!(Totp::from_parts(secret32(), alpha, 1, false, 0).is_none());
    let long = codes(vec!["123456789"]);
    assert!(Totp::from_parts(secret32(), long, 1, false, 0).is_none());
    let dup = codes(vec!["11111111", "11111111"]);
    assert!(Totp::from_parts(secret32(), dup, 1, false, 0).is_none());
}

#[test]
fn from_parts_round_trip_preserves_fields() {
    let t = Totp::new().with_window(4).with_reusable(true);
    let copy = Totp::from_parts(
        t.secret().to_string(),
        t.scratch_codes().iter().map(|c| c.to_string()).collect(),
        t.window(),
        t.reusable(),
        t.last_step(),
    )
    .unwrap();
    assert_eq!(copy.secret(), t.secret());
    assert_eq!(copy.scratch_codes(), t.scratch_codes());
    assert_eq!(copy.window(), t.window());
    assert_eq!(copy.reusable(), t.reusable());
    assert_eq!(copy.last_step(), t.last_step());
}

#[test]
fn error_tags_are_stable() {
    assert_eq!(VerifyError::Time.as_u8(), 1);
    assert_eq!(VerifyError::InvalidCode.as_u8(), 2);
    assert_eq!(VerifyError::CodeUsed.as_u8(), 3);
    assert_eq!(VerifyError::Time, VerifyError::Time);
    assert_ne!(VerifyError::InvalidCode, VerifyError::CodeUsed);
}

#[test]
fn default_matches_new() {
    let t = Totp::default();
    assert_eq!(t.secret().len(), 32);
    assert_eq!(t.scratch_codes().len(), 8);
    assert_eq!(t.window(), 1);
    assert!(!t.reusable());
}
