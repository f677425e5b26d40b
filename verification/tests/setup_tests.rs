use lib::{SetupVerification, VerificationCheck, VerificationResult};

#[test]
fn test_setup_verification_empty() {
    let mut sv = SetupVerification::new();
    let result = sv.verify();
    assert_eq!(result, VerificationResult::Ready);
    assert!(sv.is_verified());
}

#[test]
fn test_setup_verification_critical_failure() {
    let mut sv = SetupVerification::new();
    sv.add_check(VerificationCheck::pass("cache-ready"));
    sv.add_check(VerificationCheck::fail("db-connected", "Connection refused").critical());
    let result = sv.verify();
    match result {
        VerificationResult::NotReady { failures } => {
            assert_eq!(failures.len(), 1);
            assert!(failures[0].contains("db-connected"));
        }
        _ => panic!("Expected NotReady"),
    }
}

#[test]
fn test_verification_check_with_description() {
    let check = VerificationCheck::pass("db").with_description("Check database connectivity");
    assert_eq!(check.description, "Check database connectivity");
}

#[test]
fn test_setup_verification_default() {
    let sv = SetupVerification::default();
    assert_eq!(sv.check_count(), 0);
}

#[test]
fn all_passing_is_ready() {
    let mut sv = SetupVerification::new();
    sv.add_check(VerificationCheck::pass("cache-ready"));
    sv.add_check(VerificationCheck::pass("db-connected"));
    sv.add_check(VerificationCheck::pass("config-loaded"));
    assert_eq!(sv.verify(), VerificationResult::Ready);
    assert_eq!(sv.passing_count(), 3);
    assert_eq!(sv.failing_count(), 0);
    assert_eq!(sv.check_count(), 3);
}

#[test]
fn non_critical_failure_is_partially_ready() {
    let mut sv = SetupVerification::new();
    sv.add_check(VerificationCheck::pass("cache-ready"));
    sv.add_check(VerificationCheck::fail("metrics-exporter", "Not critical"));
    assert_eq!(
        sv.verify(),
        VerificationResult::PartiallyReady { warnings: vec!["metrics-exporter: Not critical".to_string()] }
    );
    assert_eq!(sv.passing_count(), 1);
    assert_eq!(sv.failing_count(), 1);
}

#[test]
fn not_ready_lists_every_failure() {
    let mut sv = SetupVerification::new();
    sv.add_check(VerificationCheck::fail("a", "first"));
    sv.add_check(VerificationCheck::pass("b"));
    sv.add_check(VerificationCheck::fail("c", "third").critical());
    assert_eq!(
        sv.verify(),
        VerificationResult::NotReady {
            failures: vec!["a: first".to_string(), "c: third".to_string()]
        }
    );
    assert_eq!(sv.passing_count() + sv.failing_count(), sv.check_count());
}

#[test]
fn critical_passing_check_is_fine() {
    let mut sv = SetupVerification::new();
    sv.add_check(VerificationCheck::pass("a").critical());
    assert_eq!(sv.verify(), VerificationResult::Ready);
}

#[test]
fn adding_a_check_resets_verification() {
    let mut sv = SetupVerification::default();
    assert!(!sv.is_verified());
    sv.verify();
    assert!(sv.is_verified());
    sv.add_check(VerificationCheck::pass("x"));
    assert!(!sv.is_verified());
    sv.verify();
    assert!(sv.is_verified());
}

#[test]
fn check_description_starts_empty() {
    let check = VerificationCheck::fail("db", "down");
    assert_eq!(check.description, "");
}

#[test]
fn verified_follows_last_call() {
    let mut sv = SetupVerification::new();
    assert!(!sv.is_verified());
    sv.add_check(VerificationCheck::pass("a"));
    assert!(!sv.is_verified());
    sv.verify();
    sv.verify();
    assert!(sv.is_verified());
    sv.add_check(VerificationCheck::fail("b", "c"));
    assert!(!sv.is_verified());
    assert_eq!(sv.check_count(), 2);
}
