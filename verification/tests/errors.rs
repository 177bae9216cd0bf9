use telephony::{ErrorKind, TelephonyError};

fn one_of_each() -> Vec<(TelephonyError, ErrorKind, &'static str, bool)> {
    vec![
        (
            TelephonyError::CreationError("a".to_string()),
            ErrorKind::CreationError,
            "Cannot create a Telephony instance",
            true,
        ),
        (
            TelephonyError::ConfigError("b".to_string()),
            ErrorKind::ConfigError,
            "Internal Config invalid",
            false,
        ),
        (
            TelephonyError::InitializationError("c".to_string()),
            ErrorKind::InitializationError,
            "Cannot Initialize Telephony instance",
            true,
        ),
        (
            TelephonyError::TransportError("d".to_string()),
            ErrorKind::TransportError,
            "Cannot Initialize Telephony-Transport",
            true,
        ),
        (
            TelephonyError::DTMFError("e".to_string()),
            ErrorKind::DTMFError,
            "Cannot Send DTMF Tone",
            false,
        ),
        (
            TelephonyError::CallCreationError("f".to_string()),
            ErrorKind::CallCreationError,
            "Could not Create Call",
            false,
        ),
        (
            TelephonyError::AccountCreationError("g".to_string()),
            ErrorKind::AccountCreationError,
            "Account Creation Error",
            false,
        ),
        (
            TelephonyError::TelephonyStartError("h".to_string()),
            ErrorKind::TelephonyStartError,
            "Telephony Start Error",
            true,
        ),
        (
            TelephonyError::TelephonyDestroyError("i".to_string()),
            ErrorKind::TelephonyDestroyError,
            "Telephony destruction Error",
            false,
        ),
        (
            TelephonyError::InputValueError("j".to_string()),
            ErrorKind::InputValueError,
            "Input Error",
            false,
        ),
    ]
}

#[test]
fn every_error_reports_its_kind() {
    for (error, kind, _, _) in one_of_each() {
        assert_eq!(error.kind(), kind);
    }
}

#[test]
fn every_error_keeps_its_detail() {
    let details = ["a", "b", "c", "d", "e", "f", "g", "h", "i", "j"];
    for (i, (error, _, _, _)) in one_of_each().into_iter().enumerate() {
        assert_eq!(error.detail().as_str(), details[i]);
    }
}

#[test]
fn every_error_has_its_headline() {
    for (error, _, headline, _) in one_of_each() {
        assert_eq!(error.description(), headline);
    }
}

#[test]
fn bring_up_failures_are_fatal_and_no_others() {
    for (error, kind, _, fatal) in one_of_each() {
        assert_eq!(error.is_fatal(), fatal);
        assert_eq!(kind.is_fatal(), fatal);
    }
}

#[test]
fn the_kinds_are_ten_and_distinct() {
    let all = one_of_each();
    assert_eq!(all.len(), 10);
    for i in 0..all.len() {
        for j in 0..all.len() {
            assert_eq!(all[i].1 == all[j].1, i == j);
        }
    }
}
