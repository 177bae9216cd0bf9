use telephony::{
    accountSetup, make_pj_str_t, make_sip_uri, AccountConfig, Credential, CredentialData,
    EngineOp, ErrorKind, Step, TelephonyError, REALM_GLOBAL,
};

fn account(u: &str, h: &str, p: &str, replies: &[i32]) -> Step {
    accountSetup(u.to_string(), h.to_string(), p.to_string(), replies)
}

fn text(s: &str) -> telephony::EngineString {
    make_pj_str_t(s.to_string()).unwrap()
}

#[test]
fn the_realm_is_fixed() {
    assert_eq!(REALM_GLOBAL, "asterisk");
}

#[test]
fn sip_uri_joins_user_and_host() {
    assert_eq!(make_sip_uri("alice", "pbx.example.com"), "sip:alice@pbx.example.com");
    assert_eq!(make_sip_uri("", ""), "sip:@");
    assert_eq!(make_sip_uri("5551234", "10.0.0.1"), "sip:5551234@10.0.0.1");
}

#[test]
fn account_setup_asks_for_the_derived_configuration() {
    let expected = EngineOp::RegisterAccount {
        config: AccountConfig {
            id: text("sip:alice@pbx.example.com"),
            reg_uri: text("sip:pbx.example.com"),
            cred_count: 1,
            cred_info: vec![Credential {
                realm: text("asterisk"),
                scheme: text("pbx.example.com"),
                username: text("alice"),
                data_type: CredentialData::PlainPassword,
                data: text("secret"),
            }],
        },
        make_default: true,
    };
    assert_eq!(account("alice", "pbx.example.com", "secret", &[]), Step::Perform(expected));
}

#[test]
fn account_setup_marshals_every_field_with_its_length() {
    match account("bob", "h", "pw", &[]) {
        Step::Perform(EngineOp::RegisterAccount { config, make_default }) => {
            assert!(make_default);
            assert_eq!(config.id.buffer, b"sip:bob@h\0".to_vec());
            assert_eq!(config.id.slen, 9);
            assert_eq!(config.reg_uri.buffer, b"sip:h\0".to_vec());
            assert_eq!(config.reg_uri.slen, 5);
            assert_eq!(config.cred_count, 1);
            assert_eq!(config.cred_info.len(), 1);
            assert_eq!(config.cred_info[0].realm.buffer, b"asterisk\0".to_vec());
            assert_eq!(config.cred_info[0].scheme.buffer, b"h\0".to_vec());
            assert_eq!(config.cred_info[0].username.buffer, b"bob\0".to_vec());
            assert_eq!(config.cred_info[0].data.buffer, b"pw\0".to_vec());
            assert_eq!(config.cred_info[0].data_type, CredentialData::PlainPassword);
        }
        other => panic!("no registration: {:?}", other),
    }
}

#[test]
fn account_setup_judges_the_status() {
    assert_eq!(account("alice", "pbx.example.com", "secret", &[0]), Step::Finished(Ok(0)));
    assert_eq!(
        account("alice", "pbx.example.com", "secret", &[171039]),
        Step::Finished(Err(TelephonyError::AccountCreationError(
            "Error Adding Account".to_string()
        )))
    );
}

#[test]
fn account_failure_is_not_fatal() {
    match account("alice", "pbx.example.com", "secret", &[1]) {
        Step::Finished(Err(e)) => {
            assert_eq!(e.kind(), ErrorKind::AccountCreationError);
            assert!(!e.is_fatal());
        }
        other => panic!("no failure: {:?}", other),
    }
}

#[test]
fn null_in_any_field_is_an_input_error_before_the_engine_is_asked() {
    let cases = [
        ("al\0ice", "pbx.example.com", "secret"),
        ("alice", "pbx\0.example.com", "secret"),
        ("alice", "pbx.example.com", "sec\0ret"),
        ("\0", "\0", "\0"),
    ];
    let replies: [&[i32]; 4] = [&[], &[0], &[1], &[0, 0]];
    for (u, h, p) in cases {
        for r in replies {
            match account(u, h, p, r) {
                Step::Finished(Err(e)) => assert_eq!(e.kind(), ErrorKind::InputValueError),
                other => panic!("not rejected: {:?}", other),
            }
        }
    }
}

#[test]
fn the_input_error_quotes_the_first_text_that_failed() {
    assert_eq!(
        account("al\0ice", "pbx", "secret", &[]),
        Step::Finished(Err(TelephonyError::InputValueError(
            "Could not use input value: 'sip:al\0ice@pbx' Contained Null Byte".to_string()
        )))
    );
    assert_eq!(
        account("alice", "p\0bx", "secret", &[]),
        Step::Finished(Err(TelephonyError::InputValueError(
            "Could not use input value: 'sip:alice@p\0bx' Contained Null Byte".to_string()
        )))
    );
    assert_eq!(
        account("alice", "pbx", "\0secret", &[]),
        Step::Finished(Err(TelephonyError::InputValueError(
            "Could not use input value: '\0secret' Contained Null Byte".to_string()
        )))
    );
    assert_eq!(
        account("alice", "p\0bx", "\0secret", &[]),
        Step::Finished(Err(TelephonyError::InputValueError(
            "Could not use input value: 'sip:alice@p\0bx' Contained Null Byte".to_string()
        )))
    );
}
