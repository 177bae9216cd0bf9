use telephony::{
    accountSetup, destroy_telephony, hangup_calls, initialize_telephony, make_call, send_dtmf,
    EngineOp, OnIncommingCall, Step, TelephonyError, TransportMode, TransportType,
};

/// Runs an operation against an engine that answers every request with the
/// next status of `script`, and records what it was asked.
fn run_scripted(
    asked: &mut Vec<EngineOp>,
    script: &[i32],
    operation: &dyn Fn(&[i32]) -> Step,
) -> Result<i8, TelephonyError> {
    let mut replies: Vec<i32> = Vec::new();
    loop {
        match operation(&replies) {
            Step::Perform(op) => {
                asked.push(op);
                replies.push(script[replies.len()]);
            }
            Step::Finished(result) => return result,
        }
    }
}

#[test]
fn a_session_from_bring_up_to_destruction() {
    let mut asked: Vec<EngineOp> = Vec::new();
    let fine = [0i32; 4];

    let up = run_scripted(&mut asked, &fine, &|r| {
        initialize_telephony(3, OnIncommingCall::AutoAnswer, 5060, TransportMode::UDP, r)
    });
    assert_eq!(up, Ok(0));
    assert_eq!(asked.len(), 4);
    assert_eq!(asked[0], EngineOp::Create);
    match &asked[1] {
        EngineOp::Init { callbacks, console_level } => {
            assert_eq!(*console_level, 3);
            assert_eq!(callbacks.on_incoming_call, telephony::IncomingCallHandler::Answer);
        }
        other => panic!("not an initialization: {:?}", other),
    }
    assert_eq!(
        asked[2],
        EngineOp::AddTransport { transport_type: TransportType::Udp, port: 5060 }
    );
    assert_eq!(asked[3], EngineOp::Start);

    asked.clear();
    let registered = run_scripted(&mut asked, &fine, &|r| {
        accountSetup("alice".to_string(), "pbx.example.com".to_string(), "secret".to_string(), r)
    });
    assert_eq!(registered, Ok(0));
    assert_eq!(asked.len(), 1);
    match &asked[0] {
        EngineOp::RegisterAccount { config, make_default } => {
            assert!(*make_default);
            assert_eq!(&config.id.buffer[..config.id.slen], b"sip:alice@pbx.example.com");
        }
        other => panic!("not a registration: {:?}", other),
    }

    asked.clear();
    let dialed = run_scripted(&mut asked, &fine, &|r| make_call("5551234", "pbx.example.com", r));
    assert_eq!(dialed, Ok(0));
    assert_eq!(asked.len(), 1);
    match &asked[0] {
        EngineOp::PlaceCall { account, uri } => {
            assert_eq!(*account, 0);
            assert_eq!(&uri.buffer[..uri.slen], b"sip:5551234@pbx.example.com");
        }
        other => panic!("not a call: {:?}", other),
    }

    asked.clear();
    let toned = run_scripted(&mut asked, &fine, &|r| send_dtmf(5, r));
    assert_eq!(toned, Ok(0));
    assert_eq!(asked.len(), 1);
    match &asked[0] {
        EngineOp::SendDtmf { call_id, request } => {
            assert_eq!(*call_id, 0);
            assert_eq!(&request.digits.buffer[..request.digits.slen], b"5");
        }
        other => panic!("not a DTMF request: {:?}", other),
    }

    assert_eq!(hangup_calls(), vec![EngineOp::HangupAll]);

    asked.clear();
    let down = run_scripted(&mut asked, &fine, &|r| destroy_telephony(r));
    assert_eq!(down, Ok(0));
    assert_eq!(asked, vec![EngineOp::Destroy]);
}

#[test]
fn a_failing_stage_ends_the_bring_up_and_nothing_later_is_asked() {
    let stage_ops = 4usize;
    for failing in 0..stage_ops {
        let mut script = [0i32; 4];
        script[failing] = 70001;
        let mut asked: Vec<EngineOp> = Vec::new();
        let up = run_scripted(&mut asked, &script, &|r| {
            initialize_telephony(3, OnIncommingCall::Ignore, 5060, TransportMode::TLS, r)
        });
        assert!(up.is_err());
        assert_eq!(asked.len(), failing + 1);
    }
}
