use telephony::{
    callbacks_for, handle_incoming_call, on_call_media_state, on_call_state, on_incoming_call,
    on_incoming_call_ignore, CallInfo, EngineOp, IncomingCallHandler, MediaStatus,
    OnIncommingCall,
};

#[test]
fn auto_answer_answers_each_call_once_with_200() {
    let handler = callbacks_for(OnIncommingCall::AutoAnswer).on_incoming_call;
    for call_id in [0i32, 1, 7, -1, i32::MAX] {
        assert_eq!(
            handle_incoming_call(handler, 0, call_id),
            vec![EngineOp::Answer { call_id, code: 200 }]
        );
    }
}

#[test]
fn ignore_policy_answers_nothing() {
    let handler = callbacks_for(OnIncommingCall::Ignore).on_incoming_call;
    for call_id in [0i32, 1, 7, -1, i32::MAX] {
        assert_eq!(handle_incoming_call(handler, 3, call_id), vec![]);
    }
}

#[test]
fn the_two_incoming_call_handlers() {
    assert_eq!(on_incoming_call(2, 5), vec![EngineOp::Answer { call_id: 5, code: 200 }]);
    assert_eq!(on_incoming_call_ignore(2, 5), vec![]);
    assert_eq!(handle_incoming_call(IncomingCallHandler::Answer, 2, 5), on_incoming_call(2, 5));
    assert_eq!(
        handle_incoming_call(IncomingCallHandler::Ignore, 2, 5),
        on_incoming_call_ignore(2, 5)
    );
}

#[test]
fn media_state_first_fetches_the_call_info() {
    assert_eq!(on_call_media_state(4, None), vec![EngineOp::GetCallInfo { call_id: 4 }]);
}

#[test]
fn active_media_are_connected_both_ways_to_slot_zero() {
    let info = CallInfo { media_status: MediaStatus::Active, conf_slot: 9 };
    assert_eq!(
        on_call_media_state(4, Some(info)),
        vec![
            EngineOp::ConnectAudio { source: 9, sink: 0 },
            EngineOp::ConnectAudio { source: 0, sink: 9 },
        ]
    );
}

#[test]
fn media_that_are_not_active_are_left_alone() {
    for status in [
        MediaStatus::NoMedia,
        MediaStatus::LocalHold,
        MediaStatus::RemoteHold,
        MediaStatus::Error,
    ] {
        let info = CallInfo { media_status: status, conf_slot: 9 };
        assert_eq!(on_call_media_state(4, Some(info)), vec![]);
    }
}

#[test]
fn call_state_only_fetches_the_call_info() {
    assert_eq!(on_call_state(6, None), vec![EngineOp::GetCallInfo { call_id: 6 }]);
    let info = CallInfo { media_status: MediaStatus::Active, conf_slot: 2 };
    assert_eq!(on_call_state(6, Some(info)), vec![]);
}
