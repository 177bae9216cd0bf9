//! The reactions to the engine's events. A handler is called when the engine
//! reports its event, and answers with the operations to perform, in order;
//! their statuses are not looked at.
use crate::engine::{
    ops_view, CallInfo, EngineOp, EngineOpView, IncomingCallHandler, MediaStatus, OnIncommingCall,
    ANSWER_CODE, BRIDGE_BASE_SLOT,
};
use crate::setup::incoming_call_handler;
use vstd::prelude::*;

verus! {

/// What a handler for incoming calls does with a call: the answering one
/// answers it once, with success; the ignoring one does nothing.
pub open spec fn incoming_call_ops(handler: IncomingCallHandler, call_id: i32) -> Seq<EngineOpView> {
    match handler {
        IncomingCallHandler::Answer => seq![EngineOpView::Answer { call_id, code: ANSWER_CODE }],
        IncomingCallHandler::Ignore => seq![],
    }
}

/// What is done when the media of a call change state. The engine's report
/// on the call is fetched first. If it says that the media are active, the
/// call's conference slot is connected to the bridge's base slot and the
/// base slot to the call's slot; otherwise nothing is done.
pub open spec fn media_state_ops(call_id: i32, info: Option<CallInfo>) -> Seq<EngineOpView> {
    match info {
        None => seq![EngineOpView::GetCallInfo { call_id }],
        Some(ci) => if ci.media_status == MediaStatus::Active {
            seq![
                EngineOpView::ConnectAudio { source: ci.conf_slot, sink: BRIDGE_BASE_SLOT },
                EngineOpView::ConnectAudio { source: BRIDGE_BASE_SLOT, sink: ci.conf_slot },
            ]
        } else {
            seq![]
        },
    }
}

/// What is done when a call changes state: the engine's report on the call
/// is fetched, and nothing follows from it.
pub open spec fn call_state_ops(call_id: i32, info: Option<CallInfo>) -> Seq<EngineOpView> {
    match info {
        None => seq![EngineOpView::GetCallInfo { call_id }],
        Some(_) => seq![],
    }
}

/// Under the policy to answer, every incoming call is answered exactly once,
/// with status 200 and nothing else; under the policy to ignore, nothing is
/// done for it.
pub proof fn lemma_incoming_call_policy(behaviour: OnIncommingCall, call_id: i32)
    ensures
        behaviour == OnIncommingCall::AutoAnswer ==> incoming_call_ops(
            incoming_call_handler(behaviour),
            call_id,
        ) == seq![EngineOpView::Answer { call_id, code: 200 }],
        behaviour == OnIncommingCall::Ignore ==> incoming_call_ops(
            incoming_call_handler(behaviour),
            call_id,
        ).len() == 0,
{
}

/// Once the media of a call are reported active, exactly two connections are
/// made: from the call's slot to slot 0, and from slot 0 to the call's slot.
pub proof fn lemma_active_media_connects(call_id: i32, info: CallInfo)
    requires
        info.media_status == MediaStatus::Active,
    ensures
        media_state_ops(call_id, Some(info)) == seq![
            EngineOpView::ConnectAudio { source: info.conf_slot, sink: 0 },
            EngineOpView::ConnectAudio { source: 0, sink: info.conf_slot },
        ],
{
}

/// Answers an incoming call with success.
pub fn on_incoming_call(acc_id: i32, call_id: i32) -> (ops: Vec<EngineOp>)
    ensures
        ops_view(ops@) == incoming_call_ops(IncomingCallHandler::Answer, call_id),
{
    let mut ops: Vec<EngineOp> = Vec::new();
    ops.push(EngineOp::Answer { call_id, code: ANSWER_CODE });
    assert(ops_view(ops@) =~= incoming_call_ops(IncomingCallHandler::Answer, call_id));
    ops
}

/// Leaves an incoming call alone: it rings until the engine gives it up.
pub fn on_incoming_call_ignore(acc_id: i32, call_id: i32) -> (ops: Vec<EngineOp>)
    ensures
        ops_view(ops@) == incoming_call_ops(IncomingCallHandler::Ignore, call_id),
{
    let ops: Vec<EngineOp> = Vec::new();
    assert(ops_view(ops@) =~= incoming_call_ops(IncomingCallHandler::Ignore, call_id));
    ops
}

/// Runs the handler for incoming calls that the engine was initialized with.
pub fn handle_incoming_call(handler: IncomingCallHandler, acc_id: i32, call_id: i32) -> (ops: Vec<
    EngineOp,
>)
    ensures
        ops_view(ops@) == incoming_call_ops(handler, call_id),
{
    match handler {
        IncomingCallHandler::Answer => on_incoming_call(acc_id, call_id),
        IncomingCallHandler::Ignore => on_incoming_call_ignore(acc_id, call_id),
    }
}

/// Reacts to a change in the media of a call.
///
/// `info` is the engine's report on the call, once it has been fetched.
pub fn on_call_media_state(call_id: i32, info: Option<CallInfo>) -> (ops: Vec<EngineOp>)
    ensures
        ops_view(ops@) == media_state_ops(call_id, info),
{
    let mut ops: Vec<EngineOp> = Vec::new();
    match info {
        None => {
            ops.push(EngineOp::GetCallInfo { call_id });
        },
        Some(ci) => {
            if ci.media_status == MediaStatus::Active {
                ops.push(EngineOp::ConnectAudio { source: ci.conf_slot, sink: BRIDGE_BASE_SLOT });
                ops.push(EngineOp::ConnectAudio { source: BRIDGE_BASE_SLOT, sink: ci.conf_slot });
            }
        },
    }
    assert(ops_view(ops@) =~= media_state_ops(call_id, info));
    ops
}

/// Reacts to a change in the state of a call.
///
/// `info` is the engine's report on the call, once it has been fetched.
pub fn on_call_state(call_id: i32, info: Option<CallInfo>) -> (ops: Vec<EngineOp>)
    ensures
        ops_view(ops@) == call_state_ops(call_id, info),
{
    let mut ops: Vec<EngineOp> = Vec::new();
    if info.is_none() {
        ops.push(EngineOp::GetCallInfo { call_id });
    }
    assert(ops_view(ops@) =~= call_state_ops(call_id, info));
    ops
}

} // verus!
