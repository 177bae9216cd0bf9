//! Bringing the engine up and taking it down: create, initialize, add the
//! transport, start; and destroy.
use crate::engine::{
    ops_view, settle, settled, Callbacks, EngineOp, EngineOpView, IncomingCallHandler, OnIncommingCall, Step,
    StepView,
    TransportMode, PJ_SUCCESS,
};
use crate::error::{ErrorKind, TelephonyError, TelephonyErrorView};
use vstd::prelude::*;
use vstd::slice::slice_subrange;
use vstd::string::StringExecFns;

verus! {

/// The handler that a policy for incoming calls selects.
pub open spec fn incoming_call_handler(behaviour: OnIncommingCall) -> IncomingCallHandler {
    match behaviour {
        OnIncommingCall::AutoAnswer => IncomingCallHandler::Answer,
        OnIncommingCall::Ignore => IncomingCallHandler::Ignore,
    }
}

/// The handlers the engine is initialized with: the one the policy selects
/// for incoming calls, and the fixed ones for media state and call state.
pub open spec fn installed_callbacks(behaviour: OnIncommingCall) -> Callbacks {
    Callbacks {
        on_incoming_call: incoming_call_handler(behaviour),
        on_call_media_state: true,
        on_call_state: true,
    }
}

/// Selects the handlers the engine is initialized with.
pub fn callbacks_for(behaviour: OnIncommingCall) -> (callbacks: Callbacks)
    ensures
        callbacks == installed_callbacks(behaviour),
{
    let on_incoming_call = match behaviour {
        OnIncommingCall::AutoAnswer => IncomingCallHandler::Answer,
        OnIncommingCall::Ignore => IncomingCallHandler::Ignore,
    };
    Callbacks { on_incoming_call, on_call_media_state: true, on_call_state: true }
}

pub open spec fn creation_failure() -> TelephonyErrorView {
    TelephonyErrorView {
        kind: ErrorKind::CreationError,
        detail: "Could not Create Telephony Instance"@,
    }
}

pub open spec fn initialization_failure() -> TelephonyErrorView {
    TelephonyErrorView { kind: ErrorKind::InitializationError, detail: "Error in pjsua_init"@ }
}

pub open spec fn transport_failure() -> TelephonyErrorView {
    TelephonyErrorView { kind: ErrorKind::TransportError, detail: "Error of some kind"@ }
}

pub open spec fn start_failure() -> TelephonyErrorView {
    TelephonyErrorView {
        kind: ErrorKind::TelephonyStartError,
        detail: "Could not Start Telephony"@,
    }
}

pub open spec fn destroy_failure() -> TelephonyErrorView {
    TelephonyErrorView {
        kind: ErrorKind::TelephonyDestroyError,
        detail: "Error Occured during Telephony Destruction"@,
    }
}

/// The operation that initializes the engine.
pub open spec fn init_op(loglevel: u32, behaviour: OnIncommingCall) -> EngineOpView {
    EngineOpView::Init { callbacks: installed_callbacks(behaviour), console_level: loglevel }
}

/// The operation that adds the transport.
pub open spec fn transport_op(port: u32, mode: TransportMode) -> EngineOpView {
    EngineOpView::AddTransport { transport_type: mode.engine_type(), port }
}

/// What `init` does: the engine is created, then initialized; the first
/// status that is not success ends it with the error of that stage.
pub open spec fn init_plan(loglevel: u32, behaviour: OnIncommingCall, replies: Seq<i32>) -> StepView {
    if replies.len() == 0 {
        StepView::Perform(EngineOpView::Create)
    } else if replies[0] != PJ_SUCCESS {
        StepView::Finished(Err(creation_failure()))
    } else {
        settled(init_op(loglevel, behaviour), replies.skip(1), initialization_failure())
    }
}

/// What `initialize_telephony` does: the two stages of `init`, then the
/// transport, then the start, each only after the one before has succeeded.
pub open spec fn initialize_plan(
    loglevel: u32,
    behaviour: OnIncommingCall,
    port: u32,
    mode: TransportMode,
    replies: Seq<i32>,
) -> StepView {
    if init_plan(loglevel, behaviour, replies) != StepView::Finished(Ok(0i8)) {
        init_plan(loglevel, behaviour, replies)
    } else if settled(transport_op(port, mode), replies.skip(2), transport_failure())
        != StepView::Finished(Ok(0i8)) {
        settled(transport_op(port, mode), replies.skip(2), transport_failure())
    } else {
        settled(EngineOpView::Start, replies.skip(3), start_failure())
    }
}

/// The operation of each stage of the bring-up, counted from zero.
pub open spec fn stage_op(
    loglevel: u32,
    behaviour: OnIncommingCall,
    port: u32,
    mode: TransportMode,
    stage: int,
) -> EngineOpView {
    if stage == 0 {
        EngineOpView::Create
    } else if stage == 1 {
        init_op(loglevel, behaviour)
    } else if stage == 2 {
        transport_op(port, mode)
    } else {
        EngineOpView::Start
    }
}

/// The error of each stage of the bring-up, counted from zero.
pub open spec fn stage_failure(stage: int) -> TelephonyErrorView {
    if stage == 0 {
        creation_failure()
    } else if stage == 1 {
        initialization_failure()
    } else if stage == 2 {
        transport_failure()
    } else {
        start_failure()
    }
}

/// The first `count` statuses are all success.
pub open spec fn all_succeeded(replies: Seq<i32>, count: int) -> bool {
    forall|j: int| 0 <= j < count && j < replies.len() ==> replies[j] == PJ_SUCCESS
}

/// The bring-up succeeds exactly when all four stages have reported success.
/// While every stage so far has succeeded, the next stage is asked for. A
/// stage that fails after the stages before it succeeded ends the bring-up
/// with the error of that stage, whatever statuses follow: no later stage is
/// asked for.
pub proof fn lemma_initialize_stages(
    loglevel: u32,
    behaviour: OnIncommingCall,
    port: u32,
    mode: TransportMode,
    replies: Seq<i32>,
)
    ensures
        initialize_plan(loglevel, behaviour, port, mode, replies) == StepView::Finished(Ok(0i8))
            <==> replies.len() >= 4 && all_succeeded(replies, 4),
        replies.len() < 4 && all_succeeded(replies, 4) ==> initialize_plan(
            loglevel,
            behaviour,
            port,
            mode,
            replies,
        ) == StepView::Perform(stage_op(loglevel, behaviour, port, mode, replies.len() as int)),
        forall|k: int|
            0 <= k < 4 && k < replies.len() && replies[k] != PJ_SUCCESS && all_succeeded(replies, k)
                ==> initialize_plan(loglevel, behaviour, port, mode, replies)
                == StepView::Finished(Err(#[trigger] stage_failure(k))),
{
    let plan = initialize_plan(loglevel, behaviour, port, mode, replies);
    if replies.len() >= 2 {
        assert(replies.skip(1)[0] == replies[1]);
    }
    if replies.len() >= 3 {
        assert(replies.skip(2)[0] == replies[2]);
    }
    if replies.len() >= 4 {
        assert(replies.skip(3)[0] == replies[3]);
    }
    assert forall|k: int|
        0 <= k < 4 && k < replies.len() && replies[k] != PJ_SUCCESS && all_succeeded(
            replies,
            k,
        ) implies plan == StepView::Finished(Err(#[trigger] stage_failure(k))) by {
        if k >= 1 {
            assert(replies[0] == PJ_SUCCESS);
        }
        if k >= 2 {
            assert(replies[1] == PJ_SUCCESS);
        }
        if k >= 3 {
            assert(replies[2] == PJ_SUCCESS);
        }
    }
    if replies.len() >= 4 && all_succeeded(replies, 4) {
        assert(replies[0] == PJ_SUCCESS && replies[1] == PJ_SUCCESS && replies[2] == PJ_SUCCESS
            && replies[3] == PJ_SUCCESS);
    }
    if replies.len() < 4 && all_succeeded(replies, 4) {
        if replies.len() >= 1 {
            assert(replies[0] == PJ_SUCCESS);
        }
        if replies.len() >= 2 {
            assert(replies[1] == PJ_SUCCESS);
        }
        if replies.len() >= 3 {
            assert(replies[2] == PJ_SUCCESS);
        }
    }
}

/// Creates the engine and initializes it with the handlers that
/// `incomming_call_behaviour` selects and with `loglevel` as the verbosity
/// of console logging.
///
/// `replies` holds the statuses the engine has returned so far, first that
/// of the creation, then that of the initialization.
pub fn init(loglevel: u32, incomming_call_behaviour: OnIncommingCall, replies: &[i32]) -> (step:
    Step)
    ensures
        step@ == init_plan(loglevel, incomming_call_behaviour, replies@),
{
    if replies.len() == 0 {
        return Step::Perform(EngineOp::Create);
    }
    if replies[0] != PJ_SUCCESS {
        return Step::Finished(
            Err(TelephonyError::CreationError("Could not Create Telephony Instance".to_owned())),
        );
    }
    let callbacks = callbacks_for(incomming_call_behaviour);
    settle(
        EngineOp::Init { callbacks, console_level: loglevel },
        slice_subrange(replies, 1, replies.len()),
        TelephonyError::InitializationError("Error in pjsua_init".to_owned()),
    )
}

/// Adds the one transport of the session: the engine's transport type for
/// `mode`, on `port`.
///
/// `replies` holds the status the engine has returned for it, if any.
pub fn add_transport(port: u32, mode: TransportMode, replies: &[i32]) -> (step: Step)
    ensures
        step@ == settled(transport_op(port, mode), replies@, transport_failure()),
{
    let transportMode = mode.transport_type();
    settle(
        EngineOp::AddTransport { transport_type: transportMode, port },
        replies,
        TelephonyError::TransportError("Error of some kind".to_owned()),
    )
}

/// Starts the engine.
///
/// `replies` holds the status the engine has returned for it, if any.
pub fn start_telephony(replies: &[i32]) -> (step: Step)
    ensures
        step@ == settled(EngineOpView::Start, replies@, start_failure()),
{
    settle(
        EngineOp::Start,
        replies,
        TelephonyError::TelephonyStartError("Could not Start Telephony".to_owned()),
    )
}

/// Tells whether a step is the successful end of an operation.
fn succeeded(step: &Step) -> (done: bool)
    ensures
        done == (step@ == StepView::Finished(Ok(0i8))),
{
    match step {
        Step::Finished(Ok(code)) => *code == 0,
        _ => false,
    }
}

/// Brings the engine up: create and initialize, add the transport, start.
/// The stages run in this order, and the first one that fails ends the
/// sequence with its error; nothing is undone.
///
/// `replies` holds the statuses the engine has returned so far, one for each
/// operation performed, in order.
pub fn initialize_telephony(
    logLevel: u32,
    incommingCallBehaviour: OnIncommingCall,
    port: u32,
    transportmode: TransportMode,
    replies: &[i32],
) -> (step: Step)
    ensures
        step@ == initialize_plan(logLevel, incommingCallBehaviour, port, transportmode, replies@),
{
    let initResult = init(logLevel, incommingCallBehaviour, replies);
    if !succeeded(&initResult) {
        return initResult;
    }
    let transportResult = add_transport(port, transportmode, slice_subrange(replies, 2, replies.len()));
    if !succeeded(&transportResult) {
        return transportResult;
    }
    start_telephony(slice_subrange(replies, 3, replies.len()))
}

/// Destroys the engine.
///
/// `replies` holds the status the engine has returned for it, if any.
pub fn destroy_telephony(replies: &[i32]) -> (step: Step)
    ensures
        step@ == settled(EngineOpView::Destroy, replies@, destroy_failure()),
{
    settle(
        EngineOp::Destroy,
        replies,
        TelephonyError::TelephonyDestroyError(
            "Error Occured during Telephony Destruction".to_owned(),
        ),
    )
}

/// What is left to do after a failure that ends the session.
#[derive(Clone, Debug, PartialEq, Eq)]
pub struct Shutdown {
    /// The notice to show before anything else is done.
    pub notice: String,
    /// The engine operations to perform, in order; their statuses are not
    /// looked at.
    pub ops: Vec<EngineOp>,
    /// The code the process is to exit with afterwards.
    pub exit_code: i32,
}

/// The operations of a shutdown: the engine logs the error, then it is
/// destroyed.
pub open spec fn shutdown_ops() -> Seq<EngineOpView> {
    seq![
        EngineOpView::ReportError { sender: "main.rs"@, title: "Error Here"@, status: 2 },
        EngineOpView::Destroy,
    ]
}

/// Plans the end of a session that cannot go on: a notice that names
/// `err_msg`, the engine's own report of the error, the destruction of the
/// engine, and exit code 1. Whether to follow the plan is the caller's
/// decision; `TelephonyError::is_fatal` tells which failures call for it.
pub fn error_exit(err_msg: &str) -> (plan: Shutdown)
    ensures
        plan.notice@ == "Exiting PJSUA "@ + err_msg@,
        ops_view(plan.ops@) == shutdown_ops(),
        plan.exit_code == 1,
{
    let mut notice = "Exiting PJSUA ".to_owned();
    notice.append(err_msg);
    let mut ops: Vec<EngineOp> = Vec::new();
    ops.push(
        EngineOp::ReportError {
            sender: "main.rs".to_owned(),
            title: "Error Here".to_owned(),
            status: 2,
        },
    );
    ops.push(EngineOp::Destroy);
    assert(ops_view(ops@) =~= shutdown_ops());
    Shutdown { notice, ops, exit_code: 1 }
}

} // verus!
