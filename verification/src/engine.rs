//! The vocabulary shared with the engine: the operations this layer asks for,
//! the configuration they carry, and what the engine reports back.
use crate::error::{TelephonyError, TelephonyErrorView};
use crate::marshal::{EngineString, EngineStringView};
use vstd::prelude::*;

verus! {

/// The status by which the engine reports success; every other status is a
/// failure.
pub const PJ_SUCCESS: i32 = 0;

/// The account that call placement uses: the first one registered.
pub const DEFAULT_ACCOUNT: i32 = 0;

/// The call that DTMF transmission uses: the first one.
pub const CURRENT_CALL: i32 = 0;

/// The conference-bridge slot of the local audio path.
pub const BRIDGE_BASE_SLOT: i32 = 0;

/// The SIP status a call is answered with.
pub const ANSWER_CODE: u32 = 200;

/// The transport a session signals over: UDP, TCP or TLS, over IPv4 or IPv6.
#[derive(Clone, Copy, Debug, PartialEq, Eq, Structural)]
pub enum TransportMode {
    UDP,
    TCP,
    TLS,
    UDP6,
    TCP6,
    TLS6,
}

/// What is done with an incoming call.
#[derive(Clone, Copy, Debug, PartialEq, Eq, Structural)]
pub enum OnIncommingCall {
    AutoAnswer,
    Ignore,
}

/// The enumerators of the engine's transport-type enumeration that this layer
/// asks for.
#[derive(Clone, Copy, Debug, PartialEq, Eq, Structural)]
pub enum TransportType {
    Udp,
    Tcp,
    Tls,
    Udp6,
    Tcp6,
    Tls6,
}

impl TransportMode {
    /// The place of a mode in the enumeration of modes.
    pub open spec fn ordinal(self) -> nat {
        match self {
            TransportMode::UDP => 0,
            TransportMode::TCP => 1,
            TransportMode::TLS => 2,
            TransportMode::UDP6 => 3,
            TransportMode::TCP6 => 4,
            TransportMode::TLS6 => 5,
        }
    }

    /// The engine transport type that stands for a mode.
    pub open spec fn engine_type(self) -> TransportType {
        match self {
            TransportMode::UDP => TransportType::Udp,
            TransportMode::TCP => TransportType::Tcp,
            TransportMode::TLS => TransportType::Tls,
            TransportMode::UDP6 => TransportType::Udp6,
            TransportMode::TCP6 => TransportType::Tcp6,
            TransportMode::TLS6 => TransportType::Tls6,
        }
    }

    /// Maps a mode to the engine's transport type.
    pub fn transport_type(&self) -> (t: TransportType)
        ensures
            t == self.engine_type(),
    {
        match self {
            TransportMode::TCP => TransportType::Tcp,
            TransportMode::TLS => TransportType::Tls,
            TransportMode::UDP6 => TransportType::Udp6,
            TransportMode::UDP => TransportType::Udp,
            TransportMode::TCP6 => TransportType::Tcp6,
            TransportMode::TLS6 => TransportType::Tls6,
        }
    }
}

impl TransportType {
    /// The value of the enumerator in the engine's enumeration: the IPv4
    /// transports count from one, and an IPv6 transport lies 128 above its
    /// IPv4 counterpart.
    pub open spec fn value(self) -> u32 {
        match self {
            TransportType::Udp => 1,
            TransportType::Tcp => 2,
            TransportType::Tls => 3,
            TransportType::Udp6 => 129,
            TransportType::Tcp6 => 130,
            TransportType::Tls6 => 131,
        }
    }

    pub fn code(&self) -> (c: u32)
        ensures
            c == self.value(),
    {
        match self {
            TransportType::Udp => 1,
            TransportType::Tcp => 2,
            TransportType::Tls => 3,
            TransportType::Udp6 => 129,
            TransportType::Tcp6 => 130,
            TransportType::Tls6 => 131,
        }
    }
}

/// The mapping from modes to engine transport types is defined on every mode,
/// sends different modes to different types, and keeps their order.
pub proof fn lemma_transport_mapping(a: TransportMode, b: TransportMode)
    ensures
        a.engine_type() == b.engine_type() ==> a == b,
        a.engine_type().value() == b.engine_type().value() ==> a == b,
        a.ordinal() < b.ordinal() <==> a.engine_type().value() < b.engine_type().value(),
{
}

/// The two handlers this layer offers for incoming calls.
#[derive(Clone, Copy, Debug, PartialEq, Eq, Structural)]
pub enum IncomingCallHandler {
    /// `on_incoming_call`: answers the call.
    Answer,
    /// `on_incoming_call_ignore`: leaves the call to ring.
    Ignore,
}

/// Which handlers of this layer the engine is to call for the three events
/// the layer reacts to.
#[derive(Clone, Copy, Debug, PartialEq, Eq, Structural)]
pub struct Callbacks {
    /// The handler for incoming calls.
    pub on_incoming_call: IncomingCallHandler,
    /// Whether `on_call_media_state` is called when the media of a call
    /// change state.
    pub on_call_media_state: bool,
    /// Whether `on_call_state` is called when a call changes state.
    pub on_call_state: bool,
}

/// The state of a call's media, as the engine reports it.
#[derive(Clone, Copy, Debug, PartialEq, Eq, Structural)]
pub enum MediaStatus {
    NoMedia,
    Active,
    LocalHold,
    RemoteHold,
    Error,
}

/// What this layer reads of the engine's report on a call.
#[derive(Clone, Copy, Debug, PartialEq, Eq, Structural)]
pub struct CallInfo {
    pub media_status: MediaStatus,
    pub conf_slot: i32,
}

/// How the secret of a credential is to be read.
#[derive(Clone, Copy, Debug, PartialEq, Eq, Structural)]
pub enum CredentialData {
    PlainPassword,
    Digest,
}

/// One credential of an account.
#[derive(Clone, Debug, PartialEq, Eq)]
pub struct Credential {
    pub realm: EngineString,
    pub scheme: EngineString,
    pub username: EngineString,
    pub data_type: CredentialData,
    pub data: EngineString,
}

pub struct CredentialView {
    pub realm: EngineStringView,
    pub scheme: EngineStringView,
    pub username: EngineStringView,
    pub data_type: CredentialData,
    pub data: EngineStringView,
}

impl View for Credential {
    type V = CredentialView;

    open spec fn view(&self) -> CredentialView {
        CredentialView {
            realm: self.realm@,
            scheme: self.scheme@,
            username: self.username@,
            data_type: self.data_type,
            data: self.data@,
        }
    }
}

/// The configuration an account is registered with.
#[derive(Clone, Debug, PartialEq, Eq)]
pub struct AccountConfig {
    pub id: EngineString,
    pub reg_uri: EngineString,
    pub cred_count: u32,
    pub cred_info: Vec<Credential>,
}

pub struct AccountConfigView {
    pub id: EngineStringView,
    pub reg_uri: EngineStringView,
    pub cred_count: u32,
    pub cred_info: Seq<CredentialView>,
}

impl View for AccountConfig {
    type V = AccountConfigView;

    open spec fn view(&self) -> AccountConfigView {
        AccountConfigView {
            id: self.id@,
            reg_uri: self.reg_uri@,
            cred_count: self.cred_count,
            cred_info: self.cred_info@.map_values(|c: Credential| c@),
        }
    }
}

/// How DTMF digits are sent.
#[derive(Clone, Copy, Debug, PartialEq, Eq, Structural)]
pub enum DtmfMethod {
    Rfc2833,
    SipInfo,
}

/// How long each DTMF digit sounds.
#[derive(Clone, Copy, Debug, PartialEq, Eq, Structural)]
pub enum DtmfDuration {
    EngineDefault,
    Milliseconds(u32),
}

/// A request to send DTMF digits on a call.
#[derive(Clone, Debug, PartialEq, Eq)]
pub struct DtmfRequest {
    pub method: DtmfMethod,
    pub duration: DtmfDuration,
    pub digits: EngineString,
}

pub struct DtmfRequestView {
    pub method: DtmfMethod,
    pub duration: DtmfDuration,
    pub digits: EngineStringView,
}

impl View for DtmfRequest {
    type V = DtmfRequestView;

    open spec fn view(&self) -> DtmfRequestView {
        DtmfRequestView { method: self.method, duration: self.duration, digits: self.digits@ }
    }
}

/// An operation the engine is asked to perform. The caller of this layer
/// performs it and hands the engine's status back.
#[derive(Clone, Debug, PartialEq, Eq)]
pub enum EngineOp {
    /// Allocate the engine.
    Create,
    /// Initialize the engine with its default configuration, the given
    /// handlers, and default logging at the given console verbosity.
    Init { callbacks: Callbacks, console_level: u32 },
    /// Create one transport from the default transport configuration with
    /// the port replaced.
    AddTransport { transport_type: TransportType, port: u32 },
    /// Start the engine.
    Start,
    /// Destroy the engine.
    Destroy,
    /// Register an account from the default account configuration with the
    /// given fields replaced.
    RegisterAccount { config: AccountConfig, make_default: bool },
    /// Answer a call with a SIP status, without reason text or message data.
    Answer { call_id: i32, code: u32 },
    /// Place a call from an account, without call settings or message data.
    PlaceCall { account: i32, uri: EngineString },
    /// Hang up every call.
    HangupAll,
    /// Send DTMF digits on a call.
    SendDtmf { call_id: i32, request: DtmfRequest },
    /// Fetch the engine's report on a call.
    GetCallInfo { call_id: i32 },
    /// Connect one conference-bridge slot to another, in one direction.
    ConnectAudio { source: i32, sink: i32 },
    /// Have the engine log an error status under a sender and a title.
    ReportError { sender: String, title: String, status: i32 },
}

pub enum EngineOpView {
    Create,
    Init { callbacks: Callbacks, console_level: u32 },
    AddTransport { transport_type: TransportType, port: u32 },
    Start,
    Destroy,
    RegisterAccount { config: AccountConfigView, make_default: bool },
    Answer { call_id: i32, code: u32 },
    PlaceCall { account: i32, uri: EngineStringView },
    HangupAll,
    SendDtmf { call_id: i32, request: DtmfRequestView },
    GetCallInfo { call_id: i32 },
    ConnectAudio { source: i32, sink: i32 },
    ReportError { sender: Seq<char>, title: Seq<char>, status: i32 },
}

impl View for EngineOp {
    type V = EngineOpView;

    open spec fn view(&self) -> EngineOpView {
        match self {
            EngineOp::Create => EngineOpView::Create,
            EngineOp::Init { callbacks, console_level } => EngineOpView::Init {
                callbacks: *callbacks,
                console_level: *console_level,
            },
            EngineOp::AddTransport { transport_type, port } => EngineOpView::AddTransport {
                transport_type: *transport_type,
                port: *port,
            },
            EngineOp::Start => EngineOpView::Start,
            EngineOp::Destroy => EngineOpView::Destroy,
            EngineOp::RegisterAccount { config, make_default } => EngineOpView::RegisterAccount {
                config: config@,
                make_default: *make_default,
            },
            EngineOp::Answer { call_id, code } => EngineOpView::Answer {
                call_id: *call_id,
                code: *code,
            },
            EngineOp::PlaceCall { account, uri } => EngineOpView::PlaceCall {
                account: *account,
                uri: uri@,
            },
            EngineOp::HangupAll => EngineOpView::HangupAll,
            EngineOp::SendDtmf { call_id, request } => EngineOpView::SendDtmf {
                call_id: *call_id,
                request: request@,
            },
            EngineOp::GetCallInfo { call_id } => EngineOpView::GetCallInfo { call_id: *call_id },
            EngineOp::ConnectAudio { source, sink } => EngineOpView::ConnectAudio {
                source: *source,
                sink: *sink,
            },
            EngineOp::ReportError { sender, title, status } => EngineOpView::ReportError {
                sender: sender@,
                title: title@,
                status: *status,
            },
        }
    }
}

impl EngineOp {
    /// Whether the engine keeps reading the buffers of the operation after it
    /// has returned. The URI of a placed call is kept for the life of the
    /// call and must not be released before the call is over; the buffers of
    /// every other operation are read during the operation and may be
    /// released when it returns.
    pub fn retains_buffers(&self) -> (kept: bool)
        ensures
            kept == (self@ is PlaceCall),
    {
        match self {
            EngineOp::PlaceCall { .. } => true,
            _ => false,
        }
    }
}

/// The operations a list of operations stands for.
pub open spec fn ops_view(ops: Seq<EngineOp>) -> Seq<EngineOpView> {
    ops.map_values(|op: EngineOp| op@)
}

/// What an operation of this layer needs next: an engine operation whose
/// status it is waiting for, or nothing more, with its result.
#[derive(Debug, PartialEq, Eq)]
pub enum Step {
    Perform(EngineOp),
    Finished(Result<i8, TelephonyError>),
}

pub enum StepView {
    Perform(EngineOpView),
    Finished(Result<i8, TelephonyErrorView>),
}

impl View for Step {
    type V = StepView;

    open spec fn view(&self) -> StepView {
        match self {
            Step::Perform(op) => StepView::Perform(op@),
            Step::Finished(Ok(code)) => StepView::Finished(Ok(*code)),
            Step::Finished(Err(e)) => StepView::Finished(Err(e@)),
        }
    }
}

/// The step of an operation that asks the engine for one thing: before the
/// engine has answered, the operation is to be performed; once it has, its
/// status decides between success and the given failure. Statuses beyond the
/// first are not looked at.
pub open spec fn settled(op: EngineOpView, replies: Seq<i32>, failure: TelephonyErrorView) -> StepView {
    if replies.len() == 0 {
        StepView::Perform(op)
    } else if replies[0] == PJ_SUCCESS {
        StepView::Finished(Ok(0i8))
    } else {
        StepView::Finished(Err(failure))
    }
}

/// Decides the step of an operation that asks the engine for one thing.
pub fn settle(op: EngineOp, replies: &[i32], failure: TelephonyError) -> (step: Step)
    ensures
        step@ == settled(op@, replies@, failure@),
{
    if replies.len() == 0 {
        Step::Perform(op)
    } else if replies[0] == PJ_SUCCESS {
        Step::Finished(Ok(0))
    } else {
        Step::Finished(Err(failure))
    }
}

} // verus!
