//! Session control for a SIP signalling engine, written without I/O.
//!
//! Every operation of the session layer is a function from its arguments and
//! the statuses the engine has returned so far to the next thing to do: an
//! engine operation to perform, or the finished result. The caller owns the
//! engine, performs each operation and hands the status back.
#![allow(non_snake_case)]
#![allow(non_camel_case_types)]

pub mod account;
pub mod calls;
pub mod engine;
pub mod error;
pub mod events;
pub mod marshal;
pub mod setup;

pub use crate::account::{accountSetup, make_sip_uri, REALM_GLOBAL};
pub use crate::calls::{decimal_string, hangup_calls, make_call, send_dtmf};
pub use crate::engine::{
    settle,
    AccountConfig, CallInfo, Callbacks, Credential, CredentialData, DtmfDuration, DtmfMethod,
    DtmfRequest, EngineOp, IncomingCallHandler, MediaStatus, OnIncommingCall, Step, TransportMode,
    TransportType, PJ_SUCCESS,
};
pub use crate::error::{ErrorKind, TelephonyError, TelephonyErrorView};
pub use crate::events::{
    handle_incoming_call, on_call_media_state, on_call_state, on_incoming_call,
    on_incoming_call_ignore,
};
pub use crate::marshal::{make_pj_str_t, make_pj_str_t_OLD, EngineString, EngineStringView};
pub use crate::setup::{
    add_transport, callbacks_for, destroy_telephony, error_exit, init, initialize_telephony,
    start_telephony, Shutdown,
};
