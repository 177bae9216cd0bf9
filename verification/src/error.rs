//! The error taxonomy: one tagged error for every failure class of the layer.
use vstd::prelude::*;

verus! {

/// The failure classes, without their detail text.
#[derive(Clone, Copy, Debug, PartialEq, Eq, Structural)]
pub enum ErrorKind {
    CreationError,
    ConfigError,
    InitializationError,
    TransportError,
    DTMFError,
    CallCreationError,
    AccountCreationError,
    TelephonyStartError,
    TelephonyDestroyError,
    InputValueError,
}

impl ErrorKind {
    /// Failures of engine bring-up leave no usable engine behind: creation,
    /// initialization, transport and start. Failures of a running session
    /// (account, call, DTMF, destroy, bad input) are ordinary errors.
    pub open spec fn fatal(self) -> bool {
        self == ErrorKind::CreationError || self == ErrorKind::InitializationError || self
            == ErrorKind::TransportError || self == ErrorKind::TelephonyStartError
    }

    /// The fixed headline of each failure class.
    pub open spec fn headline(self) -> Seq<char> {
        match self {
            ErrorKind::CreationError => "Cannot create a Telephony instance"@,
            ErrorKind::ConfigError => "Internal Config invalid"@,
            ErrorKind::InitializationError => "Cannot Initialize Telephony instance"@,
            ErrorKind::TransportError => "Cannot Initialize Telephony-Transport"@,
            ErrorKind::DTMFError => "Cannot Send DTMF Tone"@,
            ErrorKind::CallCreationError => "Could not Create Call"@,
            ErrorKind::AccountCreationError => "Account Creation Error"@,
            ErrorKind::TelephonyStartError => "Telephony Start Error"@,
            ErrorKind::TelephonyDestroyError => "Telephony destruction Error"@,
            ErrorKind::InputValueError => "Input Error"@,
        }
    }

    pub fn is_fatal(&self) -> (b: bool)
        ensures
            b == self.fatal(),
    {
        match self {
            ErrorKind::CreationError => true,
            ErrorKind::InitializationError => true,
            ErrorKind::TransportError => true,
            ErrorKind::TelephonyStartError => true,
            _ => false,
        }
    }
}

/// A failure of the session layer: its class and a human-readable detail.
#[derive(Clone, Debug, PartialEq, Eq)]
pub enum TelephonyError {
    CreationError(String),
    ConfigError(String),
    InitializationError(String),
    TransportError(String),
    DTMFError(String),
    CallCreationError(String),
    AccountCreationError(String),
    TelephonyStartError(String),
    TelephonyDestroyError(String),
    InputValueError(String),
}

/// What an error is, as plain data: the class and the characters of the detail.
pub struct TelephonyErrorView {
    pub kind: ErrorKind,
    pub detail: Seq<char>,
}

impl View for TelephonyError {
    type V = TelephonyErrorView;

    open spec fn view(&self) -> TelephonyErrorView {
        match self {
            TelephonyError::CreationError(d) => TelephonyErrorView {
                kind: ErrorKind::CreationError,
                detail: d@,
            },
            TelephonyError::ConfigError(d) => TelephonyErrorView {
                kind: ErrorKind::ConfigError,
                detail: d@,
            },
            TelephonyError::InitializationError(d) => TelephonyErrorView {
                kind: ErrorKind::InitializationError,
                detail: d@,
            },
            TelephonyError::TransportError(d) => TelephonyErrorView {
                kind: ErrorKind::TransportError,
                detail: d@,
            },
            TelephonyError::DTMFError(d) => TelephonyErrorView {
                kind: ErrorKind::DTMFError,
                detail: d@,
            },
            TelephonyError::CallCreationError(d) => TelephonyErrorView {
                kind: ErrorKind::CallCreationError,
                detail: d@,
            },
            TelephonyError::AccountCreationError(d) => TelephonyErrorView {
                kind: ErrorKind::AccountCreationError,
                detail: d@,
            },
            TelephonyError::TelephonyStartError(d) => TelephonyErrorView {
                kind: ErrorKind::TelephonyStartError,
                detail: d@,
            },
            TelephonyError::TelephonyDestroyError(d) => TelephonyErrorView {
                kind: ErrorKind::TelephonyDestroyError,
                detail: d@,
            },
            TelephonyError::InputValueError(d) => TelephonyErrorView {
                kind: ErrorKind::InputValueError,
                detail: d@,
            },
        }
    }
}

impl TelephonyError {
    /// The failure class.
    pub fn kind(&self) -> (k: ErrorKind)
        ensures
            k == self@.kind,
    {
        match self {
            TelephonyError::CreationError(_) => ErrorKind::CreationError,
            TelephonyError::ConfigError(_) => ErrorKind::ConfigError,
            TelephonyError::InitializationError(_) => ErrorKind::InitializationError,
            TelephonyError::TransportError(_) => ErrorKind::TransportError,
            TelephonyError::DTMFError(_) => ErrorKind::DTMFError,
            TelephonyError::CallCreationError(_) => ErrorKind::CallCreationError,
            TelephonyError::AccountCreationError(_) => ErrorKind::AccountCreationError,
            TelephonyError::TelephonyStartError(_) => ErrorKind::TelephonyStartError,
            TelephonyError::TelephonyDestroyError(_) => ErrorKind::TelephonyDestroyError,
            TelephonyError::InputValueError(_) => ErrorKind::InputValueError,
        }
    }

    /// The detail text the error was raised with.
    pub fn detail(&self) -> (d: &String)
        ensures
            d@ == self@.detail,
    {
        match self {
            TelephonyError::CreationError(d) => d,
            TelephonyError::ConfigError(d) => d,
            TelephonyError::InitializationError(d) => d,
            TelephonyError::TransportError(d) => d,
            TelephonyError::DTMFError(d) => d,
            TelephonyError::CallCreationError(d) => d,
            TelephonyError::AccountCreationError(d) => d,
            TelephonyError::TelephonyStartError(d) => d,
            TelephonyError::TelephonyDestroyError(d) => d,
            TelephonyError::InputValueError(d) => d,
        }
    }

    /// Whether the failure ends the session: the caller is expected to shut
    /// the engine down (see `error_exit`) instead of carrying on.
    pub fn is_fatal(&self) -> (b: bool)
        ensures
            b == self@.kind.fatal(),
    {
        self.kind().is_fatal()
    }

    /// The headline of the failure class, as it is shown to a user.
    pub fn description(&self) -> (s: String)
        ensures
            s@ == self@.kind.headline(),
    {
        match self {
            TelephonyError::CreationError(_) => "Cannot create a Telephony instance".to_owned(),
            TelephonyError::ConfigError(_) => "Internal Config invalid".to_owned(),
            TelephonyError::InitializationError(_) => "Cannot Initialize Telephony instance".to_owned(),
            TelephonyError::TransportError(_) => "Cannot Initialize Telephony-Transport".to_owned(),
            TelephonyError::DTMFError(_) => "Cannot Send DTMF Tone".to_owned(),
            TelephonyError::CallCreationError(_) => "Could not Create Call".to_owned(),
            TelephonyError::AccountCreationError(_) => "Account Creation Error".to_owned(),
            TelephonyError::TelephonyStartError(_) => "Telephony Start Error".to_owned(),
            TelephonyError::TelephonyDestroyError(_) => "Telephony destruction Error".to_owned(),
            TelephonyError::InputValueError(_) => "Input Error".to_owned(),
        }
    }
}

} // verus!
