//! The error taxonomy the control plane distinguishes. The API layer maps
//! each kind to a transport status code; the library only promises which kind
//! arises on which input.

use vstd::prelude::*;

verus! {

/// Typed failure of a control-plane operation.
#[derive(Debug)]
pub enum HypervisorError {
    /// No instance with the given name or id exists.
    NotFound(String),
    /// Name collision on create.
    AlreadyExists(String),
    /// The requested operation is not permitted from the current status.
    /// Carries the current status (human-readable) and the operation.
    InvalidTransition { from: String, operation: String },
    /// An operation of the same class is already in progress.
    Conflict(String),
    /// Caller-supplied data is malformed.
    BadRequest(String),
    /// Subprocess spawn, pid-file read or initial liveness check failed.
    HypervisorLaunchFailed(String),
    /// The control socket rejected a command or returned an unparseable
    /// response.
    HypervisorProtocolFailed(String),
    /// The operating system refused to signal the process.
    SignalFailed(String),
    /// The persistent store reported an error.
    StorageError(String),
    /// Anything else, carrying a diagnostic.
    Internal(String),
}

/// Mathematical model of an error: the same tagged sum over character
/// sequences.
pub ghost enum ErrorView {
    NotFound(Seq<char>),
    AlreadyExists(Seq<char>),
    InvalidTransition { from: Seq<char>, operation: Seq<char> },
    Conflict(Seq<char>),
    BadRequest(Seq<char>),
    HypervisorLaunchFailed(Seq<char>),
    HypervisorProtocolFailed(Seq<char>),
    SignalFailed(Seq<char>),
    StorageError(Seq<char>),
    Internal(Seq<char>),
}

impl View for HypervisorError {
    type V = ErrorView;

    open spec fn view(&self) -> ErrorView {
        match self {
            HypervisorError::NotFound(m) => ErrorView::NotFound(m@),
            HypervisorError::AlreadyExists(m) => ErrorView::AlreadyExists(m@),
            HypervisorError::InvalidTransition { from, operation } => ErrorView::InvalidTransition {
                from: from@,
                operation: operation@,
            },
            HypervisorError::Conflict(m) => ErrorView::Conflict(m@),
            HypervisorError::BadRequest(m) => ErrorView::BadRequest(m@),
            HypervisorError::HypervisorLaunchFailed(m) => ErrorView::HypervisorLaunchFailed(m@),
            HypervisorError::HypervisorProtocolFailed(m) => ErrorView::HypervisorProtocolFailed(
                m@,
            ),
            HypervisorError::SignalFailed(m) => ErrorView::SignalFailed(m@),
            HypervisorError::StorageError(m) => ErrorView::StorageError(m@),
            HypervisorError::Internal(m) => ErrorView::Internal(m@),
        }
    }
}

impl HypervisorError {
    /// The diagnostic text carried by the error; for a transition error, the
    /// status it was attempted from.
    pub fn message(&self) -> (r: &String)
        ensures
            self@ matches ErrorView::NotFound(m) ==> r@ == m,
            self@ matches ErrorView::AlreadyExists(m) ==> r@ == m,
            self@ matches ErrorView::Conflict(m) ==> r@ == m,
            self@ matches ErrorView::BadRequest(m) ==> r@ == m,
            self@ matches ErrorView::HypervisorLaunchFailed(m) ==> r@ == m,
            self@ matches ErrorView::HypervisorProtocolFailed(m) ==> r@ == m,
            self@ matches ErrorView::SignalFailed(m) ==> r@ == m,
            self@ matches ErrorView::StorageError(m) ==> r@ == m,
            self@ matches ErrorView::Internal(m) ==> r@ == m,
    {
        match self {
            HypervisorError::NotFound(m) => m,
            HypervisorError::AlreadyExists(m) => m,
            HypervisorError::InvalidTransition { from, operation: _ } => from,
            HypervisorError::Conflict(m) => m,
            HypervisorError::BadRequest(m) => m,
            HypervisorError::HypervisorLaunchFailed(m) => m,
            HypervisorError::HypervisorProtocolFailed(m) => m,
            HypervisorError::SignalFailed(m) => m,
            HypervisorError::StorageError(m) => m,
            HypervisorError::Internal(m) => m,
        }
    }
}

} // verus!
