//! The single error type reported by a metric query.

use vstd::prelude::*;
use vstd::string::*;

verus! {

/// Where a metric query failed.
#[derive(Clone, Copy, Debug, PartialEq, Eq, Structural)]
pub enum FailureKind {
    /// The session to the device could not be opened.
    SessionOpen,
    /// The request or its response was lost or malformed in transit.
    Transport,
    /// The response carried no value binding.
    MissingValue,
    /// The first value binding was of another wire kind than expected.
    TypeMismatch,
}

/// What the protocol layer reports when a request gets no valid response.
#[derive(Clone, Copy, Debug, PartialEq, Eq, Structural)]
pub enum ProtocolFault {
    AsnParseError,
    AsnInvalidLen,
    AsnWrongType,
    AsnUnsupportedType,
    AsnEof,
    AsnIntOverflow,
    UnsupportedVersion,
    RequestIdMismatch,
    CommunityMismatch,
    ValueOutOfRange,
    SendError,
    ReceiveError,
}

impl ProtocolFault {
    /// The name under which the fault is reported to the user.
    pub open spec fn name_of(self) -> Seq<char> {
        match self {
            ProtocolFault::AsnParseError => "AsnParseError"@,
            ProtocolFault::AsnInvalidLen => "AsnInvalidLen"@,
            ProtocolFault::AsnWrongType => "AsnWrongType"@,
            ProtocolFault::AsnUnsupportedType => "AsnUnsupportedType"@,
            ProtocolFault::AsnEof => "AsnEof"@,
            ProtocolFault::AsnIntOverflow => "AsnIntOverflow"@,
            ProtocolFault::UnsupportedVersion => "UnsupportedVersion"@,
            ProtocolFault::RequestIdMismatch => "RequestIdMismatch"@,
            ProtocolFault::CommunityMismatch => "CommunityMismatch"@,
            ProtocolFault::ValueOutOfRange => "ValueOutOfRange"@,
            ProtocolFault::SendError => "SendError"@,
            ProtocolFault::ReceiveError => "ReceiveError"@,
        }
    }

    /// The name under which the fault is reported to the user.
    pub fn name(self) -> (name: &'static str)
        ensures
            name@ == self.name_of(),
    {
        match self {
            ProtocolFault::AsnParseError => "AsnParseError",
            ProtocolFault::AsnInvalidLen => "AsnInvalidLen",
            ProtocolFault::AsnWrongType => "AsnWrongType",
            ProtocolFault::AsnUnsupportedType => "AsnUnsupportedType",
            ProtocolFault::AsnEof => "AsnEof",
            ProtocolFault::AsnIntOverflow => "AsnIntOverflow",
            ProtocolFault::UnsupportedVersion => "UnsupportedVersion",
            ProtocolFault::RequestIdMismatch => "RequestIdMismatch",
            ProtocolFault::CommunityMismatch => "CommunityMismatch",
            ProtocolFault::ValueOutOfRange => "ValueOutOfRange",
            ProtocolFault::SendError => "SendError",
            ProtocolFault::ReceiveError => "ReceiveError",
        }
    }
}

/// A failed metric query: one variant per failure source, each with the
/// text of its cause.
#[derive(Clone, Debug, PartialEq, Eq)]
pub enum QueryError {
    SessionOpen(String),
    Transport(String),
    MissingValue(String),
    TypeMismatch(String),
}

/// Mathematical model of a [`QueryError`].
pub struct Failure {
    pub kind: FailureKind,
    pub cause: Seq<char>,
}

impl View for QueryError {
    type V = Failure;

    open spec fn view(&self) -> Failure {
        match self {
            QueryError::SessionOpen(cause) => Failure { kind: FailureKind::SessionOpen, cause: cause@ },
            QueryError::Transport(cause) => Failure { kind: FailureKind::Transport, cause: cause@ },
            QueryError::MissingValue(cause) => Failure { kind: FailureKind::MissingValue, cause: cause@ },
            QueryError::TypeMismatch(cause) => Failure { kind: FailureKind::TypeMismatch, cause: cause@ },
        }
    }
}

impl QueryError {
    /// Builds the error of the given kind and cause.
    pub fn new(kind: FailureKind, cause: String) -> (error: QueryError)
        ensures
            error@ == (Failure { kind, cause: cause@ }),
    {
        match kind {
            FailureKind::SessionOpen => QueryError::SessionOpen(cause),
            FailureKind::Transport => QueryError::Transport(cause),
            FailureKind::MissingValue => QueryError::MissingValue(cause),
            FailureKind::TypeMismatch => QueryError::TypeMismatch(cause),
        }
    }

    /// The error for a session that could not be opened, with the
    /// transport's own description of what went wrong.
    pub fn session_open(cause: String) -> (error: QueryError)
        ensures
            error@ == (Failure { kind: FailureKind::SessionOpen, cause: cause@ }),
    {
        QueryError::SessionOpen(cause)
    }

    /// The error for a request that the protocol layer gave up on; its
    /// cause is the name of the fault.
    pub fn transport(fault: ProtocolFault) -> (error: QueryError)
        ensures
            error@ == (Failure { kind: FailureKind::Transport, cause: fault.name_of() }),
    {
        QueryError::Transport(String::from_str(fault.name()))
    }

    /// The failure source.
    pub fn kind(&self) -> (kind: FailureKind)
        ensures
            kind == self@.kind,
    {
        match self {
            QueryError::SessionOpen(_) => FailureKind::SessionOpen,
            QueryError::Transport(_) => FailureKind::Transport,
            QueryError::MissingValue(_) => FailureKind::MissingValue,
            QueryError::TypeMismatch(_) => FailureKind::TypeMismatch,
        }
    }

    /// The human-readable cause, exactly as it was recorded.
    pub fn message(&self) -> (text: String)
        ensures
            text@ == self@.cause,
    {
        match self {
            QueryError::SessionOpen(cause) => cause.clone(),
            QueryError::Transport(cause) => cause.clone(),
            QueryError::MissingValue(cause) => cause.clone(),
            QueryError::TypeMismatch(cause) => cause.clone(),
        }
    }
}

} // verus!
