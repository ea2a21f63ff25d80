//! Error taxonomy of the engine: protocol violations that the stream
//! machines reject locally, and the fault kinds that a host reports when
//! the transport fails a task.

use vstd::prelude::*;

verus! {

/// A locally rejected misuse of a stream's write direction or of a
/// request/response exchange. Rejection never tears anything down: the
/// offending call returns this value and leaves the state unchanged.
#[derive(Clone, Copy, Debug, PartialEq, Eq, Structural)]
pub enum ProtocolViolation {
    /// Bytes were ordered on a write direction that was already finished.
    WriteAfterFinish,
    /// A second finish on an already-finished write direction.
    DoubleFinish,
    /// A response head before the exchange was resolved.
    HeadTooEarly,
    /// A second response head on the same exchange.
    DoubleHead,
    /// A response body chunk before the response head.
    BodyBeforeHead,
    /// Finishing an exchange before the response head was sent.
    FinishBeforeHead,
    /// A resolve report on an exchange that was already resolved.
    DoubleResolve,
    /// Any operation on an exchange that already completed or failed.
    TaskTerminated,
}

/// What failed when the transport reports an error; fatal only to the one
/// task in which it occurred.
#[derive(Clone, Copy, Debug, PartialEq, Eq, Structural)]
pub enum FaultKind {
    /// Startup could not bind the endpoint or load credentials; fatal.
    Setup,
    /// One connection's handshake failed; that connection never serves.
    Handshake,
    /// Accepting the next stream on one connection failed.
    Connection,
    /// A read on one stream failed.
    StreamRead,
    /// A write on one stream failed.
    StreamWrite,
    /// Finishing one stream's write direction failed.
    StreamFinish,
    /// Resolving one request exchange failed.
    StreamResolve,
}

impl ProtocolViolation {
    /// A fixed diagnostic label for reporting.
    pub fn label(&self) -> (s: String)
        ensures
            *self == ProtocolViolation::WriteAfterFinish ==> s@ == "write after finish"@,
            *self == ProtocolViolation::DoubleFinish ==> s@ == "finish after finish"@,
            *self == ProtocolViolation::HeadTooEarly ==> s@ == "response head before resolve"@,
            *self == ProtocolViolation::DoubleHead ==> s@ == "second response head"@,
            *self == ProtocolViolation::BodyBeforeHead ==> s@ == "body chunk before head"@,
            *self == ProtocolViolation::FinishBeforeHead ==> s@ == "finish before head"@,
            *self == ProtocolViolation::DoubleResolve ==> s@ == "second resolve report"@,
            *self == ProtocolViolation::TaskTerminated ==> s@ == "operation on terminated task"@,
    {
        match self {
            ProtocolViolation::WriteAfterFinish => "write after finish".to_string(),
            ProtocolViolation::DoubleFinish => "finish after finish".to_string(),
            ProtocolViolation::HeadTooEarly => "response head before resolve".to_string(),
            ProtocolViolation::DoubleHead => "second response head".to_string(),
            ProtocolViolation::BodyBeforeHead => "body chunk before head".to_string(),
            ProtocolViolation::FinishBeforeHead => "finish before head".to_string(),
            ProtocolViolation::DoubleResolve => "second resolve report".to_string(),
            ProtocolViolation::TaskTerminated => "operation on terminated task".to_string(),
        }
    }
}

impl FaultKind {
    /// A fixed diagnostic label for reporting.
    pub fn label(&self) -> (s: String)
        ensures
            *self == FaultKind::Setup ==> s@ == "setup failed"@,
            *self == FaultKind::Handshake ==> s@ == "handshake failed"@,
            *self == FaultKind::Connection ==> s@ == "connection closed with error"@,
            *self == FaultKind::StreamRead ==> s@ == "stream read failed"@,
            *self == FaultKind::StreamWrite ==> s@ == "stream write failed"@,
            *self == FaultKind::StreamFinish ==> s@ == "stream finish failed"@,
            *self == FaultKind::StreamResolve ==> s@ == "request resolve failed"@,
    {
        match self {
            FaultKind::Setup => "setup failed".to_string(),
            FaultKind::Handshake => "handshake failed".to_string(),
            FaultKind::Connection => "connection closed with error".to_string(),
            FaultKind::StreamRead => "stream read failed".to_string(),
            FaultKind::StreamWrite => "stream write failed".to_string(),
            FaultKind::StreamFinish => "stream finish failed".to_string(),
            FaultKind::StreamResolve => "request resolve failed".to_string(),
        }
    }
}

} // verus!
