//! What can go wrong, and with which request.

use vstd::prelude::*;
use crate::data::Request;
use crate::outcome::RawResponse;

verus! {

/// The returned data could not be read as the type that the caller asked
/// for. The data is kept as it was received.
#[derive(Clone, Debug, PartialEq, Eq)]
pub struct DataError {
    pub raw: Vec<Vec<u8>>,
}

/// The network did not give a usable answer.
#[derive(Clone, Debug, PartialEq, Eq)]
pub enum NetworkQueryError {
    /// The gateway could not be reached.
    Unreachable,
    /// The gateway answered with a status outside 200..=299.
    Status { code: u16, body: Vec<u8> },
    /// The gateway answered, but not with a response.
    MalformedPayload { body: Vec<u8> },
    /// No answer, or no settled outcome, within the attempts allowed.
    Timeout { attempts: u32 },
    /// The chain settled the call as failed.
    ExecutionFailed { response: RawResponse },
}

impl NetworkQueryError {
    /// A transient failure may go away when the same question is asked
    /// again: an unreachable gateway, a timeout, a status in 500..=599.
    pub open spec fn transient(&self) -> bool {
        match self {
            NetworkQueryError::Unreachable => true,
            NetworkQueryError::Timeout { .. } => true,
            NetworkQueryError::Status { code, .. } => 500 <= *code && *code <= 599,
            NetworkQueryError::MalformedPayload { .. } => false,
            NetworkQueryError::ExecutionFailed { .. } => false,
        }
    }

    pub fn is_transient(&self) -> (transient: bool)
        ensures
            transient == self.transient(),
    {
        match self {
            NetworkQueryError::Unreachable => true,
            NetworkQueryError::Timeout { .. } => true,
            NetworkQueryError::Status { code, .. } => 500 <= *code && *code <= 599,
            NetworkQueryError::MalformedPayload { .. } => false,
            NetworkQueryError::ExecutionFailed { .. } => false,
        }
    }
}

/// A mock was not called as its script says.
#[derive(Clone, Debug, PartialEq, Eq)]
pub enum MockDeployError {
    /// The script had no entry left for this call.
    NoMoreExpectedCalls { actual: Request },
    /// The script expected another call at this point.
    UnexpectedCall { expected: Request, actual: Request },
}

/// Every failure of an executor, with the request that failed.
#[allow(inconsistent_fields)]
#[derive(Clone, Debug, PartialEq, Eq)]
pub enum ExecutorError {
    Data { request: Request, error: DataError },
    NetworkQuery { request: Request, error: NetworkQueryError },
    MockDeploy(MockDeployError),
}

} // verus!
