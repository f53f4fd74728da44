//! What comes back from the chain.

use vstd::prelude::*;
use crate::bytes::{copy_segments, segments_view};
use crate::codec::{agrees, Decode};
use crate::data::Address;
use crate::error::DataError;

verus! {

/// How far the chain has come with a call.
#[derive(Clone, Copy, Debug, PartialEq, Eq, Structural)]
pub enum TxStatus {
    /// Not settled yet: asking again later may tell more.
    Pending,
    /// Settled, and the call did what it was asked to do.
    Success,
    /// Settled, and the call was refused or failed.
    Failed,
}

/// A raw answer: the status, the byte strings that the contract returned,
/// and the logs it wrote.
#[derive(Clone, Debug, PartialEq, Eq)]
pub struct RawResponse {
    pub status: TxStatus,
    pub data: Vec<Vec<u8>>,
    pub logs: Vec<Vec<u8>>,
}

/// The name under which the network knows a submitted transaction.
#[derive(Clone, Debug, PartialEq, Eq)]
pub struct TxHash {
    pub bytes: Vec<u8>,
}

impl View for TxHash {
    type V = Seq<u8>;

    open spec fn view(&self) -> Seq<u8> {
        self.bytes@
    }
}

/// Reads a typed value from returned data, or keeps the data in the error.
pub fn decode_data<T: Decode>(data: &Vec<Vec<u8>>) -> (result: Result<T, DataError>)
    ensures
        (result is Ok) == (T::decoded(segments_view(data@)) is Some),
        result matches Ok(value) ==> T::decoded(segments_view(data@)) == Some(value@),
        result matches Err(error) ==> segments_view(error.raw@) == segments_view(data@),
{
    match T::decode(data) {
        Some(value) => Ok(value),
        None => Err(DataError { raw: copy_segments(data) }),
    }
}

/// What a transaction led to, as the network reported it.
#[derive(Clone, Debug, PartialEq, Eq)]
pub struct TransactionOutcome {
    pub response: RawResponse,
    /// The contract that the transaction created, if it created one.
    pub deployed: Option<Address>,
}

impl TransactionOutcome {
    /// Reads the returned data as a `T`.
    pub fn decode<T: Decode>(&self) -> (result: Result<T, DataError>)
        ensures
            (result is Ok) == (T::decoded(segments_view(self.response.data@)) is Some),
            result matches Ok(value) ==> T::decoded(segments_view(self.response.data@)) == Some(
                value@,
            ),
            result matches Err(error) ==> segments_view(error.raw@) == segments_view(
                self.response.data@,
            ),
    {
        decode_data(&self.response.data)
    }
}

/// What a deployment led to: the new contract, and what its constructor
/// returned.
#[derive(Clone, Debug, PartialEq, Eq)]
pub struct DeployOutcome {
    pub address: Address,
    pub response: RawResponse,
}

impl DeployOutcome {
    /// Reads the data that the constructor returned as a `T`.
    pub fn decode<T: Decode>(&self) -> (result: Result<T, DataError>)
        ensures
            (result is Ok) == (T::decoded(segments_view(self.response.data@)) is Some),
            result matches Ok(value) ==> T::decoded(segments_view(self.response.data@)) == Some(
                value@,
            ),
            result matches Err(error) ==> segments_view(error.raw@) == segments_view(
                self.response.data@,
            ),
    {
        decode_data(&self.response.data)
    }

    /// The outcome of a transaction that created a contract. A transaction
    /// that created none, or one without an address, is no deployment.
    pub fn from_transaction(outcome: TransactionOutcome) -> (deployment: Option<DeployOutcome>)
        ensures
            deployment == deployment_of(outcome),
    {
        match outcome.deployed {
            Some(address) => {
                if address.is_empty() {
                    None
                } else {
                    Some(DeployOutcome { address, response: outcome.response })
                }
            },
            None => None,
        }
    }
}

/// The deployment that a transaction's outcome reports, if it reports one
/// with an address that is not empty.
pub open spec fn deployment_of(outcome: TransactionOutcome) -> Option<DeployOutcome> {
    match outcome.deployed {
        Some(address) => if address@.len() > 0 {
            Some(DeployOutcome { address, response: outcome.response })
        } else {
            None
        },
        None => None,
    }
}

} // verus!
