//! From the last answer of an exchange to what the caller gets.

use vstd::prelude::*;
use crate::bytes::segments_view;
use crate::codec::Decode;
use crate::data::{Address, Request};
use crate::error::{DataError, ExecutorError, NetworkQueryError};
use crate::outcome::{deployment_of, DeployOutcome, RawResponse, TransactionOutcome, TxStatus};

verus! {

/// Says that `result` is what the caller of `request` gets for `answer`:
/// - a failure of the network, with the request;
/// - for a response that is not a success, an error that holds the
///   response, with the request;
/// - for a success, the value that the returned data decodes to;
/// - for a success whose data does not decode, a data error that holds the
///   data as it was received, with the request.
pub open spec fn concludes<T: Decode>(
    request: Request,
    answer: Result<RawResponse, NetworkQueryError>,
    result: Result<T, ExecutorError>,
) -> bool {
    match answer {
        Err(error) => result == Err::<T, ExecutorError>(
            ExecutorError::NetworkQuery { request, error },
        ),
        Ok(response) => if response.status != TxStatus::Success {
            result == Err::<T, ExecutorError>(
                ExecutorError::NetworkQuery {
                    request,
                    error: NetworkQueryError::ExecutionFailed { response },
                },
            )
        } else {
            match T::decoded(segments_view(response.data@)) {
                Some(model) => result matches Ok(value) && value@ == model,
                None => result == Err::<T, ExecutorError>(
                    ExecutorError::Data { request, error: DataError { raw: response.data } },
                ),
            }
        },
    }
}

/// Turns the last answer of an exchange into the caller's result.
pub fn conclude<T: Decode>(request: Request, answer: Result<RawResponse, NetworkQueryError>) -> (result:
    Result<T, ExecutorError>)
    ensures
        concludes(request, answer, result),
{
    match answer {
        Err(error) => Err(ExecutorError::NetworkQuery { request, error }),
        Ok(response) => {
            if response.status != TxStatus::Success {
                return Err(
                    ExecutorError::NetworkQuery {
                        request,
                        error: NetworkQueryError::ExecutionFailed { response },
                    },
                );
            }
            match T::decode(&response.data) {
                Some(value) => Ok(value),
                None => Err(
                    ExecutorError::Data { request, error: DataError { raw: response.data } },
                ),
            }
        },
    }
}

/// Decoding through an executor is decoding: where the network answers
/// with a success whose data decodes, the caller gets the very value that
/// the data decodes to.
pub proof fn lemma_decoded_as_directly<T: Decode>(
    request: Request,
    response: RawResponse,
    result: Result<T, ExecutorError>,
)
    requires
        concludes(request, Ok(response), result),
        response.status == TxStatus::Success,
        T::decoded(segments_view(response.data@)) is Some,
    ensures
        result matches Ok(value) && T::decoded(segments_view(response.data@)) == Some(value@),
{
}

/// Where the network answers with a success whose data does not decode,
/// the caller gets a data error, and the error holds the data as it was
/// received and the request.
pub proof fn lemma_undecodable_is_data_error<T: Decode>(
    request: Request,
    response: RawResponse,
    result: Result<T, ExecutorError>,
)
    requires
        concludes(request, Ok(response), result),
        response.status == TxStatus::Success,
        T::decoded(segments_view(response.data@)) is None,
    ensures
        result == Err::<T, ExecutorError>(
            ExecutorError::Data { request, error: DataError { raw: response.data } },
        ),
{
}

/// The response part of an answer about a transaction.
pub open spec fn response_of(answer: Result<TransactionOutcome, NetworkQueryError>) -> Result<
    RawResponse,
    NetworkQueryError,
> {
    match answer {
        Ok(outcome) => Ok(outcome.response),
        Err(error) => Err(error),
    }
}

/// Says that `result` is what the caller of a deployment gets for `answer`:
/// as [`concludes`] says of the response, with two additions. A success
/// that names no contract, or one with an empty address, is a malformed
/// answer. And a value comes with the address of the new contract.
pub open spec fn concludes_deployment<T: Decode>(
    request: Request,
    answer: Result<TransactionOutcome, NetworkQueryError>,
    result: Result<(Address, T), ExecutorError>,
) -> bool {
    match answer {
        Ok(outcome) => if outcome.response.status != TxStatus::Success {
            result == Err::<(Address, T), ExecutorError>(
                ExecutorError::NetworkQuery {
                    request,
                    error: NetworkQueryError::ExecutionFailed { response: outcome.response },
                },
            )
        } else {
            match deployment_of(outcome) {
                None => result matches Err(
                    ExecutorError::NetworkQuery {
                        request: failed,
                        error: NetworkQueryError::MalformedPayload { body },
                    },
                ) && failed == request && body@.len() == 0,
                Some(deployment) => match T::decoded(
                    segments_view(deployment.response.data@),
                ) {
                    Some(model) => result matches Ok((address, value)) && address
                        == deployment.address && value@ == model,
                    None => result == Err::<(Address, T), ExecutorError>(
                        ExecutorError::Data {
                            request,
                            error: DataError { raw: deployment.response.data },
                        },
                    ),
                },
            }
        },
        Err(error) => result == Err::<(Address, T), ExecutorError>(
            ExecutorError::NetworkQuery { request, error },
        ),
    }
}

/// Turns the last answer about a deployment into the caller's result.
pub fn conclude_deployment<T: Decode>(
    request: Request,
    answer: Result<TransactionOutcome, NetworkQueryError>,
) -> (result: Result<(Address, T), ExecutorError>)
    ensures
        concludes_deployment(request, answer, result),
        result matches Ok((address, _)) ==> address@.len() > 0,
{
    match answer {
        Err(error) => Err(ExecutorError::NetworkQuery { request, error }),
        Ok(outcome) => {
            if outcome.response.status != TxStatus::Success {
                return Err(
                    ExecutorError::NetworkQuery {
                        request,
                        error: NetworkQueryError::ExecutionFailed { response: outcome.response },
                    },
                );
            }
            match DeployOutcome::from_transaction(outcome) {
                None => Err(
                    ExecutorError::NetworkQuery {
                        request,
                        error: NetworkQueryError::MalformedPayload { body: Vec::new() },
                    },
                ),
                Some(deployment) => match T::decode(&deployment.response.data) {
                    Some(value) => Ok((deployment.address, value)),
                    None => Err(
                        ExecutorError::Data {
                            request,
                            error: DataError { raw: deployment.response.data },
                        },
                    ),
                },
            }
        },
    }
}

/// A deployment that succeeds answers with an address that is not empty
/// and with the value that the constructor's data decodes to. One that
/// the network fails or refuses answers with a network error that holds
/// the request.
pub proof fn lemma_deployment_is_settled<T: Decode>(
    request: Request,
    answer: Result<TransactionOutcome, NetworkQueryError>,
    result: Result<(Address, T), ExecutorError>,
)
    requires
        concludes_deployment(request, answer, result),
    ensures
        result matches Ok((address, value)) ==> {
            &&& address@.len() > 0
            &&& answer matches Ok(outcome)
            &&& outcome.response.status == TxStatus::Success
            &&& outcome.deployed == Some(address)
            &&& T::decoded(segments_view(outcome.response.data@)) == Some(value@)
        },
        answer matches Err(error) ==> result == Err::<(Address, T), ExecutorError>(
            ExecutorError::NetworkQuery { request, error },
        ),
        answer matches Ok(outcome) ==> (outcome.response.status != TxStatus::Success ==> result
            == Err::<(Address, T), ExecutorError>(
            ExecutorError::NetworkQuery {
                request,
                error: NetworkQueryError::ExecutionFailed { response: outcome.response },
            },
        )),
{
}

} // verus!
