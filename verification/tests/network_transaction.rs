use novax_executor::base::{DeployExecutor, TransactionExecutor};
use novax_executor::data::{
    Address, CodeMetadata, DeployRequest, Request, TokenTransfer, TransactionRequest,
};
use novax_executor::error::{DataError, ExecutorError, NetworkQueryError};
use novax_executor::network::conclusion::{conclude, conclude_deployment};
use novax_executor::network::interactor::BlockchainInteractor;
use novax_executor::network::nonce::NonceSequence;
use novax_executor::network::retry::{Backoff, PollStep, RetryPolicy};
use novax_executor::network::simulated::ScriptedInteractor;
use novax_executor::network::transaction::BaseTransactionNetworkExecutor;
use novax_executor::outcome::{RawResponse, TransactionOutcome, TxHash, TxStatus};
use novax_executor::utils::{SendableTransaction, SendableTransactionConvertible};

fn contract() -> Address {
    Address::new(vec![7u8; 32])
}

fn alice() -> Address {
    Address::new(vec![1u8; 32])
}

fn add(amount: u8) -> TransactionRequest {
    TransactionRequest {
        sender: alice(),
        to: contract(),
        function: String::from("add"),
        arguments: vec![vec![amount]],
        gas_limit: 5_000_000,
        value: 1_000_000_000_000_000_000,
        transfers: vec![TokenTransfer {
            identifier: String::from("TKN-123456"),
            nonce: 2,
            amount: 77,
        }],
    }
}

fn adder() -> DeployRequest {
    DeployRequest {
        sender: alice(),
        code: vec![0, 97, 115, 109],
        arguments: vec![vec![5]],
        gas_limit: 60_000_000,
        metadata: CodeMetadata { upgradeable: true, payable: false, readable: true },
    }
}

fn hash() -> TxHash {
    TxHash { bytes: vec![0xab; 32] }
}

fn outcome(status: TxStatus, data: Vec<Vec<u8>>) -> TransactionOutcome {
    TransactionOutcome { response: RawResponse { status, data, logs: vec![] }, deployed: None }
}

fn created(address: Address, data: Vec<Vec<u8>>) -> TransactionOutcome {
    TransactionOutcome {
        response: RawResponse { status: TxStatus::Success, data, logs: vec![] },
        deployed: Some(address),
    }
}

fn policy(max_attempts: u32) -> RetryPolicy {
    RetryPolicy { max_attempts, backoff: Backoff::Fixed { millis: 50 } }
}

fn executor(
    max_attempts: u32,
    answers: Vec<Result<TransactionOutcome, NetworkQueryError>>,
) -> BaseTransactionNetworkExecutor<ScriptedInteractor> {
    let mut interactor = ScriptedInteractor::new(10);
    interactor.accept_with(Ok(hash()));
    for answer in answers {
        interactor.report(answer);
    }
    BaseTransactionNetworkExecutor::new(interactor, policy(max_attempts))
}

#[test]
fn a_request_goes_into_the_transaction_as_it_is() {
    match add(3).to_sendable_transaction() {
        SendableTransaction::Call {
            sender,
            receiver,
            function,
            arguments,
            gas_limit,
            value,
            transfers,
        } => {
            assert_eq!(sender, alice());
            assert_eq!(receiver, contract());
            assert_eq!(function, "add");
            assert_eq!(arguments, vec![vec![3u8]]);
            assert_eq!(gas_limit, 5_000_000);
            assert_eq!(value, 1_000_000_000_000_000_000);
            assert_eq!(
                transfers,
                vec![TokenTransfer { identifier: String::from("TKN-123456"), nonce: 2, amount: 77 }]
            );
        }
        other => panic!("not a call: {:?}", other),
    }
    match adder().to_sendable_transaction() {
        SendableTransaction::Deploy { sender, code, metadata, arguments, gas_limit } => {
            assert_eq!(sender, alice());
            assert_eq!(code, vec![0u8, 97, 115, 109]);
            assert_eq!(
                metadata,
                CodeMetadata { upgradeable: true, payable: false, readable: true }
            );
            assert_eq!(arguments, vec![vec![5u8]]);
            assert_eq!(gas_limit, 60_000_000);
        }
        other => panic!("not a deployment: {:?}", other),
    }
}

#[test]
fn a_transaction_is_followed_until_it_is_settled() {
    let mut executor = executor(
        5,
        vec![
            Ok(outcome(TxStatus::Pending, vec![])),
            Err(NetworkQueryError::Unreachable),
            Ok(outcome(TxStatus::Success, vec![vec![1, 1]])),
        ],
    );
    let result: Result<u64, ExecutorError> = executor.execute(add(3));
    assert_eq!(result, Ok(257));
    assert_eq!(executor.interactor.inner().transactions().len(), 1);
    assert_eq!(executor.interactor.inner().used_nonces(), &vec![10]);
    assert_eq!(executor.interactor.inner().waits(), &vec![50, 50]);
    match &executor.interactor.inner().transactions()[0] {
        SendableTransaction::Call { function, gas_limit, .. } => {
            assert_eq!(function, "add");
            assert_eq!(*gas_limit, 5_000_000);
        }
        other => panic!("not a call: {:?}", other),
    }
}

#[test]
fn a_transaction_that_stays_pending_times_out() {
    let mut executor = executor(
        2,
        vec![
            Ok(outcome(TxStatus::Pending, vec![])),
            Ok(outcome(TxStatus::Pending, vec![])),
            Ok(outcome(TxStatus::Success, vec![vec![1]])),
        ],
    );
    let result: Result<u64, ExecutorError> = executor.execute(add(3));
    assert_eq!(
        result,
        Err(ExecutorError::NetworkQuery {
            request: Request::Transaction(add(3)),
            error: NetworkQueryError::Timeout { attempts: 2 }
        })
    );
    assert_eq!(executor.interactor.inner().transactions().len(), 1);
    assert_eq!(executor.interactor.inner().waits(), &vec![50]);
}

#[test]
fn a_transaction_that_the_chain_fails_holds_the_response() {
    let failed = outcome(TxStatus::Failed, vec![vec![4]]);
    let mut executor = executor(5, vec![Ok(failed.clone())]);
    let result: Result<u64, ExecutorError> = executor.execute(add(3));
    assert_eq!(
        result,
        Err(ExecutorError::NetworkQuery {
            request: Request::Transaction(add(3)),
            error: NetworkQueryError::ExecutionFailed { response: failed.response }
        })
    );
}

#[test]
fn a_failed_submission_is_not_repeated() {
    let mut interactor = ScriptedInteractor::new(0);
    interactor.accept_with(Err(NetworkQueryError::Unreachable));
    interactor.accept_with(Ok(hash()));
    interactor.report(Ok(outcome(TxStatus::Success, vec![vec![1]])));
    let mut executor = BaseTransactionNetworkExecutor::new(interactor, policy(5));
    let result: Result<u64, ExecutorError> = executor.execute(add(3));
    assert_eq!(
        result,
        Err(ExecutorError::NetworkQuery {
            request: Request::Transaction(add(3)),
            error: NetworkQueryError::Unreachable
        })
    );
    assert_eq!(executor.interactor.inner().transactions().len(), 1);
    assert!(executor.interactor.inner().waits().is_empty());

    let result: Result<u64, ExecutorError> = executor.execute(add(4));
    assert_eq!(result, Ok(1));
    assert_eq!(executor.interactor.inner().used_nonces(), &vec![0, 1]);
}

#[test]
fn a_lasting_failure_ends_the_polling() {
    let malformed = NetworkQueryError::MalformedPayload { body: vec![1] };
    let mut executor = executor(5, vec![Err(malformed.clone()), Ok(outcome(TxStatus::Success, vec![]))]);
    let result: Result<(), ExecutorError> = executor.execute(add(3));
    assert_eq!(
        result,
        Err(ExecutorError::NetworkQuery {
            request: Request::Transaction(add(3)),
            error: malformed
        })
    );
    assert!(executor.interactor.inner().waits().is_empty());
}

#[test]
fn a_transient_failure_at_the_last_attempt_is_the_result() {
    let mut executor = executor(
        2,
        vec![Ok(outcome(TxStatus::Pending, vec![])), Err(NetworkQueryError::Unreachable)],
    );
    let result: Result<(), ExecutorError> = executor.execute(add(3));
    assert_eq!(
        result,
        Err(ExecutorError::NetworkQuery {
            request: Request::Transaction(add(3)),
            error: NetworkQueryError::Unreachable
        })
    );
}

#[test]
fn a_policy_without_attempts_submits_and_times_out() {
    let mut executor = executor(0, vec![Ok(outcome(TxStatus::Success, vec![]))]);
    let result: Result<(), ExecutorError> = executor.execute(add(3));
    assert_eq!(
        result,
        Err(ExecutorError::NetworkQuery {
            request: Request::Transaction(add(3)),
            error: NetworkQueryError::Timeout { attempts: 0 }
        })
    );
    assert_eq!(executor.interactor.inner().transactions().len(), 1);
}

#[test]
fn data_of_a_transaction_that_does_not_decode_is_kept() {
    let mut executor = executor(5, vec![Ok(outcome(TxStatus::Success, vec![vec![2]]))]);
    let result: Result<bool, ExecutorError> = executor.execute(add(3));
    assert_eq!(
        result,
        Err(ExecutorError::Data {
            request: Request::Transaction(add(3)),
            error: DataError { raw: vec![vec![2]] }
        })
    );
}

#[test]
fn a_deployment_answers_with_the_new_address() {
    let mut executor = executor(5, vec![Ok(created(contract(), vec![vec![9]]))]);
    let result: Result<(Address, u64), ExecutorError> = executor.deploy(adder());
    assert_eq!(result, Ok((contract(), 9)));
    assert!(!result.unwrap().0.is_empty());
    assert!(matches!(
        executor.interactor.inner().transactions()[0],
        SendableTransaction::Deploy { .. }
    ));
}

#[test]
fn a_deployment_without_return_data_needs_none() {
    let mut executor = executor(5, vec![Ok(created(contract(), vec![]))]);
    let result: Result<(Address, ()), ExecutorError> = executor.deploy(adder());
    assert_eq!(result, Ok((contract(), ())));
}

#[test]
fn a_deployment_that_is_refused_is_a_network_error() {
    let failed = outcome(TxStatus::Failed, vec![]);
    let mut executor = executor(5, vec![Ok(failed.clone())]);
    let result: Result<(Address, ()), ExecutorError> = executor.deploy(adder());
    assert_eq!(
        result,
        Err(ExecutorError::NetworkQuery {
            request: Request::Deploy(adder()),
            error: NetworkQueryError::ExecutionFailed { response: failed.response }
        })
    );

    let mut interactor = ScriptedInteractor::new(0);
    interactor.accept_with(Err(NetworkQueryError::Status { code: 400, body: vec![] }));
    let mut executor = BaseTransactionNetworkExecutor::new(interactor, policy(5));
    let result: Result<(Address, ()), ExecutorError> = executor.deploy(adder());
    assert_eq!(
        result,
        Err(ExecutorError::NetworkQuery {
            request: Request::Deploy(adder()),
            error: NetworkQueryError::Status { code: 400, body: vec![] }
        })
    );
}

#[test]
fn a_deployment_that_names_no_contract_is_malformed() {
    for deployed in [None, Some(Address::new(vec![]))] {
        let mut answer = outcome(TxStatus::Success, vec![vec![1]]);
        answer.deployed = deployed;
        let result: Result<(Address, u64), ExecutorError> =
            conclude_deployment(Request::Deploy(adder()), Ok(answer));
        assert_eq!(
            result,
            Err(ExecutorError::NetworkQuery {
                request: Request::Deploy(adder()),
                error: NetworkQueryError::MalformedPayload { body: vec![] }
            })
        );
    }
}

#[test]
fn data_of_a_deployment_that_does_not_decode_is_kept() {
    let result: Result<(Address, u64), ExecutorError> =
        conclude_deployment(Request::Deploy(adder()), Ok(created(contract(), vec![])));
    assert_eq!(
        result,
        Err(ExecutorError::Data {
            request: Request::Deploy(adder()),
            error: DataError { raw: vec![] }
        })
    );
}

#[test]
fn a_conclusion_decodes_a_success_only() {
    let request = Request::Transaction(add(1));
    let pending = RawResponse { status: TxStatus::Pending, data: vec![vec![1]], logs: vec![] };
    let result: Result<u64, ExecutorError> = conclude(request.clone(), Ok(pending.clone()));
    assert_eq!(
        result,
        Err(ExecutorError::NetworkQuery {
            request: request.clone(),
            error: NetworkQueryError::ExecutionFailed { response: pending }
        })
    );
    let success = RawResponse { status: TxStatus::Success, data: vec![vec![1]], logs: vec![] };
    let result: Result<u64, ExecutorError> = conclude(request, Ok(success));
    assert_eq!(result, Ok(1));
}

#[test]
fn the_step_after_a_poll_follows_the_policy() {
    let policy = RetryPolicy {
        max_attempts: 3,
        backoff: Backoff::Exponential { initial_millis: 10, max_millis: 1000 },
    };
    let done = outcome(TxStatus::Success, vec![vec![1]]);
    assert_eq!(policy.after_poll(1, Ok(done.clone())), PollStep::Finish(Ok(done)));
    let failed = outcome(TxStatus::Failed, vec![]);
    assert_eq!(
        policy.after_poll(1, Ok(failed.clone())),
        PollStep::Finish(Err(NetworkQueryError::ExecutionFailed { response: failed.response }))
    );
    let pending = outcome(TxStatus::Pending, vec![]);
    assert_eq!(policy.after_poll(1, Ok(pending.clone())), PollStep::Again { millis: 10 });
    assert_eq!(policy.after_poll(2, Ok(pending.clone())), PollStep::Again { millis: 20 });
    assert_eq!(
        policy.after_poll(3, Ok(pending)),
        PollStep::Finish(Err(NetworkQueryError::Timeout { attempts: 3 }))
    );
    assert_eq!(
        policy.after_poll(2, Err(NetworkQueryError::Unreachable)),
        PollStep::Again { millis: 20 }
    );
    assert_eq!(
        policy.after_poll(3, Err(NetworkQueryError::Unreachable)),
        PollStep::Finish(Err(NetworkQueryError::Unreachable))
    );
    assert_eq!(
        policy.after_poll(1, Err(NetworkQueryError::MalformedPayload { body: vec![] })),
        PollStep::Finish(Err(NetworkQueryError::MalformedPayload { body: vec![] }))
    );
}

#[test]
fn nonces_are_given_in_strictly_growing_order() {
    let mut nonces = NonceSequence::starting_at(41);
    assert_eq!(nonces.peek(), Some(41));
    let drawn: Vec<u64> = (0..5).map(|_| nonces.acquire().unwrap()).collect();
    assert_eq!(drawn, vec![41, 42, 43, 44, 45]);
    assert!(drawn.windows(2).all(|pair| pair[0] < pair[1]));
}

#[test]
fn nonces_run_out_before_they_wrap() {
    let mut nonces = NonceSequence::starting_at(u64::MAX - 1);
    assert_eq!(nonces.acquire(), Some(u64::MAX - 1));
    assert_eq!(nonces.peek(), None);
    assert_eq!(nonces.acquire(), None);
    assert_eq!(nonces.acquire(), None);
}

#[test]
fn every_submission_gets_a_nonce_of_its_own() {
    let mut interactor = ScriptedInteractor::new(7);
    for _ in 0..4 {
        interactor.accept_with(Ok(hash()));
        interactor.report(Ok(outcome(TxStatus::Success, vec![])));
    }
    let mut executor = BaseTransactionNetworkExecutor::new(interactor, policy(3));
    for amount in 0..4 {
        let result: Result<(), ExecutorError> = executor.execute(add(amount));
        assert_eq!(result, Ok(()));
    }
    let used = executor.interactor.inner().used_nonces();
    assert_eq!(used, &vec![7, 8, 9, 10]);
    assert!(used.windows(2).all(|pair| pair[0] < pair[1]));
}

#[test]
fn a_scripted_interactor_out_of_nonces_takes_nothing() {
    let mut interactor = ScriptedInteractor::new(u64::MAX);
    interactor.accept_with(Ok(hash()));
    let transaction = add(1).to_sendable_transaction();
    assert_eq!(interactor.sign_and_send(&transaction), Err(NetworkQueryError::Unreachable));
    assert!(interactor.used_nonces().is_empty());
    assert!(interactor.transactions().is_empty());
    assert_eq!(interactor.await_outcome(&hash()), Err(NetworkQueryError::Unreachable));
    interactor.pause(3);
    assert_eq!(interactor.waits(), &vec![3]);
}

#[test]
fn submit_returns_the_settled_outcome() {
    let settled = outcome(TxStatus::Success, vec![vec![1]]);
    let mut executor = executor(3, vec![Ok(settled.clone())]);
    let transaction = add(1).to_sendable_transaction();
    assert_eq!(executor.submit(&transaction.clone()), Ok(settled));
}
