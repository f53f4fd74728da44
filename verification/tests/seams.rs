use novax_executor::base::{DeployExecutor, QueryExecutor, TransactionExecutor};
use novax_executor::data::{
    Address, CodeMetadata, DeployRequest, QueryRequest, Request, TransactionRequest,
};
use novax_executor::dummy::DummyExecutor;
use novax_executor::error::{ExecutorError, MockDeployError, NetworkQueryError};
use novax_executor::mocking::MockExecutor;
use novax_executor::network::interactor::{BlockchainInteractor, TracedInteractor};
use novax_executor::network::proxy::{BlockchainProxy, RawQuery, TracedProxy};
use novax_executor::network::query::QueryNetworkExecutor;
use novax_executor::network::retry::{Backoff, RetryPolicy};
use novax_executor::network::transaction::BaseTransactionNetworkExecutor;
use novax_executor::outcome::{RawResponse, TransactionOutcome, TxHash, TxStatus};
use novax_executor::utils::SendableTransaction;

/// A gateway in which every contract holds the number 5.
struct Fives {
    asked: u32,
}

impl BlockchainProxy for Fives {
    fn send_raw_query(
        &mut self,
        _endpoint: &String,
        _payload: &RawQuery,
    ) -> Result<RawResponse, NetworkQueryError> {
        self.asked += 1;
        Ok(RawResponse { status: TxStatus::Success, data: vec![vec![5]], logs: vec![] })
    }

    fn pause(&mut self, _millis: u64) {}
}

/// A chain that settles every transaction at the third time of asking.
struct Slow {
    submitted: u32,
    asked: u32,
    waited: u64,
}

impl BlockchainInteractor for Slow {
    fn sign_and_send(
        &mut self,
        _transaction: &SendableTransaction,
    ) -> Result<TxHash, NetworkQueryError> {
        self.submitted += 1;
        self.asked = 0;
        Ok(TxHash { bytes: vec![self.submitted as u8] })
    }

    fn await_outcome(&mut self, hash: &TxHash) -> Result<TransactionOutcome, NetworkQueryError> {
        self.asked += 1;
        let status = if self.asked < 3 { TxStatus::Pending } else { TxStatus::Success };
        Ok(TransactionOutcome {
            response: RawResponse { status, data: vec![hash.bytes.clone()], logs: vec![] },
            deployed: Some(Address::new(vec![3; 32])),
        })
    }

    fn pause(&mut self, millis: u64) {
        self.waited += millis;
    }
}

fn get_sum() -> QueryRequest {
    QueryRequest {
        to: Address::new(vec![7; 32]),
        function: String::from("getSum"),
        arguments: vec![],
    }
}

fn ping() -> TransactionRequest {
    TransactionRequest {
        sender: Address::new(vec![1; 32]),
        to: Address::new(vec![7; 32]),
        function: String::from("ping"),
        arguments: vec![],
        gas_limit: 1_000_000,
        value: 0,
        transfers: vec![],
    }
}

fn code() -> DeployRequest {
    DeployRequest {
        sender: Address::new(vec![1; 32]),
        code: vec![1, 2, 3],
        arguments: vec![],
        gas_limit: 1_000_000,
        metadata: CodeMetadata { upgradeable: false, payable: false, readable: true },
    }
}

fn policy(max_attempts: u32) -> RetryPolicy {
    RetryPolicy { max_attempts, backoff: Backoff::Fixed { millis: 20 } }
}

/// Code that is written once, against the capability.
fn sum_plus_one<E: QueryExecutor<u64>>(executor: &mut E) -> Result<u64, ExecutorError> {
    Ok(executor.query(get_sum())? + 1)
}

#[test]
fn the_same_code_runs_on_every_backend() {
    let mut network =
        QueryNetworkExecutor::new(String::from("https://gateway.test"), Fives { asked: 0 }, policy(3));
    assert_eq!(sum_plus_one(&mut network), Ok(6));
    assert_eq!(network.proxy.inner().asked, 1);

    let mut mock: MockExecutor<u64> = MockExecutor::new();
    mock.expect_query(get_sum(), Ok(41));
    assert_eq!(sum_plus_one(&mut mock), Ok(42));
    assert_eq!(
        sum_plus_one(&mut mock),
        Err(ExecutorError::MockDeploy(MockDeployError::NoMoreExpectedCalls {
            actual: Request::Query(get_sum())
        }))
    );

    let mut dummy = DummyExecutor::new(9u64);
    assert_eq!(sum_plus_one(&mut dummy), Ok(10));
    assert_eq!(sum_plus_one(&mut dummy), Ok(10));
}

#[test]
fn a_transaction_on_a_slow_chain_is_submitted_once() {
    let slow = Slow { submitted: 0, asked: 0, waited: 0 };
    let mut executor = BaseTransactionNetworkExecutor::new(slow, policy(5));
    let result: Result<u64, ExecutorError> = executor.execute(ping());
    assert_eq!(result, Ok(1));
    let result: Result<(Address, u64), ExecutorError> = executor.deploy(code());
    assert_eq!(result, Ok((Address::new(vec![3; 32]), 2)));

    let slow = executor.interactor.into_inner();
    assert_eq!(slow.submitted, 2);
    assert_eq!(slow.asked, 3);
    assert_eq!(slow.waited, 80);
}

#[test]
fn a_transaction_on_a_slow_chain_times_out_under_a_short_policy() {
    let slow = Slow { submitted: 0, asked: 0, waited: 0 };
    let mut executor = BaseTransactionNetworkExecutor::new(slow, policy(2));
    let result: Result<u64, ExecutorError> = executor.execute(ping());
    assert_eq!(
        result,
        Err(ExecutorError::NetworkQuery {
            request: Request::Transaction(ping()),
            error: NetworkQueryError::Timeout { attempts: 2 }
        })
    );
    let slow = executor.interactor.into_inner();
    assert_eq!(slow.submitted, 1);
    assert_eq!(slow.asked, 2);
    assert_eq!(slow.waited, 20);
}

#[test]
fn an_account_hands_every_call_on() {
    let mut proxy = TracedProxy::new(Fives { asked: 0 });
    let payload = RawQuery {
        address: Address::new(vec![7; 32]),
        function: String::from("getSum"),
        caller: Address::new(vec![7; 32]),
        value: 0,
        arguments: vec![],
    };
    let answer = proxy.send_raw_query(&String::from("https://gateway.test"), &payload);
    assert_eq!(answer.unwrap().data, vec![vec![5u8]]);
    proxy.pause(1);
    assert_eq!(proxy.inner().asked, 1);
    assert_eq!(proxy.into_inner().asked, 1);

    let mut interactor = TracedInteractor::new(Slow { submitted: 0, asked: 0, waited: 0 });
    let transaction = SendableTransaction::Deploy {
        sender: Address::new(vec![1; 32]),
        code: vec![1],
        metadata: CodeMetadata { upgradeable: false, payable: false, readable: false },
        arguments: vec![],
        gas_limit: 1,
    };
    let hash = interactor.sign_and_send(&transaction).unwrap();
    assert_eq!(hash, TxHash { bytes: vec![1] });
    assert_eq!(
        interactor.await_outcome(&hash).unwrap().response.status,
        TxStatus::Pending
    );
    interactor.pause(4);
    assert_eq!(interactor.inner().waited, 4);
    assert_eq!(interactor.into_inner().asked, 1);
}
