//! Executors for smart-contract interactions: one capability per kind of
//! interaction (query, transaction, deployment), and three interchangeable
//! families of backends (network, mock, dummy) that provide them.

pub mod base;
pub mod bytes;
pub mod codec;
pub mod data;
pub mod dummy;
pub mod error;
pub mod mocking;
pub mod network;
pub mod outcome;
pub mod utils;

pub use base::DeployExecutor;
pub use base::QueryExecutor;
pub use base::TransactionExecutor;
pub use dummy::DummyDeployExecutor;
pub use dummy::DummyExecutor;
pub use dummy::DummyTransactionExecutor;
pub use error::ExecutorError;
pub use error::MockDeployError;
pub use error::NetworkQueryError;
pub use mocking::MockExecutor;
pub use mocking::StandardMockExecutor;
pub use network::interactor::BlockchainInteractor;
pub use network::proxy::BlockchainProxy;
pub use network::query::QueryNetworkExecutor;
pub use network::transaction::BaseTransactionNetworkExecutor;
pub use utils::SendableTransaction;
pub use utils::SendableTransactionConvertible;
