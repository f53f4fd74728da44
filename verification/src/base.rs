//! The three capabilities of an executor.
//!
//! Each is a trait of its own, so that a backend provides exactly the ones
//! it supports, and code written against a capability runs on every backend
//! that has it. `T` is the type that the caller wants the answer in.
//!
//! A request is handed over for good: it serves one call. What a backend
//! promises about the answer is stated where the backend implements the
//! capability.

use vstd::prelude::*;
use crate::data::{Address, DeployRequest, QueryRequest, TransactionRequest};
use crate::error::ExecutorError;

verus! {

/// Reads contract state. Nothing on chain changes, so a query may be asked
/// again at will.
pub trait QueryExecutor<T> {
    fn query(&mut self, request: QueryRequest) -> Result<T, ExecutorError>;
}

/// Submits a call that changes state. A call that may have reached the
/// chain is never submitted a second time behind the caller's back.
pub trait TransactionExecutor<T> {
    fn execute(&mut self, request: TransactionRequest) -> Result<T, ExecutorError>;
}

/// Creates a contract, and answers with its address and with what its
/// constructor returned.
pub trait DeployExecutor<T> {
    fn deploy(&mut self, request: DeployRequest) -> Result<(Address, T), ExecutorError>;
}

} // verus!
