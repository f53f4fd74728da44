//! Executors that do nothing.
//!
//! A dummy holds the value it was made with and answers every call with a
//! copy of it. It looks at no request, keeps no record, reaches no network
//! and never fails: it is there for code that needs some executor and does
//! not care what the executor does.

use vstd::prelude::*;
use crate::base::{DeployExecutor, QueryExecutor, TransactionExecutor};
use crate::data::{Address, DeployRequest, QueryRequest, TransactionRequest};
use crate::error::ExecutorError;

verus! {

/// The length of the address that a dummy deployment answers with by
/// default.
pub const DEFAULT_ADDRESS_LEN: usize = 32;

/// The address that a dummy deployment answers with where none was
/// configured: 32 zero bytes.
pub open spec fn default_address() -> Seq<u8> {
    Seq::new(DEFAULT_ADDRESS_LEN as nat, |i: int| 0u8)
}

/// Answers every query with a copy of `value`.
pub struct DummyExecutor<T: Clone> {
    pub value: T,
}

impl<T: Clone> DummyExecutor<T> {
    pub fn new(value: T) -> (dummy: Self)
        ensures
            dummy.value == value,
    {
        DummyExecutor { value }
    }
}

impl<T: Clone> QueryExecutor<T> for DummyExecutor<T> {
    /// Succeeds with a copy of the configured value, whatever the request,
    /// and leaves the dummy as it was.
    fn query(&mut self, request: QueryRequest) -> (result: Result<T, ExecutorError>)
        ensures
            *final(self) == *old(self),
            result matches Ok(value) && cloned(old(self).value, value),
    {
        Ok(self.value.clone())
    }
}

/// Answers every transaction with a copy of `value`.
pub struct DummyTransactionExecutor<T: Clone> {
    pub value: T,
}

impl<T: Clone> DummyTransactionExecutor<T> {
    pub fn new(value: T) -> (dummy: Self)
        ensures
            dummy.value == value,
    {
        DummyTransactionExecutor { value }
    }
}

impl<T: Clone> TransactionExecutor<T> for DummyTransactionExecutor<T> {
    /// Succeeds with a copy of the configured value, whatever the request,
    /// and leaves the dummy as it was.
    fn execute(&mut self, request: TransactionRequest) -> (result: Result<T, ExecutorError>)
        ensures
            *final(self) == *old(self),
            result matches Ok(value) && cloned(old(self).value, value),
    {
        Ok(self.value.clone())
    }
}

/// Answers every deployment with a copy of `address` and of `value`.
pub struct DummyDeployExecutor<T: Clone> {
    pub address: Address,
    pub value: T,
}

impl<T: Clone> DummyDeployExecutor<T> {
    pub fn new(address: Address, value: T) -> (dummy: Self)
        ensures
            dummy.address == address,
            dummy.value == value,
    {
        DummyDeployExecutor { address, value }
    }

    /// A dummy that answers with the default address.
    pub fn with_default_address(value: T) -> (dummy: Self)
        ensures
            dummy.address@ == default_address(),
            dummy.value == value,
    {
        let mut bytes: Vec<u8> = Vec::with_capacity(DEFAULT_ADDRESS_LEN);
        let mut i: usize = 0;
        while i < DEFAULT_ADDRESS_LEN
            invariant
                i <= DEFAULT_ADDRESS_LEN,
                bytes@.len() == i,
                forall|j: int| 0 <= j < i ==> bytes@[j] == 0u8,
            decreases DEFAULT_ADDRESS_LEN - i,
        {
            bytes.push(0u8);
            i += 1;
        }
        assert(bytes@ =~= default_address());
        DummyDeployExecutor { address: Address::new(bytes), value }
    }
}

impl<T: Clone> DeployExecutor<T> for DummyDeployExecutor<T> {
    /// Succeeds with a copy of the configured address and value, whatever
    /// the request, and leaves the dummy as it was.
    fn deploy(&mut self, request: DeployRequest) -> (result: Result<(Address, T), ExecutorError>)
        ensures
            *final(self) == *old(self),
            result matches Ok((address, value)) && address@ == old(self).address@ && cloned(
                old(self).value,
                value,
            ),
    {
        Ok((self.address.clone(), self.value.clone()))
    }
}

} // verus!
