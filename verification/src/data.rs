//! The requests that an executor takes, and the values they are made of.
//!
//! Every type here has a view, a plain mathematical value that says what the
//! request asks for. Two requests have the same shape when their views are
//! equal, and `==` on them decides exactly that.

use vstd::prelude::*;
use vstd::std_specs::cmp::PartialEqSpecImpl;
use crate::bytes::{bytes_eq, copy_bytes, copy_segments, segments_eq, segments_view};

verus! {

/// The address of an account or of a contract.
#[derive(Debug)]
pub struct Address {
    pub bytes: Vec<u8>,
}

impl View for Address {
    type V = Seq<u8>;

    open spec fn view(&self) -> Seq<u8> {
        self.bytes@
    }
}

impl Address {
    pub fn new(bytes: Vec<u8>) -> (address: Address)
        ensures
            address@ == bytes@,
    {
        Address { bytes }
    }

    /// An address of no bytes names nothing.
    pub fn is_empty(&self) -> (empty: bool)
        ensures
            empty == (self@.len() == 0),
    {
        self.bytes.len() == 0
    }
}

impl PartialEq for Address {
    fn eq(&self, other: &Address) -> (same: bool) {
        bytes_eq(&self.bytes, &other.bytes)
    }
}

impl Eq for Address {}

impl PartialEqSpecImpl for Address {
    open spec fn obeys_eq_spec() -> bool {
        true
    }

    open spec fn eq_spec(&self, other: &Address) -> bool {
        self@ == other@
    }
}

impl Clone for Address {
    fn clone(&self) -> (copy: Address)
        ensures
            copy@ == self@,
    {
        Address { bytes: copy_bytes(&self.bytes) }
    }
}

/// An amount of one token that travels with a transaction.
#[derive(Debug)]
pub struct TokenTransfer {
    pub identifier: String,
    pub nonce: u64,
    pub amount: u128,
}

pub struct TokenTransferView {
    pub identifier: Seq<char>,
    pub nonce: u64,
    pub amount: u128,
}

impl View for TokenTransfer {
    type V = TokenTransferView;

    open spec fn view(&self) -> TokenTransferView {
        TokenTransferView { identifier: self.identifier@, nonce: self.nonce, amount: self.amount }
    }
}

impl PartialEq for TokenTransfer {
    fn eq(&self, other: &TokenTransfer) -> (same: bool) {
        self.identifier == other.identifier && self.nonce == other.nonce && self.amount
            == other.amount
    }
}

impl Eq for TokenTransfer {}

impl PartialEqSpecImpl for TokenTransfer {
    open spec fn obeys_eq_spec() -> bool {
        true
    }

    open spec fn eq_spec(&self, other: &TokenTransfer) -> bool {
        self@ == other@
    }
}

impl Clone for TokenTransfer {
    fn clone(&self) -> (copy: TokenTransfer)
        ensures
            copy@ == self@,
    {
        TokenTransfer {
            identifier: self.identifier.clone(),
            nonce: self.nonce,
            amount: self.amount,
        }
    }
}

/// The contents of a list of token transfers, each taken by its view.
pub open spec fn transfers_view(transfers: Seq<TokenTransfer>) -> Seq<TokenTransferView> {
    Seq::new(transfers.len(), |i: int| transfers[i]@)
}

/// Tells whether two lists hold the same transfers in the same order.
pub fn transfers_eq(a: &Vec<TokenTransfer>, b: &Vec<TokenTransfer>) -> (same: bool)
    ensures
        same == (transfers_view(a@) == transfers_view(b@)),
{
    if a.len() != b.len() {
        assert(transfers_view(a@).len() != transfers_view(b@).len());
        return false;
    }
    let mut i: usize = 0;
    while i < a.len()
        invariant
            i <= a.len(),
            a.len() == b.len(),
            forall|j: int| 0 <= j < i ==> a@[j]@ == b@[j]@,
        decreases a.len() - i,
    {
        if a[i] != b[i] {
            assert(transfers_view(a@)[i as int] != transfers_view(b@)[i as int]);
            return false;
        }
        i += 1;
    }
    assert(transfers_view(a@) =~= transfers_view(b@));
    true
}

/// Copies a list of token transfers.
pub fn copy_transfers(a: &Vec<TokenTransfer>) -> (copy: Vec<TokenTransfer>)
    ensures
        transfers_view(copy@) == transfers_view(a@),
{
    let mut copy: Vec<TokenTransfer> = Vec::with_capacity(a.len());
    let mut i: usize = 0;
    while i < a.len()
        invariant
            i <= a.len(),
            copy.len() == i,
            forall|j: int| 0 <= j < i ==> copy@[j]@ == a@[j]@,
        decreases a.len() - i,
    {
        copy.push(a[i].clone());
        i += 1;
    }
    assert(transfers_view(copy@) =~= transfers_view(a@));
    copy
}

/// What a deployed contract allows once it is on chain.
#[derive(Clone, Copy, Debug, PartialEq, Eq, Structural)]
pub struct CodeMetadata {
    pub upgradeable: bool,
    pub payable: bool,
    pub readable: bool,
}

/// A read of a contract's state: nothing on chain changes.
#[derive(Debug)]
pub struct QueryRequest {
    pub to: Address,
    pub function: String,
    pub arguments: Vec<Vec<u8>>,
}

pub struct QueryRequestView {
    pub to: Seq<u8>,
    pub function: Seq<char>,
    pub arguments: Seq<Seq<u8>>,
}

impl View for QueryRequest {
    type V = QueryRequestView;

    open spec fn view(&self) -> QueryRequestView {
        QueryRequestView {
            to: self.to@,
            function: self.function@,
            arguments: segments_view(self.arguments@),
        }
    }
}

impl PartialEq for QueryRequest {
    fn eq(&self, other: &QueryRequest) -> (same: bool) {
        self.to == other.to && self.function == other.function && segments_eq(
            &self.arguments,
            &other.arguments,
        )
    }
}

impl Eq for QueryRequest {}

impl PartialEqSpecImpl for QueryRequest {
    open spec fn obeys_eq_spec() -> bool {
        true
    }

    open spec fn eq_spec(&self, other: &QueryRequest) -> bool {
        self@ == other@
    }
}

impl Clone for QueryRequest {
    fn clone(&self) -> (copy: QueryRequest)
        ensures
            copy@ == self@,
    {
        QueryRequest {
            to: self.to.clone(),
            function: self.function.clone(),
            arguments: copy_segments(&self.arguments),
        }
    }
}

/// A call that changes state: it is signed by its sender, costs gas, and may
/// carry the native value and tokens.
#[derive(Debug)]
pub struct TransactionRequest {
    pub sender: Address,
    pub to: Address,
    pub function: String,
    pub arguments: Vec<Vec<u8>>,
    pub gas_limit: u64,
    pub value: u128,
    pub transfers: Vec<TokenTransfer>,
}

pub struct TransactionRequestView {
    pub sender: Seq<u8>,
    pub to: Seq<u8>,
    pub function: Seq<char>,
    pub arguments: Seq<Seq<u8>>,
    pub gas_limit: u64,
    pub value: u128,
    pub transfers: Seq<TokenTransferView>,
}

impl View for TransactionRequest {
    type V = TransactionRequestView;

    open spec fn view(&self) -> TransactionRequestView {
        TransactionRequestView {
            sender: self.sender@,
            to: self.to@,
            function: self.function@,
            arguments: segments_view(self.arguments@),
            gas_limit: self.gas_limit,
            value: self.value,
            transfers: transfers_view(self.transfers@),
        }
    }
}

impl PartialEq for TransactionRequest {
    fn eq(&self, other: &TransactionRequest) -> (same: bool) {
        self.sender == other.sender && self.to == other.to && self.function == other.function
            && segments_eq(&self.arguments, &other.arguments) && self.gas_limit
            == other.gas_limit && self.value == other.value && transfers_eq(
            &self.transfers,
            &other.transfers,
        )
    }
}

impl Eq for TransactionRequest {}

impl PartialEqSpecImpl for TransactionRequest {
    open spec fn obeys_eq_spec() -> bool {
        true
    }

    open spec fn eq_spec(&self, other: &TransactionRequest) -> bool {
        self@ == other@
    }
}

impl Clone for TransactionRequest {
    fn clone(&self) -> (copy: TransactionRequest)
        ensures
            copy@ == self@,
    {
        TransactionRequest {
            sender: self.sender.clone(),
            to: self.to.clone(),
            function: self.function.clone(),
            arguments: copy_segments(&self.arguments),
            gas_limit: self.gas_limit,
            value: self.value,
            transfers: copy_transfers(&self.transfers),
        }
    }
}

/// The creation of a contract from its code.
#[derive(Debug)]
pub struct DeployRequest {
    pub sender: Address,
    pub code: Vec<u8>,
    pub arguments: Vec<Vec<u8>>,
    pub gas_limit: u64,
    pub metadata: CodeMetadata,
}

pub struct DeployRequestView {
    pub sender: Seq<u8>,
    pub code: Seq<u8>,
    pub arguments: Seq<Seq<u8>>,
    pub gas_limit: u64,
    pub metadata: CodeMetadata,
}

impl View for DeployRequest {
    type V = DeployRequestView;

    open spec fn view(&self) -> DeployRequestView {
        DeployRequestView {
            sender: self.sender@,
            code: self.code@,
            arguments: segments_view(self.arguments@),
            gas_limit: self.gas_limit,
            metadata: self.metadata,
        }
    }
}

impl PartialEq for DeployRequest {
    fn eq(&self, other: &DeployRequest) -> (same: bool) {
        self.sender == other.sender && bytes_eq(&self.code, &other.code) && segments_eq(
            &self.arguments,
            &other.arguments,
        ) && self.gas_limit == other.gas_limit && self.metadata == other.metadata
    }
}

impl Eq for DeployRequest {}

impl PartialEqSpecImpl for DeployRequest {
    open spec fn obeys_eq_spec() -> bool {
        true
    }

    open spec fn eq_spec(&self, other: &DeployRequest) -> bool {
        self@ == other@
    }
}

impl Clone for DeployRequest {
    fn clone(&self) -> (copy: DeployRequest)
        ensures
            copy@ == self@,
    {
        DeployRequest {
            sender: self.sender.clone(),
            code: copy_bytes(&self.code),
            arguments: copy_segments(&self.arguments),
            gas_limit: self.gas_limit,
            metadata: self.metadata,
        }
    }
}

/// A request of any of the three kinds: the shape of one call to an executor.
#[derive(Debug)]
pub enum Request {
    Query(QueryRequest),
    Transaction(TransactionRequest),
    Deploy(DeployRequest),
}

pub enum RequestView {
    Query(QueryRequestView),
    Transaction(TransactionRequestView),
    Deploy(DeployRequestView),
}

impl View for Request {
    type V = RequestView;

    open spec fn view(&self) -> RequestView {
        match self {
            Request::Query(request) => RequestView::Query(request@),
            Request::Transaction(request) => RequestView::Transaction(request@),
            Request::Deploy(request) => RequestView::Deploy(request@),
        }
    }
}

impl PartialEq for Request {
    fn eq(&self, other: &Request) -> (same: bool) {
        match (self, other) {
            (Request::Query(a), Request::Query(b)) => a == b,
            (Request::Transaction(a), Request::Transaction(b)) => a == b,
            (Request::Deploy(a), Request::Deploy(b)) => a == b,
            _ => false,
        }
    }
}

impl Eq for Request {}

impl PartialEqSpecImpl for Request {
    open spec fn obeys_eq_spec() -> bool {
        true
    }

    open spec fn eq_spec(&self, other: &Request) -> bool {
        self@ == other@
    }
}

impl Clone for Request {
    fn clone(&self) -> (copy: Request)
        ensures
            copy@ == self@,
    {
        match self {
            Request::Query(request) => Request::Query(request.clone()),
            Request::Transaction(request) => Request::Transaction(request.clone()),
            Request::Deploy(request) => Request::Deploy(request.clone()),
        }
    }
}

} // verus!
