//! The transaction as it is handed to an interactor for signing.

use vstd::prelude::*;
use crate::bytes::{copy_bytes, copy_segments, segments_view};
use crate::data::{
    copy_transfers,
    transfers_view,
    Address,
    CodeMetadata,
    DeployRequest,
    TokenTransfer,
    TokenTransferView,
    TransactionRequest,
};

verus! {

/// A transaction that is ready to be signed and sent: a call of a
/// contract's function, or the creation of a contract.
#[derive(Debug)]
pub enum SendableTransaction {
    Call {
        sender: Address,
        receiver: Address,
        function: String,
        arguments: Vec<Vec<u8>>,
        gas_limit: u64,
        value: u128,
        transfers: Vec<TokenTransfer>,
    },
    Deploy {
        sender: Address,
        code: Vec<u8>,
        metadata: CodeMetadata,
        arguments: Vec<Vec<u8>>,
        gas_limit: u64,
    },
}

pub enum SendableTransactionView {
    Call {
        sender: Seq<u8>,
        receiver: Seq<u8>,
        function: Seq<char>,
        arguments: Seq<Seq<u8>>,
        gas_limit: u64,
        value: u128,
        transfers: Seq<TokenTransferView>,
    },
    Deploy {
        sender: Seq<u8>,
        code: Seq<u8>,
        metadata: CodeMetadata,
        arguments: Seq<Seq<u8>>,
        gas_limit: u64,
    },
}

impl View for SendableTransaction {
    type V = SendableTransactionView;

    open spec fn view(&self) -> SendableTransactionView {
        match self {
            SendableTransaction::Call {
                sender,
                receiver,
                function,
                arguments,
                gas_limit,
                value,
                transfers,
            } => SendableTransactionView::Call {
                sender: sender@,
                receiver: receiver@,
                function: function@,
                arguments: segments_view(arguments@),
                gas_limit: *gas_limit,
                value: *value,
                transfers: transfers_view(transfers@),
            },
            SendableTransaction::Deploy {
                sender,
                code,
                metadata,
                arguments,
                gas_limit,
            } => SendableTransactionView::Deploy {
                sender: sender@,
                code: code@,
                metadata: *metadata,
                arguments: segments_view(arguments@),
                gas_limit: *gas_limit,
            },
        }
    }
}

impl Clone for SendableTransaction {
    fn clone(&self) -> (copy: SendableTransaction)
        ensures
            copy@ == self@,
    {
        match self {
            SendableTransaction::Call {
                sender,
                receiver,
                function,
                arguments,
                gas_limit,
                value,
                transfers,
            } => SendableTransaction::Call {
                sender: sender.clone(),
                receiver: receiver.clone(),
                function: function.clone(),
                arguments: copy_segments(arguments),
                gas_limit: *gas_limit,
                value: *value,
                transfers: copy_transfers(transfers),
            },
            SendableTransaction::Deploy {
                sender,
                code,
                metadata,
                arguments,
                gas_limit,
            } => SendableTransaction::Deploy {
                sender: sender.clone(),
                code: copy_bytes(code),
                metadata: *metadata,
                arguments: copy_segments(arguments),
                gas_limit: *gas_limit,
            },
        }
    }
}

/// A request that can be sent as a transaction. Gas, value and token
/// transfers go into the transaction as the request has them.
pub trait SendableTransactionConvertible {
    /// The transaction that this request is sent as.
    spec fn sendable(&self) -> SendableTransactionView;

    fn to_sendable_transaction(&self) -> (transaction: SendableTransaction)
        ensures
            transaction@ == self.sendable(),
    ;
}

impl SendableTransactionConvertible for TransactionRequest {
    open spec fn sendable(&self) -> SendableTransactionView {
        SendableTransactionView::Call {
            sender: self.sender@,
            receiver: self.to@,
            function: self.function@,
            arguments: segments_view(self.arguments@),
            gas_limit: self.gas_limit,
            value: self.value,
            transfers: transfers_view(self.transfers@),
        }
    }

    fn to_sendable_transaction(&self) -> (transaction: SendableTransaction) {
        SendableTransaction::Call {
            sender: self.sender.clone(),
            receiver: self.to.clone(),
            function: self.function.clone(),
            arguments: copy_segments(&self.arguments),
            gas_limit: self.gas_limit,
            value: self.value,
            transfers: copy_transfers(&self.transfers),
        }
    }
}

impl SendableTransactionConvertible for DeployRequest {
    open spec fn sendable(&self) -> SendableTransactionView {
        SendableTransactionView::Deploy {
            sender: self.sender@,
            code: self.code@,
            metadata: self.metadata,
            arguments: segments_view(self.arguments@),
            gas_limit: self.gas_limit,
        }
    }

    fn to_sendable_transaction(&self) -> (transaction: SendableTransaction) {
        SendableTransaction::Deploy {
            sender: self.sender.clone(),
            code: copy_bytes(&self.code),
            metadata: self.metadata,
            arguments: copy_segments(&self.arguments),
            gas_limit: self.gas_limit,
        }
    }
}

} // verus!
