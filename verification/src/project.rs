//! The transaction projector: converts one chain-internal transaction plus its
//! execution receipt and ordered trace list into the externally visible
//! transaction-with-receipt shape.

use vstd::prelude::*;

verus! {

use crate::chain::{
    ChainAction, ChainActionV, ChainTransaction, ChainTransactionV, Receipt, ReceiptV, Trace,
    TraceV, chain_transaction_wf,
};
use crate::contract_address::{created_address, spec_created_address};
use crate::types::{Address, Bytes, Hash256, U256, duplicate_opt_hash};

/// One externally visible transaction, localized to the block it sits in.
pub struct Transaction {
    pub hash: Hash256,
    pub nonce: U256,
    pub block_hash: Option<Hash256>,
    pub block_number: Option<u64>,
    pub transaction_index: u64,
    pub from: Address,
    pub to: Option<Address>,
    pub value: U256,
    pub gas_price: U256,
    pub gas: U256,
    pub input: Bytes,
    pub creates: Option<Address>,
}

/// View of a [`Transaction`].
pub struct TransactionV {
    pub hash: Seq<u8>,
    pub nonce: Seq<u8>,
    pub block_hash: Option<Seq<u8>>,
    pub block_number: Option<u64>,
    pub transaction_index: u64,
    pub from: Seq<u8>,
    pub to: Option<Seq<u8>>,
    pub value: Seq<u8>,
    pub gas_price: Seq<u8>,
    pub gas: Seq<u8>,
    pub input: Seq<u8>,
    pub creates: Option<Seq<u8>>,
}

impl View for Transaction {
    type V = TransactionV;

    open spec fn view(&self) -> TransactionV {
        TransactionV {
            hash: self.hash@,
            nonce: self.nonce@,
            block_hash: self.block_hash.deep_view(),
            block_number: self.block_number,
            transaction_index: self.transaction_index,
            from: self.from@,
            to: self.to.deep_view(),
            value: self.value@,
            gas_price: self.gas_price@,
            gas: self.gas@,
            input: self.input@,
            creates: self.creates.deep_view(),
        }
    }
}

impl DeepView for Transaction {
    type V = TransactionV;

    open spec fn deep_view(&self) -> TransactionV {
        self@
    }
}

/// One transaction, its receipt, and its ordered execution traces.
pub struct TransactionWithReceipt {
    pub transaction: Transaction,
    pub receipt: Receipt,
    pub traces: Vec<Trace>,
}

/// View of a [`TransactionWithReceipt`].
pub struct TransactionWithReceiptV {
    pub transaction: TransactionV,
    pub receipt: ReceiptV,
    pub traces: Seq<TraceV>,
}

impl View for TransactionWithReceipt {
    type V = TransactionWithReceiptV;

    open spec fn view(&self) -> TransactionWithReceiptV {
        TransactionWithReceiptV {
            transaction: self.transaction@,
            receipt: self.receipt@,
            traces: self.traces.deep_view(),
        }
    }
}

impl DeepView for TransactionWithReceipt {
    type V = TransactionWithReceiptV;

    open spec fn deep_view(&self) -> TransactionWithReceiptV {
        self@
    }
}

/// Whether a block at the given height decodes create transactions with the
/// post-transition scheme. A pending block sits above every past height, so
/// it always does.
pub open spec fn spec_post_transition(block_number: Option<u64>, transition: u64) -> bool {
    match block_number {
        Some(n) => n >= transition,
        None => true,
    }
}

/// What the projector returns: every field of the chain transaction carried
/// over verbatim, localization filled from the surrounding block, the receipt
/// and traces attached as supplied, and the created-contract address computed
/// under the transition-height-selected scheme.
pub open spec fn spec_project(
    tx: ChainTransactionV,
    block_hash: Option<Seq<u8>>,
    block_number: Option<u64>,
    index: u64,
    receipt: ReceiptV,
    traces: Seq<TraceV>,
    transition: u64,
) -> TransactionWithReceiptV {
    TransactionWithReceiptV {
        transaction: TransactionV {
            hash: tx.hash,
            nonce: tx.nonce,
            block_hash,
            block_number,
            transaction_index: index,
            from: tx.sender,
            to: match tx.action {
                ChainActionV::Call(a) => Some(a),
                ChainActionV::Create => None,
            },
            value: tx.value,
            gas_price: tx.gas_price,
            gas: tx.gas,
            input: tx.input,
            creates: match tx.action {
                ChainActionV::Create => Some(
                    spec_created_address(
                        tx.sender,
                        tx.nonce,
                        tx.input,
                        spec_post_transition(block_number, transition),
                    ),
                ),
                ChainActionV::Call(_) => None,
            },
        },
        receipt,
        traces,
    }
}

/// Projects one chain transaction with its receipt and traces, already matched
/// to it by hash, into the externally visible shape.
pub fn project(
    tx: &ChainTransaction,
    block_hash: &Option<Hash256>,
    block_number: Option<u64>,
    index: u64,
    receipt: Receipt,
    traces: Vec<Trace>,
    transition: u64,
) -> (r: TransactionWithReceipt)
    requires
        chain_transaction_wf(tx@),
    ensures
        r@ == spec_project(
            tx@,
            block_hash.deep_view(),
            block_number,
            index,
            receipt@,
            traces.deep_view(),
            transition,
        ),
{
    let post = match block_number {
        Some(n) => n >= transition,
        None => true,
    };
    let to = match &tx.action {
        ChainAction::Call(a) => Some(a.duplicate()),
        ChainAction::Create => None,
    };
    let creates = match &tx.action {
        ChainAction::Create => Some(created_address(&tx.sender, &tx.nonce, &tx.input, post)),
        ChainAction::Call(_) => None,
    };
    TransactionWithReceipt {
        transaction: Transaction {
            hash: tx.hash.duplicate(),
            nonce: tx.nonce.duplicate(),
            block_hash: duplicate_opt_hash(block_hash),
            block_number,
            transaction_index: index,
            from: tx.sender.duplicate(),
            to,
            value: tx.value.duplicate(),
            gas_price: tx.gas_price.duplicate(),
            gas: tx.gas.duplicate(),
            input: tx.input.duplicate(),
            creates,
        },
        receipt,
        traces,
    }
}

} // verus!
