//! Chain-side data shapes as the assembler reads them from the chain data
//! provider, and the block identifier model: an external reference (absolute
//! height or relative tag) resolved to a concrete lookup identifier.

use vstd::prelude::*;

verus! {

use crate::types::{Address, Bytes, Bloom, Hash256, U256, address_wf, bloom_wf, hash256_wf, u256_wf, duplicate_opt_address};

/// What a transaction does: create a contract, or call an account.
pub enum ChainAction {
    Create,
    Call(Address),
}

/// View of a [`ChainAction`].
pub enum ChainActionV {
    Create,
    Call(Seq<u8>),
}

impl View for ChainAction {
    type V = ChainActionV;

    open spec fn view(&self) -> ChainActionV {
        match self {
            ChainAction::Create => ChainActionV::Create,
            ChainAction::Call(a) => ChainActionV::Call(a@),
        }
    }
}

impl DeepView for ChainAction {
    type V = ChainActionV;

    open spec fn deep_view(&self) -> ChainActionV {
        self@
    }
}

/// One transaction as stored inside a chain block, in execution order.
pub struct ChainTransaction {
    pub hash: Hash256,
    pub nonce: U256,
    pub sender: Address,
    pub action: ChainAction,
    pub value: U256,
    pub gas_price: U256,
    pub gas: U256,
    pub input: Bytes,
}

/// View of a [`ChainTransaction`].
pub struct ChainTransactionV {
    pub hash: Seq<u8>,
    pub nonce: Seq<u8>,
    pub sender: Seq<u8>,
    pub action: ChainActionV,
    pub value: Seq<u8>,
    pub gas_price: Seq<u8>,
    pub gas: Seq<u8>,
    pub input: Seq<u8>,
}

impl View for ChainTransaction {
    type V = ChainTransactionV;

    open spec fn view(&self) -> ChainTransactionV {
        ChainTransactionV {
            hash: self.hash@,
            nonce: self.nonce@,
            sender: self.sender@,
            action: self.action@,
            value: self.value@,
            gas_price: self.gas_price@,
            gas: self.gas@,
            input: self.input@,
        }
    }
}

impl DeepView for ChainTransaction {
    type V = ChainTransactionV;

    open spec fn deep_view(&self) -> ChainTransactionV {
        self@
    }
}

pub open spec fn chain_action_wf(a: ChainActionV) -> bool {
    match a {
        ChainActionV::Create => true,
        ChainActionV::Call(addr) => address_wf(addr),
    }
}

pub open spec fn chain_transaction_wf(t: ChainTransactionV) -> bool {
    &&& hash256_wf(t.hash)
    &&& u256_wf(t.nonce)
    &&& address_wf(t.sender)
    &&& chain_action_wf(t.action)
    &&& u256_wf(t.value)
    &&& u256_wf(t.gas_price)
    &&& u256_wf(t.gas)
}

/// The recorded outcome of executing one transaction.
pub struct Receipt {
    pub transaction_hash: Hash256,
    pub transaction_index: u64,
    pub cumulative_gas_used: U256,
    pub gas_used: U256,
    pub contract_address: Option<Address>,
}

/// View of a [`Receipt`].
pub struct ReceiptV {
    pub transaction_hash: Seq<u8>,
    pub transaction_index: u64,
    pub cumulative_gas_used: Seq<u8>,
    pub gas_used: Seq<u8>,
    pub contract_address: Option<Seq<u8>>,
}

impl View for Receipt {
    type V = ReceiptV;

    open spec fn view(&self) -> ReceiptV {
        ReceiptV {
            transaction_hash: self.transaction_hash@,
            transaction_index: self.transaction_index,
            cumulative_gas_used: self.cumulative_gas_used@,
            gas_used: self.gas_used@,
            contract_address: self.contract_address.deep_view(),
        }
    }
}

impl DeepView for Receipt {
    type V = ReceiptV;

    open spec fn deep_view(&self) -> ReceiptV {
        self@
    }
}

pub open spec fn receipt_wf(r: ReceiptV) -> bool {
    &&& hash256_wf(r.transaction_hash)
    &&& u256_wf(r.cumulative_gas_used)
    &&& u256_wf(r.gas_used)
    &&& match r.contract_address {
        Some(a) => address_wf(a),
        None => true,
    }
}

impl Receipt {
    pub fn duplicate(&self) -> (r: Receipt)
        ensures
            r@ == self@,
    {
        Receipt {
            transaction_hash: self.transaction_hash.duplicate(),
            transaction_index: self.transaction_index,
            cumulative_gas_used: self.cumulative_gas_used.duplicate(),
            gas_used: self.gas_used.duplicate(),
            contract_address: duplicate_opt_address(&self.contract_address),
        }
    }
}

/// A structured record of one execution step of a transaction.
pub struct Trace {
    pub trace_address: Vec<u64>,
    pub output: Bytes,
}

/// View of a [`Trace`].
pub struct TraceV {
    pub trace_address: Seq<u64>,
    pub output: Seq<u8>,
}

impl View for Trace {
    type V = TraceV;

    open spec fn view(&self) -> TraceV {
        TraceV { trace_address: self.trace_address@, output: self.output@ }
    }
}

impl DeepView for Trace {
    type V = TraceV;

    open spec fn deep_view(&self) -> TraceV {
        self@
    }
}

impl Trace {
    pub fn duplicate(&self) -> (r: Trace)
        ensures
            r@ == self@,
    {
        Trace { trace_address: self.trace_address.clone(), output: self.output.duplicate() }
    }
}

/// Copy of an ordered trace list.
pub fn duplicate_traces(ts: &Vec<Trace>) -> (r: Vec<Trace>)
    ensures
        r.deep_view() == ts.deep_view(),
{
    let mut r: Vec<Trace> = Vec::new();
    let n = ts.len();
    for i in 0..n
        invariant
            n == ts@.len(),
            r@.len() == i,
            forall|j: int| 0 <= j < i ==> #[trigger] r@[j]@ == ts@[j]@,
    {
        r.push(ts[i].duplicate());
    }
    proof {
        assert forall|j: int| 0 <= j < n implies r.deep_view()[j] == ts.deep_view()[j] by {
            assert(r@[j]@ == ts@[j]@);
        }
        assert(r.deep_view() =~= ts.deep_view());
    }
    r
}

/// One block as handed out by the chain data provider: the header fields, the
/// embedded transactions in execution order, and the raw encoded size as the
/// provider reports it. A block not yet included in canonical height ordering
/// (a pending block) has neither hash nor number.
pub struct ChainBlock {
    pub hash: Option<Hash256>,
    pub number: Option<u64>,
    pub parent_hash: Hash256,
    pub uncles_hash: Hash256,
    pub author: Address,
    pub state_root: Hash256,
    pub transactions_root: Hash256,
    pub receipts_root: Hash256,
    pub gas_used: U256,
    pub gas_limit: U256,
    pub extra_data: Bytes,
    pub logs_bloom: Bloom,
    pub timestamp: u64,
    pub difficulty: U256,
    pub seal_fields: Vec<Bytes>,
    pub uncle_hashes: Vec<Hash256>,
    pub transactions: Vec<ChainTransaction>,
    pub size: u64,
}

/// View of a [`ChainBlock`].
pub struct ChainBlockV {
    pub hash: Option<Seq<u8>>,
    pub number: Option<u64>,
    pub parent_hash: Seq<u8>,
    pub uncles_hash: Seq<u8>,
    pub author: Seq<u8>,
    pub state_root: Seq<u8>,
    pub transactions_root: Seq<u8>,
    pub receipts_root: Seq<u8>,
    pub gas_used: Seq<u8>,
    pub gas_limit: Seq<u8>,
    pub extra_data: Seq<u8>,
    pub logs_bloom: Seq<u8>,
    pub timestamp: u64,
    pub difficulty: Seq<u8>,
    pub seal_fields: Seq<Seq<u8>>,
    pub uncle_hashes: Seq<Seq<u8>>,
    pub transactions: Seq<ChainTransactionV>,
    pub size: u64,
}

impl View for ChainBlock {
    type V = ChainBlockV;

    open spec fn view(&self) -> ChainBlockV {
        ChainBlockV {
            hash: self.hash.deep_view(),
            number: self.number,
            parent_hash: self.parent_hash@,
            uncles_hash: self.uncles_hash@,
            author: self.author@,
            state_root: self.state_root@,
            transactions_root: self.transactions_root@,
            receipts_root: self.receipts_root@,
            gas_used: self.gas_used@,
            gas_limit: self.gas_limit@,
            extra_data: self.extra_data@,
            logs_bloom: self.logs_bloom@,
            timestamp: self.timestamp,
            difficulty: self.difficulty@,
            seal_fields: self.seal_fields.deep_view(),
            uncle_hashes: self.uncle_hashes.deep_view(),
            transactions: self.transactions.deep_view(),
            size: self.size,
        }
    }
}

impl DeepView for ChainBlock {
    type V = ChainBlockV;

    open spec fn deep_view(&self) -> ChainBlockV {
        self@
    }
}

/// A chain block is well-formed when its fixed-width fields have their widths,
/// its hash and number are present or absent together, and its embedded
/// transactions are themselves well-formed.
pub open spec fn chain_block_wf(b: ChainBlockV) -> bool {
    &&& (b.hash is Some <==> b.number is Some)
    &&& match b.hash {
        Some(h) => hash256_wf(h),
        None => true,
    }
    &&& hash256_wf(b.parent_hash)
    &&& hash256_wf(b.uncles_hash)
    &&& address_wf(b.author)
    &&& hash256_wf(b.state_root)
    &&& hash256_wf(b.transactions_root)
    &&& hash256_wf(b.receipts_root)
    &&& u256_wf(b.gas_used)
    &&& u256_wf(b.gas_limit)
    &&& bloom_wf(b.logs_bloom)
    &&& u256_wf(b.difficulty)
    &&& (forall|i: int| 0 <= i < b.uncle_hashes.len() ==> hash256_wf(#[trigger] b.uncle_hashes[i]))
    &&& (forall|i: int|
        0 <= i < b.transactions.len() ==> chain_transaction_wf(#[trigger] b.transactions[i]))
}

/// Decides well-formedness of one chain transaction.
pub fn check_transaction_wf(t: &ChainTransaction) -> (r: bool)
    ensures
        r == chain_transaction_wf(t@),
{
    let action_ok = match &t.action {
        ChainAction::Create => true,
        ChainAction::Call(a) => a.bytes.len() == 20,
    };
    t.hash.bytes.len() == 32 && t.nonce.bytes.len() == 32 && t.sender.bytes.len() == 20
        && action_ok && t.value.bytes.len() == 32 && t.gas_price.bytes.len() == 32
        && t.gas.bytes.len() == 32
}

/// Decides well-formedness of one receipt.
pub fn check_receipt_wf(r: &Receipt) -> (ok: bool)
    ensures
        ok == receipt_wf(r@),
{
    let addr_ok = match &r.contract_address {
        Some(a) => a.bytes.len() == 20,
        None => true,
    };
    r.transaction_hash.bytes.len() == 32 && r.cumulative_gas_used.bytes.len() == 32
        && r.gas_used.bytes.len() == 32 && addr_ok
}

/// Decides well-formedness of one chain block.
pub fn check_block_wf(b: &ChainBlock) -> (r: bool)
    ensures
        r == chain_block_wf(b@),
{
    let hash_ok = match (&b.hash, &b.number) {
        (Some(h), Some(_)) => h.bytes.len() == 32,
        (None, None) => true,
        _ => false,
    };
    if !hash_ok {
        return false;
    }
    if b.parent_hash.bytes.len() != 32 || b.uncles_hash.bytes.len() != 32
        || b.author.bytes.len() != 20 || b.state_root.bytes.len() != 32
        || b.transactions_root.bytes.len() != 32 || b.receipts_root.bytes.len() != 32
        || b.gas_used.bytes.len() != 32 || b.gas_limit.bytes.len() != 32
        || b.logs_bloom.bytes.len() != 256 || b.difficulty.bytes.len() != 32 {
        return false;
    }
    let n_uncles = b.uncle_hashes.len();
    for i in 0..n_uncles
        invariant
            n_uncles == b.uncle_hashes@.len(),
            forall|j: int| 0 <= j < i ==> hash256_wf(#[trigger] b@.uncle_hashes[j]),
            b@.hash is Some <==> b@.number is Some,
            match b@.hash {
                Some(h) => hash256_wf(h),
                None => true,
            },
            hash256_wf(b@.parent_hash),
            hash256_wf(b@.uncles_hash),
            address_wf(b@.author),
            hash256_wf(b@.state_root),
            hash256_wf(b@.transactions_root),
            hash256_wf(b@.receipts_root),
            u256_wf(b@.gas_used),
            u256_wf(b@.gas_limit),
            bloom_wf(b@.logs_bloom),
            u256_wf(b@.difficulty),
    {
        if b.uncle_hashes[i].bytes.len() != 32 {
            proof {
                assert(!hash256_wf(b@.uncle_hashes[i as int]));
            }
            return false;
        }
    }
    let n_txs = b.transactions.len();
    for i in 0..n_txs
        invariant
            n_txs == b.transactions@.len(),
            forall|j: int| 0 <= j < i ==> chain_transaction_wf(#[trigger] b@.transactions[j]),
            forall|j: int|
                0 <= j < b.uncle_hashes@.len() ==> hash256_wf(#[trigger] b@.uncle_hashes[j]),
            b@.hash is Some <==> b@.number is Some,
            match b@.hash {
                Some(h) => hash256_wf(h),
                None => true,
            },
            hash256_wf(b@.parent_hash),
            hash256_wf(b@.uncles_hash),
            address_wf(b@.author),
            hash256_wf(b@.state_root),
            hash256_wf(b@.transactions_root),
            hash256_wf(b@.receipts_root),
            u256_wf(b@.gas_used),
            u256_wf(b@.gas_limit),
            bloom_wf(b@.logs_bloom),
            u256_wf(b@.difficulty),
    {
        if !check_transaction_wf(&b.transactions[i]) {
            proof {
                assert(!chain_transaction_wf(b@.transactions[i as int]));
            }
            return false;
        }
    }
    true
}

/// An external block reference as a request names it: an absolute height or a
/// chain-relative tag.
#[derive(Clone, Copy, PartialEq, Eq, Structural, Debug)]
pub enum BlockReference {
    Number(u64),
    Latest,
    Earliest,
    Pending,
}

/// A concrete lookup identifier as the chain data provider understands it.
#[derive(Clone, Copy, PartialEq, Eq, Structural, Debug)]
pub enum BlockIdentifier {
    ByNumber(u64),
    Latest,
    Earliest,
    Pending,
}

/// What [`resolve_reference`] returns for each reference: an absolute height
/// maps to a lookup by number, and each relative tag passes through as-is,
/// since only the chain data provider knows the current canonical height.
pub open spec fn spec_resolve(r: BlockReference) -> BlockIdentifier {
    match r {
        BlockReference::Number(n) => BlockIdentifier::ByNumber(n),
        BlockReference::Latest => BlockIdentifier::Latest,
        BlockReference::Earliest => BlockIdentifier::Earliest,
        BlockReference::Pending => BlockIdentifier::Pending,
    }
}

/// Maps an external block reference to a concrete lookup identifier. Pure and
/// total: malformed external input is rejected earlier, at the transport
/// boundary.
pub fn resolve_reference(r: BlockReference) -> (id: BlockIdentifier)
    ensures
        id == spec_resolve(r),
{
    match r {
        BlockReference::Number(n) => BlockIdentifier::ByNumber(n),
        BlockReference::Latest => BlockIdentifier::Latest,
        BlockReference::Earliest => BlockIdentifier::Earliest,
        BlockReference::Pending => BlockIdentifier::Pending,
    }
}

} // verus!
