//! The block assembler: given a resolved identifier it performs the composite
//! lookup (header bundle, total difficulty, one receipt and trace list per
//! embedded transaction) and produces a single populated block record, or
//! signals absence. Absence of the block is a normal result; absence of the
//! total difficulty is soft and leaves only that field empty; absence of a
//! receipt for an embedded transaction is a data-consistency fault that fails
//! the whole request.

use vstd::prelude::*;

verus! {

use crate::chain::{
    BlockIdentifier, BlockReference, ChainBlockV, ChainTransactionV, ReceiptV, Trace, TraceV,
    chain_block_wf, duplicate_traces, resolve_reference, spec_resolve,
};
use crate::project::{
    TransactionWithReceipt, TransactionWithReceiptV, project, spec_project,
};
use crate::provider::ChainDataProvider;
use crate::types::{Address, Bloom, Bytes, Hash256, U256, duplicate_opt_hash};

/// Why a request failed as a whole.
#[derive(Debug)]
pub enum AssemblyError {
    /// An embedded transaction has no matching receipt: corruption in the
    /// underlying store, fatal to the single request.
    DataConsistencyFault { transaction_hash: Hash256 },
}

/// View of an [`AssemblyError`].
pub enum AssemblyErrorV {
    DataConsistencyFault { transaction_hash: Seq<u8> },
}

impl View for AssemblyError {
    type V = AssemblyErrorV;

    open spec fn view(&self) -> AssemblyErrorV {
        match self {
            AssemblyError::DataConsistencyFault { transaction_hash } => {
                AssemblyErrorV::DataConsistencyFault { transaction_hash: transaction_hash@ }
            },
        }
    }
}

/// The externally visible composite block record.
pub struct BlockWithTransactions {
    pub hash: Option<Hash256>,
    pub parent_hash: Hash256,
    pub uncles_hash: Hash256,
    pub author: Address,
    pub miner: Address,
    pub state_root: Hash256,
    pub transactions_root: Hash256,
    pub receipts_root: Hash256,
    pub number: Option<u64>,
    pub gas_used: U256,
    pub gas_limit: U256,
    pub extra_data: Bytes,
    pub logs_bloom: Bloom,
    pub timestamp: u64,
    pub difficulty: U256,
    pub total_difficulty: Option<U256>,
    pub seal_fields: Vec<Bytes>,
    pub uncles: Vec<Hash256>,
    pub transactions: Vec<TransactionWithReceipt>,
    pub size: Option<u64>,
}

/// View of a [`BlockWithTransactions`].
pub struct BlockWithTransactionsV {
    pub hash: Option<Seq<u8>>,
    pub parent_hash: Seq<u8>,
    pub uncles_hash: Seq<u8>,
    pub author: Seq<u8>,
    pub miner: Seq<u8>,
    pub state_root: Seq<u8>,
    pub transactions_root: Seq<u8>,
    pub receipts_root: Seq<u8>,
    pub number: Option<u64>,
    pub gas_used: Seq<u8>,
    pub gas_limit: Seq<u8>,
    pub extra_data: Seq<u8>,
    pub logs_bloom: Seq<u8>,
    pub timestamp: u64,
    pub difficulty: Seq<u8>,
    pub total_difficulty: Option<Seq<u8>>,
    pub seal_fields: Seq<Seq<u8>>,
    pub uncles: Seq<Seq<u8>>,
    pub transactions: Seq<TransactionWithReceiptV>,
    pub size: Option<u64>,
}

impl View for BlockWithTransactions {
    type V = BlockWithTransactionsV;

    open spec fn view(&self) -> BlockWithTransactionsV {
        BlockWithTransactionsV {
            hash: self.hash.deep_view(),
            parent_hash: self.parent_hash@,
            uncles_hash: self.uncles_hash@,
            author: self.author@,
            miner: self.miner@,
            state_root: self.state_root@,
            transactions_root: self.transactions_root@,
            receipts_root: self.receipts_root@,
            number: self.number,
            gas_used: self.gas_used@,
            gas_limit: self.gas_limit@,
            extra_data: self.extra_data@,
            logs_bloom: self.logs_bloom@,
            timestamp: self.timestamp,
            difficulty: self.difficulty@,
            total_difficulty: self.total_difficulty.deep_view(),
            seal_fields: self.seal_fields.deep_view(),
            uncles: self.uncles.deep_view(),
            transactions: self.transactions.deep_view(),
            size: self.size,
        }
    }
}

impl DeepView for BlockWithTransactions {
    type V = BlockWithTransactionsV;

    open spec fn deep_view(&self) -> BlockWithTransactionsV {
        self@
    }
}

/// View of a whole response.
pub open spec fn response_view(r: Result<Option<BlockWithTransactions>, AssemblyError>) -> Result<
    Option<BlockWithTransactionsV>,
    AssemblyErrorV,
> {
    match r {
        Ok(Some(b)) => Ok(Some(b@)),
        Ok(None) => Ok(None),
        Err(e) => Err(e@),
    }
}

/// Projects the transactions of a block from position `k` on, in execution
/// order. The first transaction without a receipt fails the whole projection
/// with a data-consistency fault naming that transaction.
pub open spec fn project_from(
    txs: Seq<ChainTransactionV>,
    k: int,
    block_hash: Option<Seq<u8>>,
    block_number: Option<u64>,
    receipt_of: spec_fn(Seq<u8>) -> Option<ReceiptV>,
    traces_of: spec_fn(Seq<u8>) -> Seq<TraceV>,
    transition: u64,
) -> Result<Seq<TransactionWithReceiptV>, AssemblyErrorV>
    decreases txs.len() - k,
{
    if k < 0 || k >= txs.len() {
        Ok(Seq::empty())
    } else {
        match receipt_of(txs[k].hash) {
            None => Err(AssemblyErrorV::DataConsistencyFault { transaction_hash: txs[k].hash }),
            Some(rc) => match project_from(
                txs,
                k + 1,
                block_hash,
                block_number,
                receipt_of,
                traces_of,
                transition,
            ) {
                Err(e) => Err(e),
                Ok(rest) => Ok(
                    seq![
                        spec_project(
                            txs[k],
                            block_hash,
                            block_number,
                            k as u64,
                            rc,
                            traces_of(txs[k].hash),
                            transition,
                        ),
                    ] + rest,
                ),
            },
        }
    }
}

/// The populated record assembled from a present block bundle, the
/// independently fetched total difficulty, and the projected transactions.
/// Every header-derived field is carried over verbatim; `author` is duplicated
/// into `miner` for legacy compatibility; the size is the raw encoded length
/// as the provider reports it.
pub open spec fn spec_assembled(
    cb: ChainBlockV,
    td: Option<Seq<u8>>,
    txs: Seq<TransactionWithReceiptV>,
) -> BlockWithTransactionsV {
    BlockWithTransactionsV {
        hash: cb.hash,
        parent_hash: cb.parent_hash,
        uncles_hash: cb.uncles_hash,
        author: cb.author,
        miner: cb.author,
        state_root: cb.state_root,
        transactions_root: cb.transactions_root,
        receipts_root: cb.receipts_root,
        number: cb.number,
        gas_used: cb.gas_used,
        gas_limit: cb.gas_limit,
        extra_data: cb.extra_data,
        logs_bloom: cb.logs_bloom,
        timestamp: cb.timestamp,
        difficulty: cb.difficulty,
        total_difficulty: td,
        seal_fields: cb.seal_fields,
        uncles: cb.uncle_hashes,
        transactions: txs,
        size: Some(cb.size),
    }
}

/// What assembly returns: absence of the block bundle is a normal absent
/// result, a missing receipt fails the request, and otherwise the record is
/// fully populated with the total difficulty attached only if its own,
/// independent lookup produced one.
pub open spec fn spec_assemble(
    block: Option<ChainBlockV>,
    td: Option<Seq<u8>>,
    receipt_of: spec_fn(Seq<u8>) -> Option<ReceiptV>,
    traces_of: spec_fn(Seq<u8>) -> Seq<TraceV>,
    transition: u64,
) -> Result<Option<BlockWithTransactionsV>, AssemblyErrorV> {
    match block {
        None => Ok(None),
        Some(cb) => match project_from(
            cb.transactions,
            0,
            cb.hash,
            cb.number,
            receipt_of,
            traces_of,
            transition,
        ) {
            Err(e) => Err(e),
            Ok(txs) => Ok(Some(spec_assembled(cb, td, txs))),
        },
    }
}

/// The projections of the first `count` transactions of a block, in
/// execution order, each with the receipt and traces its hash keys.
pub open spec fn projected_seq(
    cb: ChainBlockV,
    receipt_of: spec_fn(Seq<u8>) -> Option<ReceiptV>,
    traces_of: spec_fn(Seq<u8>) -> Seq<TraceV>,
    transition: u64,
    count: int,
) -> Seq<TransactionWithReceiptV> {
    Seq::new(
        count as nat,
        |j: int|
            spec_project(
                cb.transactions[j],
                cb.hash,
                cb.number,
                j as u64,
                receipt_of(cb.transactions[j].hash).unwrap(),
                traces_of(cb.transactions[j].hash),
                transition,
            ),
    )
}

/// If every transaction in `[k, i)` has a receipt and the one at `i` has
/// none, projection from `k` fails with the fault naming transaction `i`.
pub proof fn lemma_project_from_err(
    txs: Seq<ChainTransactionV>,
    k: int,
    i: int,
    block_hash: Option<Seq<u8>>,
    block_number: Option<u64>,
    receipt_of: spec_fn(Seq<u8>) -> Option<ReceiptV>,
    traces_of: spec_fn(Seq<u8>) -> Seq<TraceV>,
    transition: u64,
)
    requires
        0 <= k <= i < txs.len(),
        forall|j: int| k <= j < i ==> receipt_of(#[trigger] txs[j].hash) is Some,
        receipt_of(txs[i].hash) is None,
    ensures
        project_from(txs, k, block_hash, block_number, receipt_of, traces_of, transition)
            == Err::<Seq<TransactionWithReceiptV>, AssemblyErrorV>(
            AssemblyErrorV::DataConsistencyFault { transaction_hash: txs[i].hash },
        ),
    decreases i - k,
{
    if k < i {
        lemma_project_from_err(
            txs,
            k + 1,
            i,
            block_hash,
            block_number,
            receipt_of,
            traces_of,
            transition,
        );
    }
}

/// If every transaction from `k` on has a receipt, projection from `k`
/// succeeds and yields the projections in execution order.
pub proof fn lemma_project_from_ok(
    txs: Seq<ChainTransactionV>,
    k: int,
    block_hash: Option<Seq<u8>>,
    block_number: Option<u64>,
    receipt_of: spec_fn(Seq<u8>) -> Option<ReceiptV>,
    traces_of: spec_fn(Seq<u8>) -> Seq<TraceV>,
    transition: u64,
)
    requires
        0 <= k <= txs.len(),
        forall|j: int| k <= j < txs.len() ==> receipt_of(#[trigger] txs[j].hash) is Some,
    ensures
        project_from(txs, k, block_hash, block_number, receipt_of, traces_of, transition)
            == Ok::<Seq<TransactionWithReceiptV>, AssemblyErrorV>(
            Seq::new(
                (txs.len() - k) as nat,
                |j: int|
                    spec_project(
                        txs[k + j],
                        block_hash,
                        block_number,
                        (k + j) as u64,
                        receipt_of(txs[k + j].hash).unwrap(),
                        traces_of(txs[k + j].hash),
                        transition,
                    ),
            ),
        ),
    decreases txs.len() - k,
{
    let expected = Seq::new(
        (txs.len() - k) as nat,
        |j: int|
            spec_project(
                txs[k + j],
                block_hash,
                block_number,
                (k + j) as u64,
                receipt_of(txs[k + j].hash).unwrap(),
                traces_of(txs[k + j].hash),
                transition,
            ),
    );
    if k == txs.len() {
        assert(expected =~= Seq::empty());
    } else {
        lemma_project_from_ok(
            txs,
            k + 1,
            block_hash,
            block_number,
            receipt_of,
            traces_of,
            transition,
        );
        let rest = Seq::new(
            (txs.len() - (k + 1)) as nat,
            |j: int|
                spec_project(
                    txs[k + 1 + j],
                    block_hash,
                    block_number,
                    (k + 1 + j) as u64,
                    receipt_of(txs[k + 1 + j].hash).unwrap(),
                    traces_of(txs[k + 1 + j].hash),
                    transition,
                ),
        );
        let head = spec_project(
            txs[k],
            block_hash,
            block_number,
            k as u64,
            receipt_of(txs[k].hash).unwrap(),
            traces_of(txs[k].hash),
            transition,
        );
        assert(seq![head] + rest =~= expected);
    }
}

/// The assembler bound to one chain data provider, with the transition height
/// captured once at construction.
pub struct BulkClient<P: ChainDataProvider> {
    pub client: P,
    pub eip86_transition: u64,
}

impl<P: ChainDataProvider> BulkClient<P> {
    /// The provider is consistent and the captured transition height is the
    /// provider's own.
    pub open spec fn wf(&self) -> bool {
        &&& self.client.inv()
        &&& self.eip86_transition == self.client.spec_transition()
    }

    /// Creates a new assembler over a provider, querying the transition
    /// height once.
    pub fn new(client: P) -> (r: BulkClient<P>)
        requires
            client.inv(),
        ensures
            r.wf(),
            r.client == client,
    {
        let eip86_transition = client.get_transition_height();
        BulkClient { client, eip86_transition }
    }

    /// Assembles the fully populated block record for a resolved identifier.
    ///
    /// The result is exactly what [`spec_assemble`] says of the provider's
    /// model, and in every populated record each entry's receipt is keyed by
    /// its own transaction's hash, while hash and number are present or
    /// absent together.
    pub fn block(&self, id: BlockIdentifier) -> (r: Result<
        Option<BlockWithTransactions>,
        AssemblyError,
    >)
        requires
            self.wf(),
        ensures
            response_view(r) == spec_assemble(
                self.client.spec_block(id),
                self.client.spec_total_difficulty(id),
                |h: Seq<u8>| self.client.spec_receipt(h),
                |h: Seq<u8>| self.client.spec_traces(h),
                self.eip86_transition,
            ),
            match r {
                Ok(Some(b)) => {
                    &&& (b@.hash is Some <==> b@.number is Some)
                    &&& forall|i: int|
                        0 <= i < b@.transactions.len()
                            ==> (#[trigger] b@.transactions[i]).receipt.transaction_hash
                            == b@.transactions[i].transaction.hash
                },
                _ => true,
            },
    {
        let ghost receipt_of = |h: Seq<u8>| self.client.spec_receipt(h);
        let ghost traces_of = |h: Seq<u8>| self.client.spec_traces(h);
        proof {
            self.client.blocks_are_wf(id);
        }
        let block_ref = self.client.get_block(id);
        match block_ref {
            None => Ok(None),
            Some(cb) => {
                let ghost cbv = cb.deep_view();
                proof {
                    assert(chain_block_wf(cbv));
                }
                let td = match self.client.get_total_difficulty(id) {
                    Some(d) => Some(d.duplicate()),
                    None => None,
                };
                let n = cb.transactions.len();
                let mut txs: Vec<TransactionWithReceipt> = Vec::new();
                for i in 0..n
                    invariant
                        self.wf(),
                        chain_block_wf(cbv),
                        cbv == cb.deep_view(),
                        Some(cbv) == self.client.spec_block(id),
                        n == cb.transactions@.len(),
                        receipt_of == (|h: Seq<u8>| self.client.spec_receipt(h)),
                        traces_of == (|h: Seq<u8>| self.client.spec_traces(h)),
                        forall|j: int|
                            0 <= j < i ==> receipt_of(#[trigger] cbv.transactions[j].hash) is Some,
                        txs.deep_view() == projected_seq(
                            cbv,
                            receipt_of,
                            traces_of,
                            self.eip86_transition,
                            i as int,
                        ),
                {
                    let tx = &cb.transactions[i];
                    proof {
                        self.client.receipts_are_matched(tx.hash@);
                    }
                    match self.client.get_receipt(&tx.hash) {
                        None => {
                            proof {
                                lemma_project_from_err(
                                    cbv.transactions,
                                    0,
                                    i as int,
                                    cbv.hash,
                                    cbv.number,
                                    receipt_of,
                                    traces_of,
                                    self.eip86_transition,
                                );
                            }
                            return Err(
                                AssemblyError::DataConsistencyFault {
                                    transaction_hash: tx.hash.duplicate(),
                                },
                            );
                        },
                        Some(rc) => {
                            let receipt = rc.duplicate();
                            let traces: Vec<Trace> = match self.client.get_traces(&tx.hash) {
                                Some(ts) => duplicate_traces(ts),
                                None => Vec::new(),
                            };
                            proof {
                                assert(traces.deep_view() =~= traces_of(cbv.transactions[i as int].hash));
                            }
                            let p = project(
                                tx,
                                &cb.hash,
                                cb.number,
                                i as u64,
                                receipt,
                                traces,
                                self.eip86_transition,
                            );
                            let ghost pre = txs.deep_view();
                            txs.push(p);
                            proof {
                                assert forall|j: int| 0 <= j < pre.len() implies txs.deep_view()[j]
                                    == pre[j] by {
                                    assert(txs.deep_view()[j] == txs@[j].deep_view());
                                    assert(pre[j] == txs@[j].deep_view());
                                }
                                assert(txs.deep_view()[pre.len() as int] == p@);
                                let ghost txv = cbv.transactions[i as int];
                                assert(txv == tx.deep_view());
                                assert(rc.deep_view() == receipt_of(txv.hash).unwrap());
                                assert(receipt@ == rc.deep_view());
                                assert(p@ == spec_project(
                                    txv,
                                    cbv.hash,
                                    cbv.number,
                                    i as u64,
                                    receipt_of(txv.hash).unwrap(),
                                    traces_of(txv.hash),
                                    self.eip86_transition,
                                ));
                                assert forall|j: int| 0 <= j < i + 1 implies txs.deep_view()[j]
                                    == projected_seq(
                                    cbv,
                                    receipt_of,
                                    traces_of,
                                    self.eip86_transition,
                                    i + 1,
                                )[j] by {
                                    if j < i {
                                        assert(pre[j] == projected_seq(
                                            cbv,
                                            receipt_of,
                                            traces_of,
                                            self.eip86_transition,
                                            i as int,
                                        )[j]);
                                    }
                                }
                                assert(txs.deep_view() =~= projected_seq(
                                    cbv,
                                    receipt_of,
                                    traces_of,
                                    self.eip86_transition,
                                    i + 1,
                                ));
                            }
                        },
                    }
                }
                proof {
                    lemma_project_from_ok(
                        cbv.transactions,
                        0,
                        cbv.hash,
                        cbv.number,
                        receipt_of,
                        traces_of,
                        self.eip86_transition,
                    );
                    let ghost expect = project_from(
                        cbv.transactions,
                        0,
                        cbv.hash,
                        cbv.number,
                        receipt_of,
                        traces_of,
                        self.eip86_transition,
                    )->Ok_0;
                    assert forall|j: int| 0 <= j < n implies txs.deep_view()[j] == expect[j] by {
                        assert(txs.deep_view()[j] == projected_seq(
                            cbv,
                            receipt_of,
                            traces_of,
                            self.eip86_transition,
                            n as int,
                        )[j]);
                        assert(0 + j == j);
                    }
                    assert(txs.deep_view() =~= expect);
                    assert forall|i: int| 0 <= i < txs.deep_view().len() implies (
                    #[trigger] txs.deep_view()[i]).receipt.transaction_hash
                        == txs.deep_view()[i].transaction.hash by {
                        self.client.receipts_are_matched(cbv.transactions[i].hash);
                    }
                }
                let result = BlockWithTransactions {
                    hash: duplicate_opt_hash(&cb.hash),
                    parent_hash: cb.parent_hash.duplicate(),
                    uncles_hash: cb.uncles_hash.duplicate(),
                    author: cb.author.duplicate(),
                    miner: cb.author.duplicate(),
                    state_root: cb.state_root.duplicate(),
                    transactions_root: cb.transactions_root.duplicate(),
                    receipts_root: cb.receipts_root.duplicate(),
                    number: cb.number,
                    gas_used: cb.gas_used.duplicate(),
                    gas_limit: cb.gas_limit.duplicate(),
                    extra_data: cb.extra_data.duplicate(),
                    logs_bloom: cb.logs_bloom.duplicate(),
                    timestamp: cb.timestamp,
                    difficulty: cb.difficulty.duplicate(),
                    total_difficulty: td,
                    seal_fields: duplicate_bytes_list(&cb.seal_fields),
                    uncles: duplicate_hash_list(&cb.uncle_hashes),
                    transactions: txs,
                    size: Some(cb.size),
                };
                Ok(Some(result))
            },
        }
    }

    /// The single exposed remote procedure: resolves an external block
    /// reference and assembles the block it denotes.
    pub fn block_by_number(&self, num: BlockReference) -> (r: Result<
        Option<BlockWithTransactions>,
        AssemblyError,
    >)
        requires
            self.wf(),
        ensures
            response_view(r) == spec_assemble(
                self.client.spec_block(spec_resolve(num)),
                self.client.spec_total_difficulty(spec_resolve(num)),
                |h: Seq<u8>| self.client.spec_receipt(h),
                |h: Seq<u8>| self.client.spec_traces(h),
                self.eip86_transition,
            ),
    {
        let id = resolve_reference(num);
        self.block(id)
    }
}

/// Copy of an ordered byte-string list.
pub fn duplicate_bytes_list(v: &Vec<Bytes>) -> (r: Vec<Bytes>)
    ensures
        r.deep_view() == v.deep_view(),
{
    let mut r: Vec<Bytes> = Vec::new();
    let n = v.len();
    for i in 0..n
        invariant
            n == v@.len(),
            r@.len() == i,
            forall|j: int| 0 <= j < i ==> #[trigger] r@[j]@ == v@[j]@,
    {
        r.push(v[i].duplicate());
    }
    proof {
        assert forall|j: int| 0 <= j < n implies r.deep_view()[j] == v.deep_view()[j] by {
            assert(r@[j]@ == v@[j]@);
        }
        assert(r.deep_view() =~= v.deep_view());
    }
    r
}

/// Copy of an ordered hash list.
pub fn duplicate_hash_list(v: &Vec<Hash256>) -> (r: Vec<Hash256>)
    ensures
        r.deep_view() == v.deep_view(),
{
    let mut r: Vec<Hash256> = Vec::new();
    let n = v.len();
    for i in 0..n
        invariant
            n == v@.len(),
            r@.len() == i,
            forall|j: int| 0 <= j < i ==> #[trigger] r@[j]@ == v@[j]@,
    {
        r.push(v[i].duplicate());
    }
    proof {
        assert forall|j: int| 0 <= j < n implies r.deep_view()[j] == v.deep_view()[j] by {
            assert(r@[j]@ == v@[j]@);
        }
        assert(r.deep_view() =~= v.deep_view());
    }
    r
}

/// Law: for a present block whose every embedded transaction has a receipt,
/// assembly succeeds with a record whose transactions correspond one-to-one,
/// in execution order, to the block's own.
pub proof fn lemma_transactions_preserve_order(
    cb: ChainBlockV,
    td: Option<Seq<u8>>,
    receipt_of: spec_fn(Seq<u8>) -> Option<ReceiptV>,
    traces_of: spec_fn(Seq<u8>) -> Seq<TraceV>,
    transition: u64,
)
    requires
        forall|i: int|
            0 <= i < cb.transactions.len() ==> receipt_of(
                #[trigger] cb.transactions[i].hash,
            ) is Some,
    ensures
        ({
            let r = spec_assemble(Some(cb), td, receipt_of, traces_of, transition);
            &&& r is Ok
            &&& r->Ok_0 is Some
            &&& r->Ok_0->Some_0.transactions.len() == cb.transactions.len()
            &&& forall|i: int|
                0 <= i < cb.transactions.len() ==> (#[trigger] r->Ok_0->Some_0.transactions[i])
                    == spec_project(
                    cb.transactions[i],
                    cb.hash,
                    cb.number,
                    i as u64,
                    receipt_of(cb.transactions[i].hash).unwrap(),
                    traces_of(cb.transactions[i].hash),
                    transition,
                )
        }),
{
    lemma_project_from_ok(cb.transactions, 0, cb.hash, cb.number, receipt_of, traces_of, transition);
    let r = spec_assemble(Some(cb), td, receipt_of, traces_of, transition);
    assert forall|i: int| 0 <= i < cb.transactions.len() implies (
    #[trigger] r->Ok_0->Some_0.transactions[i]) == spec_project(
        cb.transactions[i],
        cb.hash,
        cb.number,
        i as u64,
        receipt_of(cb.transactions[i].hash).unwrap(),
        traces_of(cb.transactions[i].hash),
        transition,
    ) by {
        assert(0 + i == i);
    }
}

/// Law: an identifier the provider associates no block with (for one, a
/// height beyond the current canonical chain height) assembles to absence,
/// never to an error.
pub proof fn lemma_absent_block_is_absence(
    td: Option<Seq<u8>>,
    receipt_of: spec_fn(Seq<u8>) -> Option<ReceiptV>,
    traces_of: spec_fn(Seq<u8>) -> Seq<TraceV>,
    transition: u64,
)
    ensures
        spec_assemble(None, td, receipt_of, traces_of, transition) == Ok::<
            Option<BlockWithTransactionsV>,
            AssemblyErrorV,
        >(None),
{
}

/// Law: total-difficulty absence is soft. With the block present and every
/// receipt available, assembly without a total difficulty succeeds and yields
/// the same record as assembly with any present one, except that the
/// total-difficulty field itself is absent.
pub proof fn lemma_difficulty_absence_is_soft(
    cb: ChainBlockV,
    td: Option<Seq<u8>>,
    receipt_of: spec_fn(Seq<u8>) -> Option<ReceiptV>,
    traces_of: spec_fn(Seq<u8>) -> Seq<TraceV>,
    transition: u64,
)
    requires
        forall|i: int|
            0 <= i < cb.transactions.len() ==> receipt_of(
                #[trigger] cb.transactions[i].hash,
            ) is Some,
    ensures
        ({
            let bare = spec_assemble(Some(cb), None, receipt_of, traces_of, transition);
            let full = spec_assemble(Some(cb), td, receipt_of, traces_of, transition);
            &&& bare is Ok
            &&& bare->Ok_0 is Some
            &&& full is Ok
            &&& full->Ok_0 is Some
            &&& bare->Ok_0->Some_0.total_difficulty is None
            &&& bare->Ok_0->Some_0 == BlockWithTransactionsV {
                total_difficulty: None,
                ..full->Ok_0->Some_0
            }
        }),
{
    lemma_project_from_ok(cb.transactions, 0, cb.hash, cb.number, receipt_of, traces_of, transition);
}

} // verus!
