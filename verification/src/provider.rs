//! The chain data provider capability: the narrow read-only interface the
//! assembler consumes, and an in-memory implementation of it backed by plain
//! vectors, suitable for exercising the assembler without a chain backend.

use vstd::prelude::*;

verus! {

use crate::chain::{
    BlockIdentifier, ChainBlock, ChainBlockV, Receipt, ReceiptV, Trace, TraceV, chain_block_wf,
    check_block_wf, check_receipt_wf, receipt_wf,
};
use crate::encoding::bytes_eq;
use crate::types::{Hash256, U256, u256_wf};

/// The read-only capability the assembler consumes. Each implementation
/// carries an abstract model of its store (the `spec_` functions), and every
/// lookup answers exactly from that model while the store is not mutated.
pub trait ChainDataProvider {
    /// Internal consistency of the store.
    spec fn inv(&self) -> bool;

    /// The block the store associates with an identifier, if any.
    spec fn spec_block(&self, id: BlockIdentifier) -> Option<ChainBlockV>;

    /// The cumulative total difficulty the store associates with an
    /// identifier, tracked independently of the block itself.
    spec fn spec_total_difficulty(&self, id: BlockIdentifier) -> Option<Seq<u8>>;

    /// The receipt the store associates with a transaction hash, if any.
    spec fn spec_receipt(&self, tx_hash: Seq<u8>) -> Option<ReceiptV>;

    /// The ordered execution traces the store associates with a transaction
    /// hash; empty when none are recorded.
    spec fn spec_traces(&self, tx_hash: Seq<u8>) -> Seq<TraceV>;

    /// The configured transition height, fixed for the store's lifetime.
    spec fn spec_transition(&self) -> u64;

    /// Every block the store hands out is well-formed.
    proof fn blocks_are_wf(&self, id: BlockIdentifier)
        requires
            self.inv(),
        ensures
            match self.spec_block(id) {
                Some(b) => chain_block_wf(b),
                None => true,
            },
    ;

    /// Every receipt the store hands out is well-formed and keyed by the
    /// transaction hash it was requested under.
    proof fn receipts_are_matched(&self, tx_hash: Seq<u8>)
        requires
            self.inv(),
        ensures
            match self.spec_receipt(tx_hash) {
                Some(r) => receipt_wf(r) && r.transaction_hash == tx_hash,
                None => true,
            },
    ;

    /// Every total difficulty the store hands out is a 256-bit value.
    proof fn difficulties_are_wf(&self, id: BlockIdentifier)
        requires
            self.inv(),
        ensures
            match self.spec_total_difficulty(id) {
                Some(d) => u256_wf(d),
                None => true,
            },
    ;

    fn get_block(&self, id: BlockIdentifier) -> (r: Option<&ChainBlock>)
        requires
            self.inv(),
        ensures
            r.deep_view() == self.spec_block(id),
    ;

    fn get_total_difficulty(&self, id: BlockIdentifier) -> (r: Option<&U256>)
        requires
            self.inv(),
        ensures
            r.deep_view() == self.spec_total_difficulty(id),
    ;

    fn get_receipt(&self, tx_hash: &Hash256) -> (r: Option<&Receipt>)
        requires
            self.inv(),
        ensures
            r.deep_view() == self.spec_receipt(tx_hash@),
    ;

    fn get_traces(&self, tx_hash: &Hash256) -> (r: Option<&Vec<Trace>>)
        requires
            self.inv(),
        ensures
            (match r {
                Some(ts) => ts.deep_view(),
                None => Seq::<TraceV>::empty(),
            }) == self.spec_traces(tx_hash@),
    ;

    fn get_transition_height(&self) -> (r: u64)
        requires
            self.inv(),
        ensures
            r == self.spec_transition(),
    ;
}

/// The ordered traces recorded for one transaction.
pub struct TraceRecord {
    pub transaction_hash: Hash256,
    pub traces: Vec<Trace>,
}

/// View of a [`TraceRecord`].
pub struct TraceRecordV {
    pub transaction_hash: Seq<u8>,
    pub traces: Seq<TraceV>,
}

impl View for TraceRecord {
    type V = TraceRecordV;

    open spec fn view(&self) -> TraceRecordV {
        TraceRecordV { transaction_hash: self.transaction_hash@, traces: self.traces.deep_view() }
    }
}

impl DeepView for TraceRecord {
    type V = TraceRecordV;

    open spec fn deep_view(&self) -> TraceRecordV {
        self@
    }
}

/// First receipt in the list keyed by the given transaction hash.
pub open spec fn receipt_lookup(rs: Seq<ReceiptV>, h: Seq<u8>) -> Option<ReceiptV>
    decreases rs.len(),
{
    if rs.len() == 0 {
        None
    } else if rs[0].transaction_hash == h {
        Some(rs[0])
    } else {
        receipt_lookup(rs.skip(1), h)
    }
}

/// Traces of the first record keyed by the given transaction hash; empty when
/// there is none.
pub open spec fn trace_lookup(rs: Seq<TraceRecordV>, h: Seq<u8>) -> Seq<TraceV>
    decreases rs.len(),
{
    if rs.len() == 0 {
        Seq::empty()
    } else if rs[0].transaction_hash == h {
        rs[0].traces
    } else {
        trace_lookup(rs.skip(1), h)
    }
}

proof fn lemma_receipt_lookup_found(rs: Seq<ReceiptV>, h: Seq<u8>)
    requires
        forall|i: int| 0 <= i < rs.len() ==> receipt_wf(#[trigger] rs[i]),
    ensures
        match receipt_lookup(rs, h) {
            Some(r) => receipt_wf(r) && r.transaction_hash == h,
            None => true,
        },
    decreases rs.len(),
{
    if rs.len() != 0 && rs[0].transaction_hash != h {
        assert(forall|i: int|
            0 <= i < rs.skip(1).len() ==> receipt_wf(#[trigger] rs.skip(1)[i]));
        lemma_receipt_lookup_found(rs.skip(1), h);
    }
}

/// An in-memory chain store: blocks ordered by height, a parallel list of
/// total difficulties, receipts and traces keyed by transaction hash, and an
/// optional pending block not yet included in canonical height ordering.
pub struct MemoryProvider {
    pub blocks: Vec<ChainBlock>,
    pub total_difficulties: Vec<Option<U256>>,
    pub pending: Option<ChainBlock>,
    pub receipts: Vec<Receipt>,
    pub trace_records: Vec<TraceRecord>,
    pub transition_height: u64,
}

impl MemoryProvider {
    /// The index into `blocks` an identifier resolves to: heights are indices,
    /// `Earliest` is the first block, `Latest` the last, and `Pending` falls
    /// back to the last block only when no pending block is staged.
    pub open spec fn resolved_index(&self, id: BlockIdentifier) -> Option<int> {
        match id {
            BlockIdentifier::ByNumber(n) => if (n as int) < self.blocks@.len() {
                Some(n as int)
            } else {
                None
            },
            BlockIdentifier::Earliest => if self.blocks@.len() > 0 {
                Some(0int)
            } else {
                None
            },
            BlockIdentifier::Latest => if self.blocks@.len() > 0 {
                Some(self.blocks@.len() - 1)
            } else {
                None
            },
            BlockIdentifier::Pending => if self.pending is Some {
                None
            } else if self.blocks@.len() > 0 {
                Some(self.blocks@.len() - 1)
            } else {
                None
            },
        }
    }

    /// An empty store.
    pub fn new(transition_height: u64) -> (r: MemoryProvider)
        ensures
            r.inv(),
            r.spec_transition() == transition_height,
            r.blocks@.len() == 0,
            r.total_difficulties@.len() == 0,
            r.pending is None,
            r.receipts@.len() == 0,
            r.trace_records@.len() == 0,
    {
        MemoryProvider {
            blocks: Vec::new(),
            total_difficulties: Vec::new(),
            pending: None,
            receipts: Vec::new(),
            trace_records: Vec::new(),
            transition_height,
        }
    }

    /// Appends a block at the next height, with its independently tracked
    /// total difficulty (absent to model a difficulty lookup that fails).
    /// Rejects a malformed block and one whose number is not the next height.
    pub fn push_block(&mut self, block: ChainBlock, total_difficulty: Option<U256>) -> (ok: bool)
        requires
            old(self).inv(),
        ensures
            final(self).inv(),
            ok == (chain_block_wf(block@) && block@.number == Some(
                old(self).blocks@.len() as u64,
            ) && match total_difficulty {
                Some(d) => u256_wf(d@),
                None => true,
            }),
            ok ==> final(self).blocks@ == old(self).blocks@.push(block),
            ok ==> final(self).total_difficulties@ == old(self).total_difficulties@.push(
                total_difficulty,
            ),
            !ok ==> final(self).blocks@ == old(self).blocks@ && final(self).total_difficulties@
                == old(self).total_difficulties@,
            final(self).pending == old(self).pending,
            final(self).receipts@ == old(self).receipts@,
            final(self).trace_records@ == old(self).trace_records@,
            final(self).transition_height == old(self).transition_height,
    {
        let wf_ok = check_block_wf(&block);
        let number_ok = match block.number {
            Some(n) => n == self.blocks.len() as u64,
            None => false,
        };
        let td_ok = match &total_difficulty {
            Some(d) => d.bytes.len() == 32,
            None => true,
        };
        if wf_ok && number_ok && td_ok {
            self.blocks.push(block);
            self.total_difficulties.push(total_difficulty);
            true
        } else {
            false
        }
    }

    /// Stages a pending block: one that is well-formed but carries neither
    /// hash nor number. Rejects any other.
    pub fn set_pending(&mut self, block: ChainBlock) -> (ok: bool)
        requires
            old(self).inv(),
        ensures
            final(self).inv(),
            ok == (chain_block_wf(block@) && block@.hash is None),
            ok ==> final(self).pending == Some(block),
            !ok ==> final(self).pending == old(self).pending,
            final(self).blocks@ == old(self).blocks@,
            final(self).total_difficulties@ == old(self).total_difficulties@,
            final(self).receipts@ == old(self).receipts@,
            final(self).trace_records@ == old(self).trace_records@,
            final(self).transition_height == old(self).transition_height,
    {
        let wf_ok = check_block_wf(&block);
        let pending_ok = match &block.hash {
            None => true,
            Some(_) => false,
        };
        if wf_ok && pending_ok {
            self.pending = Some(block);
            true
        } else {
            false
        }
    }

    /// Records a receipt, keyed by its own transaction hash. Rejects a
    /// malformed one.
    pub fn push_receipt(&mut self, receipt: Receipt) -> (ok: bool)
        requires
            old(self).inv(),
        ensures
            final(self).inv(),
            ok == receipt_wf(receipt@),
            ok ==> final(self).receipts@ == old(self).receipts@.push(receipt),
            !ok ==> final(self).receipts@ == old(self).receipts@,
            final(self).blocks@ == old(self).blocks@,
            final(self).total_difficulties@ == old(self).total_difficulties@,
            final(self).pending == old(self).pending,
            final(self).trace_records@ == old(self).trace_records@,
            final(self).transition_height == old(self).transition_height,
    {
        if check_receipt_wf(&receipt) {
            self.receipts.push(receipt);
            true
        } else {
            false
        }
    }

    /// Records the ordered traces of one transaction.
    pub fn add_traces(&mut self, transaction_hash: Hash256, traces: Vec<Trace>)
        requires
            old(self).inv(),
        ensures
            final(self).inv(),
            final(self).trace_records@ == old(self).trace_records@.push(
                TraceRecord { transaction_hash, traces },
            ),
            final(self).blocks@ == old(self).blocks@,
            final(self).total_difficulties@ == old(self).total_difficulties@,
            final(self).pending == old(self).pending,
            final(self).receipts@ == old(self).receipts@,
            final(self).transition_height == old(self).transition_height,
    {
        self.trace_records.push(TraceRecord { transaction_hash, traces });
    }
}

impl ChainDataProvider for MemoryProvider {
    /// Blocks are well-formed and numbered by their height, the total
    /// difficulty list runs parallel to them, a staged pending block is
    /// well-formed and unnumbered, and receipts are well-formed.
    open spec fn inv(&self) -> bool {
        &&& (forall|i: int|
            0 <= i < self.blocks@.len() ==> chain_block_wf(#[trigger] self.blocks@[i]@)
                && self.blocks@[i]@.number == Some(i as u64))
        &&& self.total_difficulties@.len() == self.blocks@.len()
        &&& (forall|i: int|
            0 <= i < self.total_difficulties@.len() ==> match #[trigger] self.total_difficulties@[i] {
                Some(d) => u256_wf(d@),
                None => true,
            })
        &&& match self.pending {
            Some(b) => chain_block_wf(b@) && b@.hash is None,
            None => true,
        }
        &&& (forall|i: int| 0 <= i < self.receipts@.len() ==> receipt_wf(#[trigger] self.receipts@[i]@))
    }

    open spec fn spec_block(&self, id: BlockIdentifier) -> Option<ChainBlockV> {
        if id is Pending && self.pending is Some {
            Some(self.pending.unwrap()@)
        } else {
            match self.resolved_index(id) {
                Some(i) => Some(self.blocks@[i]@),
                None => None,
            }
        }
    }

    open spec fn spec_total_difficulty(&self, id: BlockIdentifier) -> Option<Seq<u8>> {
        match self.resolved_index(id) {
            Some(i) => match self.total_difficulties@[i] {
                Some(d) => Some(d@),
                None => None,
            },
            None => None,
        }
    }

    open spec fn spec_receipt(&self, tx_hash: Seq<u8>) -> Option<ReceiptV> {
        receipt_lookup(self.receipts.deep_view(), tx_hash)
    }

    open spec fn spec_traces(&self, tx_hash: Seq<u8>) -> Seq<TraceV> {
        trace_lookup(self.trace_records.deep_view(), tx_hash)
    }

    open spec fn spec_transition(&self) -> u64 {
        self.transition_height
    }

    proof fn blocks_are_wf(&self, id: BlockIdentifier) {
    }

    proof fn receipts_are_matched(&self, tx_hash: Seq<u8>) {
        assert(forall|i: int|
            0 <= i < self.receipts.deep_view().len() ==> receipt_wf(
                #[trigger] self.receipts.deep_view()[i],
            ));
        lemma_receipt_lookup_found(self.receipts.deep_view(), tx_hash);
    }

    proof fn difficulties_are_wf(&self, id: BlockIdentifier) {
    }

    fn get_block(&self, id: BlockIdentifier) -> (r: Option<&ChainBlock>) {
        match id {
            BlockIdentifier::ByNumber(n) => {
                if n < self.blocks.len() as u64 {
                    Some(&self.blocks[n as usize])
                } else {
                    None
                }
            },
            BlockIdentifier::Earliest => {
                if self.blocks.len() > 0 {
                    Some(&self.blocks[0])
                } else {
                    None
                }
            },
            BlockIdentifier::Latest => {
                if self.blocks.len() > 0 {
                    Some(&self.blocks[self.blocks.len() - 1])
                } else {
                    None
                }
            },
            BlockIdentifier::Pending => {
                match &self.pending {
                    Some(b) => Some(b),
                    None => {
                        if self.blocks.len() > 0 {
                            Some(&self.blocks[self.blocks.len() - 1])
                        } else {
                            None
                        }
                    },
                }
            },
        }
    }

    fn get_total_difficulty(&self, id: BlockIdentifier) -> (r: Option<&U256>) {
        let index: Option<usize> = match id {
            BlockIdentifier::ByNumber(n) => {
                if n < self.blocks.len() as u64 {
                    Some(n as usize)
                } else {
                    None
                }
            },
            BlockIdentifier::Earliest => {
                if self.blocks.len() > 0 {
                    Some(0)
                } else {
                    None
                }
            },
            BlockIdentifier::Latest => {
                if self.blocks.len() > 0 {
                    Some(self.blocks.len() - 1)
                } else {
                    None
                }
            },
            BlockIdentifier::Pending => {
                match &self.pending {
                    Some(_) => None,
                    None => {
                        if self.blocks.len() > 0 {
                            Some(self.blocks.len() - 1)
                        } else {
                            None
                        }
                    },
                }
            },
        };
        match index {
            Some(i) => {
                match &self.total_difficulties[i] {
                    Some(d) => Some(d),
                    None => None,
                }
            },
            None => None,
        }
    }

    fn get_receipt(&self, tx_hash: &Hash256) -> (r: Option<&Receipt>) {
        let ghost rs = self.receipts.deep_view();
        proof {
            assert(rs.skip(0) =~= rs);
        }
        let n = self.receipts.len();
        for i in 0..n
            invariant
                n == self.receipts@.len(),
                rs == self.receipts.deep_view(),
                receipt_lookup(rs, tx_hash@) == receipt_lookup(rs.skip(i as int), tx_hash@),
        {
            if bytes_eq(
                self.receipts[i].transaction_hash.bytes.as_slice(),
                tx_hash.bytes.as_slice(),
            ) {
                proof {
                    assert(rs.skip(i as int)[0] == rs[i as int]);
                }
                return Some(&self.receipts[i]);
            }
            proof {
                assert(rs.skip(i as int)[0] == rs[i as int]);
                assert(rs.skip(i as int).skip(1) =~= rs.skip(i + 1));
            }
        }
        proof {
            assert(rs.skip(n as int) =~= Seq::<ReceiptV>::empty());
        }
        None
    }

    fn get_traces(&self, tx_hash: &Hash256) -> (r: Option<&Vec<Trace>>) {
        let ghost rs = self.trace_records.deep_view();
        proof {
            assert(rs.skip(0) =~= rs);
        }
        let n = self.trace_records.len();
        for i in 0..n
            invariant
                n == self.trace_records@.len(),
                rs == self.trace_records.deep_view(),
                trace_lookup(rs, tx_hash@) == trace_lookup(rs.skip(i as int), tx_hash@),
        {
            if bytes_eq(
                self.trace_records[i].transaction_hash.bytes.as_slice(),
                tx_hash.bytes.as_slice(),
            ) {
                proof {
                    assert(rs.skip(i as int)[0] == rs[i as int]);
                }
                return Some(&self.trace_records[i].traces);
            }
            proof {
                assert(rs.skip(i as int)[0] == rs[i as int]);
                assert(rs.skip(i as int).skip(1) =~= rs.skip(i + 1));
            }
        }
        proof {
            assert(rs.skip(n as int) =~= Seq::<TraceRecordV>::empty());
        }
        None
    }

    fn get_transition_height(&self) -> (r: u64) {
        self.transition_height
    }
}

/// Law: a height at or beyond the chain's current canonical height resolves
/// to no block and no total difficulty.
pub proof fn lemma_out_of_range_height(p: &MemoryProvider, n: u64)
    requires
        n as int >= p.blocks@.len(),
    ensures
        p.spec_block(BlockIdentifier::ByNumber(n)) is None,
        p.spec_total_difficulty(BlockIdentifier::ByNumber(n)) is None,
{
}

} // verus!
