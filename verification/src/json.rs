//! The stable wire representation of a response. Field names, field order,
//! optionality and numeric encoding are a backward-compatibility contract:
//! hashes, addresses, blooms and opaque byte strings render as quoted
//! full-width lowercase hexadecimal with a `0x` prefix, quantities render as
//! quoted minimal hexadecimal with a `0x` prefix, absence renders as `null`,
//! and a wholly absent block renders as the protocol null value.

use vstd::prelude::*;

verus! {

use vstd::string::StringSliceAdditionalSpecFns;
use crate::assemble::{AssemblyError, AssemblyErrorV, BlockWithTransactions, BlockWithTransactionsV, response_view};
use crate::chain::{Receipt, ReceiptV, Trace, TraceV};
use crate::encoding::{
    hex_digits, push_hex_digits, push_lit, push_quantity_digits, quantity_digits, u64_be_bytes,
    u64_bytes,
};
use crate::project::{Transaction, TransactionV, TransactionWithReceipt, TransactionWithReceiptV};
use crate::types::{Bytes, Hash256};

/// A quoted `0x`-prefixed full-width hexadecimal string.
pub open spec fn json_hex_string(b: Seq<u8>) -> Seq<u8> {
    "\"0x".spec_bytes() + hex_digits(b) + "\"".spec_bytes()
}

/// A quoted `0x`-prefixed minimal quantity string.
pub open spec fn json_quantity(b: Seq<u8>) -> Seq<u8> {
    "\"0x".spec_bytes() + quantity_digits(b) + "\"".spec_bytes()
}

/// A 64-bit value as a quoted quantity string.
pub open spec fn json_u64(n: u64) -> Seq<u8> {
    json_quantity(u64_be_bytes(n))
}

/// An optional hexadecimal string; absence is `null`.
pub open spec fn json_opt_hex(o: Option<Seq<u8>>) -> Seq<u8> {
    match o {
        Some(b) => json_hex_string(b),
        None => "null".spec_bytes(),
    }
}

/// An optional quantity; absence is `null`.
pub open spec fn json_opt_quantity(o: Option<Seq<u8>>) -> Seq<u8> {
    match o {
        Some(b) => json_quantity(b),
        None => "null".spec_bytes(),
    }
}

/// An optional 64-bit quantity; absence is `null`.
pub open spec fn json_opt_u64(o: Option<u64>) -> Seq<u8> {
    match o {
        Some(n) => json_u64(n),
        None => "null".spec_bytes(),
    }
}

/// Comma-joined concatenation of already rendered items.
pub open spec fn joined(items: Seq<Seq<u8>>) -> Seq<u8>
    decreases items.len(),
{
    if items.len() == 0 {
        Seq::empty()
    } else if items.len() == 1 {
        items[0]
    } else {
        joined(items.drop_last()) + ",".spec_bytes() + items.last()
    }
}

/// A rendered array of already rendered items.
pub open spec fn json_array(items: Seq<Seq<u8>>) -> Seq<u8> {
    "[".spec_bytes() + joined(items) + "]".spec_bytes()
}

/// Each byte string rendered as a hexadecimal string.
pub open spec fn hex_items(s: Seq<Seq<u8>>) -> Seq<Seq<u8>> {
    Seq::new(s.len(), |i: int| json_hex_string(s[i]))
}

/// Each value rendered as a 64-bit quantity.
pub open spec fn quantity_items(a: Seq<u64>) -> Seq<Seq<u8>> {
    Seq::new(a.len(), |i: int| json_u64(a[i]))
}

/// One rendered trace.
pub open spec fn json_trace(t: TraceV) -> Seq<u8> {
    "{\"traceAddress\":".spec_bytes() + json_array(quantity_items(t.trace_address))
        + ",\"output\":".spec_bytes() + json_hex_string(t.output) + "}".spec_bytes()
}

/// Each trace rendered.
pub open spec fn trace_items(ts: Seq<TraceV>) -> Seq<Seq<u8>> {
    Seq::new(ts.len(), |i: int| json_trace(ts[i]))
}

/// One rendered receipt.
pub open spec fn json_receipt(r: ReceiptV) -> Seq<u8> {
    "{\"transactionHash\":".spec_bytes() + json_hex_string(r.transaction_hash)
        + ",\"transactionIndex\":".spec_bytes() + json_u64(r.transaction_index)
        + ",\"cumulativeGasUsed\":".spec_bytes() + json_quantity(r.cumulative_gas_used)
        + ",\"gasUsed\":".spec_bytes() + json_quantity(r.gas_used)
        + ",\"contractAddress\":".spec_bytes() + json_opt_hex(r.contract_address)
        + "}".spec_bytes()
}

/// The leading fields of a rendered transaction.
pub open spec fn json_transaction_head(t: TransactionV) -> Seq<u8> {
    "{\"hash\":".spec_bytes() + json_hex_string(t.hash) + ",\"nonce\":".spec_bytes()
        + json_quantity(t.nonce) + ",\"blockHash\":".spec_bytes() + json_opt_hex(t.block_hash)
        + ",\"blockNumber\":".spec_bytes() + json_opt_u64(t.block_number)
        + ",\"transactionIndex\":".spec_bytes() + json_u64(t.transaction_index)
        + ",\"from\":".spec_bytes() + json_hex_string(t.from)
}

/// The trailing fields of a rendered transaction.
pub open spec fn json_transaction_tail(t: TransactionV) -> Seq<u8> {
    ",\"to\":".spec_bytes() + json_opt_hex(t.to) + ",\"value\":".spec_bytes() + json_quantity(
        t.value,
    ) + ",\"gasPrice\":".spec_bytes() + json_quantity(t.gas_price) + ",\"gas\":".spec_bytes()
        + json_quantity(t.gas) + ",\"input\":".spec_bytes() + json_hex_string(t.input)
        + ",\"creates\":".spec_bytes() + json_opt_hex(t.creates) + "}".spec_bytes()
}

/// One rendered transaction.
pub open spec fn json_transaction(t: TransactionV) -> Seq<u8> {
    json_transaction_head(t) + json_transaction_tail(t)
}

/// One rendered transaction-with-receipt entry.
pub open spec fn json_tx_with_receipt(t: TransactionWithReceiptV) -> Seq<u8> {
    "{\"transaction\":".spec_bytes() + json_transaction(t.transaction) + ",\"receipt\":".spec_bytes()
        + json_receipt(t.receipt) + ",\"traces\":".spec_bytes() + json_array(trace_items(t.traces))
        + "}".spec_bytes()
}

/// Each transaction-with-receipt entry rendered.
pub open spec fn transaction_items(ts: Seq<TransactionWithReceiptV>) -> Seq<Seq<u8>> {
    Seq::new(ts.len(), |i: int| json_tx_with_receipt(ts[i]))
}

/// First quarter of a rendered block: identity and authorship.
pub open spec fn json_block_part1(b: BlockWithTransactionsV) -> Seq<u8> {
    "{\"hash\":".spec_bytes() + json_opt_hex(b.hash) + ",\"parentHash\":".spec_bytes()
        + json_hex_string(b.parent_hash) + ",\"sha3Uncles\":".spec_bytes() + json_hex_string(
        b.uncles_hash,
    ) + ",\"author\":".spec_bytes() + json_hex_string(b.author) + ",\"miner\":".spec_bytes()
        + json_hex_string(b.miner)
}

/// Second quarter of a rendered block: roots, number and gas.
pub open spec fn json_block_part2(b: BlockWithTransactionsV) -> Seq<u8> {
    ",\"stateRoot\":".spec_bytes() + json_hex_string(b.state_root)
        + ",\"transactionsRoot\":".spec_bytes() + json_hex_string(b.transactions_root)
        + ",\"receiptsRoot\":".spec_bytes() + json_hex_string(b.receipts_root)
        + ",\"number\":".spec_bytes() + json_opt_u64(b.number) + ",\"gasUsed\":".spec_bytes()
        + json_quantity(b.gas_used) + ",\"gasLimit\":".spec_bytes() + json_quantity(b.gas_limit)
}

/// Third quarter of a rendered block: extra data, bloom and difficulty.
pub open spec fn json_block_part3(b: BlockWithTransactionsV) -> Seq<u8> {
    ",\"extraData\":".spec_bytes() + json_hex_string(b.extra_data) + ",\"logsBloom\":".spec_bytes()
        + json_hex_string(b.logs_bloom) + ",\"timestamp\":".spec_bytes() + json_u64(b.timestamp)
        + ",\"difficulty\":".spec_bytes() + json_quantity(b.difficulty)
        + ",\"totalDifficulty\":".spec_bytes() + json_opt_quantity(b.total_difficulty)
}

/// Seal fields and uncles of a rendered block.
pub open spec fn json_block_part4(b: BlockWithTransactionsV) -> Seq<u8> {
    ",\"sealFields\":".spec_bytes() + json_array(hex_items(b.seal_fields))
        + ",\"uncles\":".spec_bytes() + json_array(hex_items(b.uncles))
}

/// Transactions and size of a rendered block, with the closing brace.
pub open spec fn json_block_part5(b: BlockWithTransactionsV) -> Seq<u8> {
    ",\"transactions\":".spec_bytes() + json_array(transaction_items(b.transactions))
        + ",\"size\":".spec_bytes() + json_opt_u64(b.size) + "}".spec_bytes()
}

/// One rendered block record.
pub open spec fn json_block(b: BlockWithTransactionsV) -> Seq<u8> {
    json_block_part1(b) + json_block_part2(b) + json_block_part3(b) + json_block_part4(b)
        + json_block_part5(b)
}

/// A whole rendered response: the record, or the protocol null value.
pub open spec fn json_response(r: Option<BlockWithTransactionsV>) -> Seq<u8> {
    match r {
        Some(b) => json_block(b),
        None => "null".spec_bytes(),
    }
}

proof fn lemma_joined_push(s: Seq<Seq<u8>>, x: Seq<u8>)
    ensures
        joined(s.push(x)) == if s.len() == 0 {
            x
        } else {
            joined(s) + ",".spec_bytes() + x
        },
{
    assert(s.push(x).drop_last() =~= s);
    assert(s.push(x).last() == x);
    if s.len() == 0 {
        assert(s.push(x)[0] == x);
    }
}

fn write_hex_string(out: &mut Vec<u8>, b: &[u8])
    ensures
        final(out)@ == old(out)@ + json_hex_string(b@),
{
    push_lit(out, "\"0x");
    push_hex_digits(out, b);
    push_lit(out, "\"");
    proof {
        assert(final(out)@ =~= old(out)@ + json_hex_string(b@));
    }
}

fn write_quantity(out: &mut Vec<u8>, b: &[u8])
    ensures
        final(out)@ == old(out)@ + json_quantity(b@),
{
    push_lit(out, "\"0x");
    push_quantity_digits(out, b);
    push_lit(out, "\"");
    proof {
        assert(final(out)@ =~= old(out)@ + json_quantity(b@));
    }
}

fn write_u64(out: &mut Vec<u8>, n: u64)
    ensures
        final(out)@ == old(out)@ + json_u64(n),
{
    let be = u64_bytes(n);
    write_quantity(out, be.as_slice());
}

fn write_trace(out: &mut Vec<u8>, t: &Trace)
    ensures
        final(out)@ == old(out)@ + json_trace(t@),
{
    push_lit(out, "{\"traceAddress\":");
    push_lit(out, "[");
    let ghost items = quantity_items(t@.trace_address);
    let ghost pre = out@;
    let n = t.trace_address.len();
    for i in 0..n
        invariant
            n == t.trace_address@.len(),
            items == quantity_items(t@.trace_address),
            out@ == pre + joined(items.take(i as int)),
    {
        if i > 0 {
            push_lit(out, ",");
        }
        write_u64(out, t.trace_address[i]);
        proof {
            assert(items[i as int] == json_u64(t.trace_address@[i as int]));
            assert(items.take(i as int).push(items[i as int]) =~= items.take(i + 1));
            lemma_joined_push(items.take(i as int), items[i as int]);
            assert(out@ =~= pre + joined(items.take(i + 1)));
        }
    }
    proof {
        assert(items.take(n as int) =~= items);
    }
    push_lit(out, "]");
    push_lit(out, ",\"output\":");
    write_hex_string(out, t.output.bytes.as_slice());
    push_lit(out, "}");
    proof {
        assert(final(out)@ =~= old(out)@ + json_trace(t@));
    }
}

fn write_trace_array(out: &mut Vec<u8>, ts: &Vec<Trace>)
    ensures
        final(out)@ == old(out)@ + json_array(trace_items(ts.deep_view())),
{
    push_lit(out, "[");
    let ghost items = trace_items(ts.deep_view());
    let ghost pre = out@;
    let n = ts.len();
    for i in 0..n
        invariant
            n == ts@.len(),
            items == trace_items(ts.deep_view()),
            out@ == pre + joined(items.take(i as int)),
    {
        if i > 0 {
            push_lit(out, ",");
        }
        write_trace(out, &ts[i]);
        proof {
            assert(ts.deep_view()[i as int] == ts@[i as int]@);
            assert(items[i as int] == json_trace(ts@[i as int]@));
            assert(items.take(i as int).push(items[i as int]) =~= items.take(i + 1));
            lemma_joined_push(items.take(i as int), items[i as int]);
            assert(out@ =~= pre + joined(items.take(i + 1)));
        }
    }
    proof {
        assert(items.take(n as int) =~= items);
    }
    push_lit(out, "]");
    proof {
        assert(final(out)@ =~= old(out)@ + json_array(trace_items(ts.deep_view())));
    }
}

fn write_bytes_array(out: &mut Vec<u8>, v: &Vec<Bytes>)
    ensures
        final(out)@ == old(out)@ + json_array(hex_items(v.deep_view())),
{
    push_lit(out, "[");
    let ghost items = hex_items(v.deep_view());
    let ghost pre = out@;
    let n = v.len();
    for i in 0..n
        invariant
            n == v@.len(),
            items == hex_items(v.deep_view()),
            out@ == pre + joined(items.take(i as int)),
    {
        if i > 0 {
            push_lit(out, ",");
        }
        write_hex_string(out, v[i].bytes.as_slice());
        proof {
            assert(v.deep_view()[i as int] == v@[i as int]@);
            assert(items[i as int] == json_hex_string(v@[i as int]@));
            assert(items.take(i as int).push(items[i as int]) =~= items.take(i + 1));
            lemma_joined_push(items.take(i as int), items[i as int]);
            assert(out@ =~= pre + joined(items.take(i + 1)));
        }
    }
    proof {
        assert(items.take(n as int) =~= items);
    }
    push_lit(out, "]");
    proof {
        assert(final(out)@ =~= old(out)@ + json_array(hex_items(v.deep_view())));
    }
}

fn write_hash_array(out: &mut Vec<u8>, v: &Vec<Hash256>)
    ensures
        final(out)@ == old(out)@ + json_array(hex_items(v.deep_view())),
{
    push_lit(out, "[");
    let ghost items = hex_items(v.deep_view());
    let ghost pre = out@;
    let n = v.len();
    for i in 0..n
        invariant
            n == v@.len(),
            items == hex_items(v.deep_view()),
            out@ == pre + joined(items.take(i as int)),
    {
        if i > 0 {
            push_lit(out, ",");
        }
        write_hex_string(out, v[i].bytes.as_slice());
        proof {
            assert(v.deep_view()[i as int] == v@[i as int]@);
            assert(items[i as int] == json_hex_string(v@[i as int]@));
            assert(items.take(i as int).push(items[i as int]) =~= items.take(i + 1));
            lemma_joined_push(items.take(i as int), items[i as int]);
            assert(out@ =~= pre + joined(items.take(i + 1)));
        }
    }
    proof {
        assert(items.take(n as int) =~= items);
    }
    push_lit(out, "]");
    proof {
        assert(final(out)@ =~= old(out)@ + json_array(hex_items(v.deep_view())));
    }
}

fn write_receipt(out: &mut Vec<u8>, r: &Receipt)
    ensures
        final(out)@ == old(out)@ + json_receipt(r@),
{
    push_lit(out, "{\"transactionHash\":");
    write_hex_string(out, r.transaction_hash.bytes.as_slice());
    push_lit(out, ",\"transactionIndex\":");
    write_u64(out, r.transaction_index);
    push_lit(out, ",\"cumulativeGasUsed\":");
    write_quantity(out, r.cumulative_gas_used.bytes.as_slice());
    push_lit(out, ",\"gasUsed\":");
    write_quantity(out, r.gas_used.bytes.as_slice());
    push_lit(out, ",\"contractAddress\":");
    match &r.contract_address {
        Some(a) => write_hex_string(out, a.bytes.as_slice()),
        None => push_lit(out, "null"),
    }
    push_lit(out, "}");
    proof {
        assert(final(out)@ =~= old(out)@ + json_receipt(r@));
    }
}

#[verifier::rlimit(100)]
#[verifier::spinoff_prover]
fn write_transaction_head(out: &mut Vec<u8>, t: &Transaction)
    ensures
        final(out)@ == old(out)@ + json_transaction_head(t@),
{
    push_lit(out, "{\"hash\":");
    write_hex_string(out, t.hash.bytes.as_slice());
    push_lit(out, ",\"nonce\":");
    write_quantity(out, t.nonce.bytes.as_slice());
    push_lit(out, ",\"blockHash\":");
    match &t.block_hash {
        Some(h) => write_hex_string(out, h.bytes.as_slice()),
        None => push_lit(out, "null"),
    }
    push_lit(out, ",\"blockNumber\":");
    match t.block_number {
        Some(n) => write_u64(out, n),
        None => push_lit(out, "null"),
    }
    push_lit(out, ",\"transactionIndex\":");
    write_u64(out, t.transaction_index);
    push_lit(out, ",\"from\":");
    write_hex_string(out, t.from.bytes.as_slice());
    proof {
        assert(final(out)@ =~= old(out)@ + json_transaction_head(t@));
    }
}

#[verifier::rlimit(100)]
#[verifier::spinoff_prover]
fn write_transaction_tail(out: &mut Vec<u8>, t: &Transaction)
    ensures
        final(out)@ == old(out)@ + json_transaction_tail(t@),
{
    push_lit(out, ",\"to\":");
    match &t.to {
        Some(a) => write_hex_string(out, a.bytes.as_slice()),
        None => push_lit(out, "null"),
    }
    push_lit(out, ",\"value\":");
    write_quantity(out, t.value.bytes.as_slice());
    push_lit(out, ",\"gasPrice\":");
    write_quantity(out, t.gas_price.bytes.as_slice());
    proof {
        assert(out@ =~= old(out)@ + (",\"to\":".spec_bytes() + json_opt_hex(t@.to)
            + ",\"value\":".spec_bytes() + json_quantity(t@.value) + ",\"gasPrice\":".spec_bytes()
            + json_quantity(t@.gas_price)));
    }
    push_lit(out, ",\"gas\":");
    write_quantity(out, t.gas.bytes.as_slice());
    push_lit(out, ",\"input\":");
    write_hex_string(out, t.input.bytes.as_slice());
    push_lit(out, ",\"creates\":");
    match &t.creates {
        Some(a) => write_hex_string(out, a.bytes.as_slice()),
        None => push_lit(out, "null"),
    }
    push_lit(out, "}");
    proof {
        assert(final(out)@ =~= old(out)@ + json_transaction_tail(t@));
    }
}

fn write_transaction(out: &mut Vec<u8>, t: &Transaction)
    ensures
        final(out)@ == old(out)@ + json_transaction(t@),
{
    write_transaction_head(out, t);
    write_transaction_tail(out, t);
    proof {
        assert(final(out)@ =~= old(out)@ + json_transaction(t@));
    }
}

fn write_tx_with_receipt(out: &mut Vec<u8>, t: &TransactionWithReceipt)
    ensures
        final(out)@ == old(out)@ + json_tx_with_receipt(t@),
{
    push_lit(out, "{\"transaction\":");
    write_transaction(out, &t.transaction);
    push_lit(out, ",\"receipt\":");
    write_receipt(out, &t.receipt);
    push_lit(out, ",\"traces\":");
    write_trace_array(out, &t.traces);
    push_lit(out, "}");
    proof {
        assert(final(out)@ =~= old(out)@ + json_tx_with_receipt(t@));
    }
}

#[verifier::rlimit(60)]
fn write_transaction_array(out: &mut Vec<u8>, ts: &Vec<TransactionWithReceipt>)
    ensures
        final(out)@ == old(out)@ + json_array(transaction_items(ts.deep_view())),
{
    push_lit(out, "[");
    let ghost items = transaction_items(ts.deep_view());
    let ghost pre = out@;
    let n = ts.len();
    for i in 0..n
        invariant
            n == ts@.len(),
            items == transaction_items(ts.deep_view()),
            out@ == pre + joined(items.take(i as int)),
    {
        if i > 0 {
            push_lit(out, ",");
        }
        write_tx_with_receipt(out, &ts[i]);
        proof {
            assert(ts.deep_view()[i as int] == ts@[i as int]@);
            assert(items[i as int] == json_tx_with_receipt(ts@[i as int]@));
            assert(items.take(i as int).push(items[i as int]) =~= items.take(i + 1));
            lemma_joined_push(items.take(i as int), items[i as int]);
            assert(out@ =~= pre + joined(items.take(i + 1)));
        }
    }
    proof {
        assert(items.take(n as int) =~= items);
    }
    push_lit(out, "]");
    proof {
        assert(final(out)@ =~= old(out)@ + json_array(transaction_items(ts.deep_view())));
    }
}

/// Renders one populated block record into its wire bytes.
fn write_block_part1(out: &mut Vec<u8>, b: &BlockWithTransactions)
    ensures
        final(out)@ == old(out)@ + json_block_part1(b@),
{
    push_lit(out, "{\"hash\":");
    match &b.hash {
        Some(h) => write_hex_string(out, h.bytes.as_slice()),
        None => push_lit(out, "null"),
    }
    push_lit(out, ",\"parentHash\":");
    write_hex_string(out, b.parent_hash.bytes.as_slice());
    push_lit(out, ",\"sha3Uncles\":");
    write_hex_string(out, b.uncles_hash.bytes.as_slice());
    push_lit(out, ",\"author\":");
    write_hex_string(out, b.author.bytes.as_slice());
    push_lit(out, ",\"miner\":");
    write_hex_string(out, b.miner.bytes.as_slice());
    proof {
        assert(final(out)@ =~= old(out)@ + json_block_part1(b@));
    }
}

fn write_block_part2(out: &mut Vec<u8>, b: &BlockWithTransactions)
    ensures
        final(out)@ == old(out)@ + json_block_part2(b@),
{
    push_lit(out, ",\"stateRoot\":");
    write_hex_string(out, b.state_root.bytes.as_slice());
    push_lit(out, ",\"transactionsRoot\":");
    write_hex_string(out, b.transactions_root.bytes.as_slice());
    push_lit(out, ",\"receiptsRoot\":");
    write_hex_string(out, b.receipts_root.bytes.as_slice());
    push_lit(out, ",\"number\":");
    match b.number {
        Some(n) => write_u64(out, n),
        None => push_lit(out, "null"),
    }
    push_lit(out, ",\"gasUsed\":");
    write_quantity(out, b.gas_used.bytes.as_slice());
    push_lit(out, ",\"gasLimit\":");
    write_quantity(out, b.gas_limit.bytes.as_slice());
    proof {
        assert(final(out)@ =~= old(out)@ + json_block_part2(b@));
    }
}

fn write_block_part3(out: &mut Vec<u8>, b: &BlockWithTransactions)
    ensures
        final(out)@ == old(out)@ + json_block_part3(b@),
{
    push_lit(out, ",\"extraData\":");
    write_hex_string(out, b.extra_data.bytes.as_slice());
    push_lit(out, ",\"logsBloom\":");
    write_hex_string(out, b.logs_bloom.bytes.as_slice());
    push_lit(out, ",\"timestamp\":");
    write_u64(out, b.timestamp);
    push_lit(out, ",\"difficulty\":");
    write_quantity(out, b.difficulty.bytes.as_slice());
    push_lit(out, ",\"totalDifficulty\":");
    match &b.total_difficulty {
        Some(d) => write_quantity(out, d.bytes.as_slice()),
        None => push_lit(out, "null"),
    }
    proof {
        assert(final(out)@ =~= old(out)@ + json_block_part3(b@));
    }
}

#[verifier::rlimit(100)]
#[verifier::spinoff_prover]
fn write_block_part4(out: &mut Vec<u8>, b: &BlockWithTransactions)
    ensures
        final(out)@ == old(out)@ + json_block_part4(b@),
{
    push_lit(out, ",\"sealFields\":");
    write_bytes_array(out, &b.seal_fields);
    push_lit(out, ",\"uncles\":");
    write_hash_array(out, &b.uncles);
    proof {
        assert(final(out)@ =~= old(out)@ + json_block_part4(b@));
    }
}

#[verifier::rlimit(100)]
#[verifier::spinoff_prover]
fn write_block_part5(out: &mut Vec<u8>, b: &BlockWithTransactions)
    ensures
        final(out)@ == old(out)@ + json_block_part5(b@),
{
    push_lit(out, ",\"transactions\":");
    write_transaction_array(out, &b.transactions);
    push_lit(out, ",\"size\":");
    match b.size {
        Some(n) => write_u64(out, n),
        None => push_lit(out, "null"),
    }
    push_lit(out, "}");
    proof {
        assert(final(out)@ =~= old(out)@ + json_block_part5(b@));
    }
}

/// Renders one populated block record into its wire bytes.
pub fn render_block(b: &BlockWithTransactions) -> (out: Vec<u8>)
    ensures
        out@ == json_block(b@),
{
    let mut out: Vec<u8> = Vec::new();
    write_block_part1(&mut out, b);
    write_block_part2(&mut out, b);
    write_block_part3(&mut out, b);
    write_block_part4(&mut out, b);
    write_block_part5(&mut out, b);
    proof {
        assert(out@ =~= json_block(b@));
    }
    out
}

/// Renders a whole response: the record's bytes, or the protocol null value
/// for an absent block.
pub fn render_response(r: &Option<BlockWithTransactions>) -> (out: Vec<u8>)
    ensures
        out@ == json_response(r.deep_view()),
{
    match r {
        Some(b) => render_block(b),
        None => {
            let mut out: Vec<u8> = Vec::new();
            push_lit(&mut out, "null");
            out
        },
    }
}

/// Law: two responses the assembler's contract pins to one and the same
/// provider model are equal outright, and when they succeed they render to
/// byte-identical wire output. Since the assembler's contract pins every
/// response to `spec_assemble` of the provider's model, re-requesting the
/// same identifier without intervening chain mutation is idempotent down to
/// the serialized bytes.
pub proof fn lemma_same_request_same_bytes(
    r1: Result<Option<BlockWithTransactions>, AssemblyError>,
    r2: Result<Option<BlockWithTransactions>, AssemblyError>,
    model: Result<Option<BlockWithTransactionsV>, AssemblyErrorV>,
)
    requires
        response_view(r1) == model,
        response_view(r2) == model,
    ensures
        response_view(r1) == response_view(r2),
        r1 is Ok ==> json_response(response_view(r1)->Ok_0) == json_response(
            response_view(r2)->Ok_0,
        ),
{
}

} // verus!
