use bulk_rpc::assemble::{AssemblyError, BulkClient};
use bulk_rpc::chain::{
    BlockIdentifier, BlockReference, ChainAction, ChainBlock, ChainTransaction, Receipt, Trace,
    resolve_reference,
};
use bulk_rpc::provider::MemoryProvider;
use bulk_rpc::types::{Address, Bloom, Bytes, Hash256, U256};

fn h256(tag: u8) -> Hash256 {
    Hash256::new(vec![tag; 32]).unwrap()
}

fn addr(tag: u8) -> Address {
    Address::new(vec![tag; 20]).unwrap()
}

fn u256v(v: u64) -> U256 {
    let mut b = vec![0u8; 32];
    b[24..].copy_from_slice(&v.to_be_bytes());
    U256::new(b).unwrap()
}

fn bloom0() -> Bloom {
    Bloom::new(vec![0; 256]).unwrap()
}

fn make_tx(tag: u8) -> ChainTransaction {
    ChainTransaction {
        hash: h256(tag),
        nonce: u256v(0),
        sender: addr(9),
        action: ChainAction::Call(addr(7)),
        value: u256v(1),
        gas_price: u256v(2),
        gas: u256v(3),
        input: Bytes::new(vec![]),
    }
}

fn make_block(number: u64, tag: u8, txs: Vec<ChainTransaction>) -> ChainBlock {
    ChainBlock {
        hash: Some(h256(tag)),
        number: Some(number),
        parent_hash: h256(0),
        uncles_hash: h256(1),
        author: addr(2),
        state_root: h256(3),
        transactions_root: h256(4),
        receipts_root: h256(5),
        gas_used: u256v(100),
        gas_limit: u256v(200),
        extra_data: Bytes::new(vec![]),
        logs_bloom: bloom0(),
        timestamp: 1234,
        difficulty: u256v(42),
        seal_fields: vec![],
        uncle_hashes: vec![],
        transactions: txs,
        size: 500,
    }
}

fn receipt_for(tx_tag: u8, index: u64) -> Receipt {
    Receipt {
        transaction_hash: h256(tx_tag),
        transaction_index: index,
        cumulative_gas_used: u256v(10),
        gas_used: u256v(5),
        contract_address: None,
    }
}

#[test]
fn resolve_passes_tags_through() {
    assert_eq!(
        resolve_reference(BlockReference::Number(5)),
        BlockIdentifier::ByNumber(5)
    );
    assert_eq!(resolve_reference(BlockReference::Latest), BlockIdentifier::Latest);
    assert_eq!(resolve_reference(BlockReference::Earliest), BlockIdentifier::Earliest);
    assert_eq!(resolve_reference(BlockReference::Pending), BlockIdentifier::Pending);
}

#[test]
fn genesis_on_single_block_chain() {
    let mut p = MemoryProvider::new(1000);
    assert!(p.push_block(make_block(0, 7, vec![]), Some(u256v(1000))));
    let client = BulkClient::new(p);
    let r = client.block_by_number(BlockReference::Number(0)).unwrap();
    let b = r.unwrap();
    assert_eq!(b.hash.as_ref().unwrap().bytes, vec![7; 32]);
    assert_eq!(b.number, Some(0));
    assert!(b.transactions.is_empty());
    assert!(b.uncles.is_empty());
}

#[test]
fn height_beyond_chain_is_absent_not_error() {
    let mut p = MemoryProvider::new(1000);
    for i in 0..101u64 {
        assert!(p.push_block(make_block(i, i as u8, vec![]), Some(u256v(i))));
    }
    let client = BulkClient::new(p);
    let r = client.block_by_number(BlockReference::Number(1_000_000));
    assert!(matches!(r, Ok(None)));
}

#[test]
fn missing_difficulty_leaves_only_that_field_absent() {
    let mut p = MemoryProvider::new(1000);
    assert!(p.push_block(make_block(0, 7, vec![]), None));
    let client = BulkClient::new(p);
    let b = client.block_by_number(BlockReference::Number(0)).unwrap().unwrap();
    assert!(b.total_difficulty.is_none());
    assert!(b.hash.is_some());
    assert_eq!(b.number, Some(0));
    assert_eq!(b.size, Some(500));
    assert_eq!(b.author.bytes, vec![2; 20]);
    assert_eq!(b.miner.bytes, vec![2; 20]);
}

#[test]
fn transactions_keep_execution_order() {
    let mut p = MemoryProvider::new(1000);
    let txs = vec![make_tx(11), make_tx(12), make_tx(13)];
    assert!(p.push_block(make_block(0, 7, txs), Some(u256v(9))));
    assert!(p.push_receipt(receipt_for(11, 0)));
    assert!(p.push_receipt(receipt_for(12, 1)));
    assert!(p.push_receipt(receipt_for(13, 2)));
    let client = BulkClient::new(p);
    let b = client.block_by_number(BlockReference::Number(0)).unwrap().unwrap();
    assert_eq!(b.transactions.len(), 3);
    assert_eq!(b.transactions[0].transaction.hash.bytes, vec![11; 32]);
    assert_eq!(b.transactions[1].transaction.hash.bytes, vec![12; 32]);
    assert_eq!(b.transactions[2].transaction.hash.bytes, vec![13; 32]);
    assert_eq!(b.transactions[0].transaction.transaction_index, 0);
    assert_eq!(b.transactions[1].transaction.transaction_index, 1);
    assert_eq!(b.transactions[2].transaction.transaction_index, 2);
}

#[test]
fn receipt_hash_matches_transaction_hash() {
    let mut p = MemoryProvider::new(1000);
    let txs = vec![make_tx(21), make_tx(22)];
    assert!(p.push_block(make_block(0, 7, txs), Some(u256v(9))));
    assert!(p.push_receipt(receipt_for(21, 0)));
    assert!(p.push_receipt(receipt_for(22, 1)));
    let client = BulkClient::new(p);
    let b = client.block_by_number(BlockReference::Number(0)).unwrap().unwrap();
    for entry in &b.transactions {
        assert_eq!(entry.receipt.transaction_hash.bytes, entry.transaction.hash.bytes);
    }
}

#[test]
fn missing_receipt_fails_whole_request() {
    let mut p = MemoryProvider::new(1000);
    let txs = vec![make_tx(31), make_tx(32), make_tx(33)];
    assert!(p.push_block(make_block(0, 7, txs), Some(u256v(9))));
    assert!(p.push_receipt(receipt_for(31, 0)));
    // no receipt for the second transaction
    assert!(p.push_receipt(receipt_for(33, 2)));
    let client = BulkClient::new(p);
    let r = client.block_by_number(BlockReference::Number(0));
    match r {
        Err(AssemblyError::DataConsistencyFault { transaction_hash }) => {
            assert_eq!(transaction_hash.bytes, vec![32; 32]);
        }
        _ => panic!("expected a data-consistency fault"),
    }
}

#[test]
fn latest_resolves_to_highest_block() {
    let mut p = MemoryProvider::new(1000);
    assert!(p.push_block(make_block(0, 1, vec![]), None));
    assert!(p.push_block(make_block(1, 2, vec![]), None));
    let client = BulkClient::new(p);
    let b = client.block_by_number(BlockReference::Latest).unwrap().unwrap();
    assert_eq!(b.number, Some(1));
    assert_eq!(b.hash.as_ref().unwrap().bytes, vec![2; 32]);
}

#[test]
fn earliest_resolves_to_genesis() {
    let mut p = MemoryProvider::new(1000);
    assert!(p.push_block(make_block(0, 1, vec![]), None));
    assert!(p.push_block(make_block(1, 2, vec![]), None));
    let client = BulkClient::new(p);
    let b = client.block_by_number(BlockReference::Earliest).unwrap().unwrap();
    assert_eq!(b.number, Some(0));
}

#[test]
fn pending_block_has_no_hash_and_no_number() {
    let mut p = MemoryProvider::new(1000);
    assert!(p.push_block(make_block(0, 1, vec![]), None));
    let mut pending = make_block(0, 0, vec![]);
    pending.hash = None;
    pending.number = None;
    assert!(p.set_pending(pending));
    let client = BulkClient::new(p);
    let b = client.block_by_number(BlockReference::Pending).unwrap().unwrap();
    assert!(b.hash.is_none());
    assert!(b.number.is_none());
    assert!(b.total_difficulty.is_none());
}

#[test]
fn empty_chain_has_no_latest() {
    let p = MemoryProvider::new(1000);
    let client = BulkClient::new(p);
    assert!(matches!(client.block_by_number(BlockReference::Latest), Ok(None)));
    assert!(matches!(client.block_by_number(BlockReference::Earliest), Ok(None)));
}

#[test]
fn push_block_rejects_wrong_number() {
    let mut p = MemoryProvider::new(1000);
    assert!(!p.push_block(make_block(5, 1, vec![]), None));
    assert!(p.push_block(make_block(0, 1, vec![]), None));
}

#[test]
fn push_receipt_rejects_malformed() {
    let mut p = MemoryProvider::new(1000);
    let mut r = receipt_for(1, 0);
    r.transaction_hash = Hash256 { bytes: vec![0; 31] };
    assert!(!p.push_receipt(r));
}

#[test]
fn traces_attach_to_their_transaction() {
    let mut p = MemoryProvider::new(1000);
    assert!(p.push_block(make_block(0, 7, vec![make_tx(41)]), None));
    assert!(p.push_receipt(receipt_for(41, 0)));
    p.add_traces(
        h256(41),
        vec![Trace { trace_address: vec![0, 1], output: Bytes::new(vec![0xaa]) }],
    );
    let client = BulkClient::new(p);
    let b = client.block_by_number(BlockReference::Number(0)).unwrap().unwrap();
    assert_eq!(b.transactions[0].traces.len(), 1);
    assert_eq!(b.transactions[0].traces[0].trace_address, vec![0, 1]);
    assert_eq!(b.transactions[0].traces[0].output.bytes, vec![0xaa]);
}
