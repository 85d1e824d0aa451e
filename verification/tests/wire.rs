use bulk_rpc::assemble::BulkClient;
use bulk_rpc::chain::{
    BlockReference, ChainAction, ChainBlock, ChainTransaction, Receipt,
};
use bulk_rpc::json::{render_block, render_response};
use bulk_rpc::provider::MemoryProvider;
use bulk_rpc::types::{Address, Bloom, Bytes, Hash256, U256};
use tiny_keccak::Hasher;

fn h256(tag: u8) -> Hash256 {
    Hash256::new(vec![tag; 32]).unwrap()
}

fn addr(tag: u8) -> Address {
    Address::new(vec![tag; 20]).unwrap()
}

fn u256v(v: u64) -> U256 {
    let mut b = vec![0u8; 32];
    b[24..].copy_from_slice(&v.to_be_bytes());
    U256::new(b).unwrap()
}

fn make_tx(tag: u8, action: ChainAction) -> ChainTransaction {
    ChainTransaction {
        hash: h256(tag),
        nonce: u256v(0),
        sender: addr(9),
        action,
        value: u256v(1),
        gas_price: u256v(2),
        gas: u256v(3),
        input: Bytes::new(vec![]),
    }
}

fn make_block(number: u64, tag: u8, txs: Vec<ChainTransaction>) -> ChainBlock {
    ChainBlock {
        hash: Some(h256(tag)),
        number: Some(number),
        parent_hash: h256(0),
        uncles_hash: h256(1),
        author: addr(2),
        state_root: h256(3),
        transactions_root: h256(4),
        receipts_root: h256(5),
        gas_used: u256v(100),
        gas_limit: u256v(200),
        extra_data: Bytes::new(vec![]),
        logs_bloom: Bloom::new(vec![0; 256]).unwrap(),
        timestamp: 1234,
        difficulty: u256v(42),
        seal_fields: vec![],
        uncle_hashes: vec![],
        transactions: txs,
        size: 500,
    }
}

fn receipt_for(tx_tag: u8, index: u64) -> Receipt {
    Receipt {
        transaction_hash: h256(tx_tag),
        transaction_index: index,
        cumulative_gas_used: u256v(10),
        gas_used: u256v(5),
        contract_address: None,
    }
}

fn hexstr(bytes: &[u8]) -> String {
    bytes.iter().map(|b| format!("{:02x}", b)).collect()
}

fn keccak(data: &[u8]) -> Vec<u8> {
    let mut k = tiny_keccak::Keccak::v256();
    k.update(data);
    let mut out = [0u8; 32];
    k.finalize(&mut out);
    out.to_vec()
}

#[test]
fn genesis_renders_byte_exact() {
    let mut p = MemoryProvider::new(1000);
    assert!(p.push_block(make_block(0, 7, vec![]), Some(u256v(1000))));
    let client = BulkClient::new(p);
    let r = client.block_by_number(BlockReference::Number(0)).unwrap();
    let out = render_response(&r);
    let expected = format!(
        "{{\"hash\":\"0x{}\",\"parentHash\":\"0x{}\",\"sha3Uncles\":\"0x{}\",\"author\":\"0x{}\",\
         \"miner\":\"0x{}\",\"stateRoot\":\"0x{}\",\"transactionsRoot\":\"0x{}\",\
         \"receiptsRoot\":\"0x{}\",\"number\":\"0x0\",\"gasUsed\":\"0x64\",\"gasLimit\":\"0xc8\",\
         \"extraData\":\"0x\",\"logsBloom\":\"0x{}\",\"timestamp\":\"0x4d2\",\
         \"difficulty\":\"0x2a\",\"totalDifficulty\":\"0x3e8\",\"sealFields\":[],\"uncles\":[],\
         \"transactions\":[],\"size\":\"0x1f4\"}}",
        hexstr(&[7; 32]),
        hexstr(&[0; 32]),
        hexstr(&[1; 32]),
        hexstr(&[2; 20]),
        hexstr(&[2; 20]),
        hexstr(&[3; 32]),
        hexstr(&[4; 32]),
        hexstr(&[5; 32]),
        hexstr(&[0; 256]),
    );
    assert_eq!(String::from_utf8(out).unwrap(), expected);
}

#[test]
fn absent_block_renders_protocol_null() {
    let mut p = MemoryProvider::new(1000);
    assert!(p.push_block(make_block(0, 7, vec![]), None));
    let client = BulkClient::new(p);
    let r = client.block_by_number(BlockReference::Number(50)).unwrap();
    assert_eq!(render_response(&r), b"null".to_vec());
}

#[test]
fn same_request_twice_is_byte_identical() {
    let mut p = MemoryProvider::new(1000);
    let txs = vec![make_tx(11, ChainAction::Call(addr(7)))];
    assert!(p.push_block(make_block(0, 7, txs), Some(u256v(9))));
    assert!(p.push_receipt(receipt_for(11, 0)));
    let client = BulkClient::new(p);
    let r1 = client.block_by_number(BlockReference::Number(0)).unwrap();
    let r2 = client.block_by_number(BlockReference::Number(0)).unwrap();
    assert_eq!(render_response(&r1), render_response(&r2));
}

#[test]
fn missing_difficulty_renders_null_field() {
    let mut p = MemoryProvider::new(1000);
    assert!(p.push_block(make_block(0, 7, vec![]), None));
    let client = BulkClient::new(p);
    let r = client.block_by_number(BlockReference::Number(0)).unwrap();
    let text = String::from_utf8(render_response(&r)).unwrap();
    assert!(text.contains("\"totalDifficulty\":null"));
    assert!(text.contains("\"hash\":\"0x"));
}

#[test]
fn call_transaction_renders_to_and_no_creates() {
    let mut p = MemoryProvider::new(1000);
    let txs = vec![make_tx(11, ChainAction::Call(addr(7)))];
    assert!(p.push_block(make_block(0, 7, txs), Some(u256v(9))));
    assert!(p.push_receipt(receipt_for(11, 0)));
    let client = BulkClient::new(p);
    let r = client.block_by_number(BlockReference::Number(0)).unwrap();
    let text = String::from_utf8(render_response(&r)).unwrap();
    let to = format!("\"to\":\"0x{}\"", hexstr(&[7; 20]));
    assert!(text.contains(&to));
    assert!(text.contains("\"creates\":null"));
    assert!(text.contains(&format!("\"from\":\"0x{}\"", hexstr(&[9; 20]))));
}

#[test]
fn post_transition_create_address_derives_from_code() {
    // block height 5 with transition height 3: the post-transition scheme.
    let mut p = MemoryProvider::new(3);
    for i in 0..5u64 {
        assert!(p.push_block(make_block(i, i as u8 + 100, vec![]), None));
    }
    let txs = vec![make_tx(11, ChainAction::Create)];
    assert!(p.push_block(make_block(5, 7, txs), Some(u256v(9))));
    assert!(p.push_receipt(receipt_for(11, 0)));
    let client = BulkClient::new(p);
    let r = client.block_by_number(BlockReference::Number(5)).unwrap();
    let b = r.as_ref().unwrap();
    // the transaction's input is empty, so the address is the tail of the
    // digest of the empty byte string
    let digest = keccak(&[]);
    assert_eq!(
        hexstr(&digest),
        "c5d2460186f7233c927e7db2dcc703c0e500b653ca82273b7bfad8045d85a470"
    );
    let expected = &digest[12..];
    assert_eq!(b.transactions[0].transaction.creates.as_ref().unwrap().bytes, expected.to_vec());
    let text = String::from_utf8(render_response(&r)).unwrap();
    assert!(text.contains(&format!("\"creates\":\"0x{}\"", hexstr(expected))));
    assert!(text.contains("\"to\":null"));
}

#[test]
fn pre_transition_create_address_derives_from_sender_and_nonce() {
    // block height 0 with transition height 1000: the legacy scheme.
    let mut p = MemoryProvider::new(1000);
    let txs = vec![make_tx(11, ChainAction::Create)];
    assert!(p.push_block(make_block(0, 7, txs), Some(u256v(9))));
    assert!(p.push_receipt(receipt_for(11, 0)));
    let client = BulkClient::new(p);
    let b = client.block_by_number(BlockReference::Number(0)).unwrap().unwrap();
    // RLP list of the 20-byte sender and the empty minimal nonce:
    // 0xc0+22, 0x80+20, sender bytes, 0x80
    let mut rlp: Vec<u8> = vec![0xd6, 0x94];
    rlp.extend_from_slice(&[9; 20]);
    rlp.push(0x80);
    let digest = keccak(&rlp);
    let expected = &digest[12..];
    assert_eq!(b.transactions[0].transaction.creates.as_ref().unwrap().bytes, expected.to_vec());
}

#[test]
fn trace_renders_address_and_output() {
    let mut p = MemoryProvider::new(1000);
    let txs = vec![make_tx(11, ChainAction::Call(addr(7)))];
    assert!(p.push_block(make_block(0, 7, txs), Some(u256v(9))));
    assert!(p.push_receipt(receipt_for(11, 0)));
    p.add_traces(
        h256(11),
        vec![
            bulk_rpc::chain::Trace { trace_address: vec![], output: Bytes::new(vec![]) },
            bulk_rpc::chain::Trace { trace_address: vec![0, 26], output: Bytes::new(vec![0xab]) },
        ],
    );
    let client = BulkClient::new(p);
    let r = client.block_by_number(BlockReference::Number(0)).unwrap();
    let text = String::from_utf8(render_response(&r)).unwrap();
    assert!(text.contains(
        "\"traces\":[{\"traceAddress\":[],\"output\":\"0x\"},\
         {\"traceAddress\":[\"0x0\",\"0x1a\"],\"output\":\"0xab\"}]"
    ));
}

#[test]
fn receipt_renders_all_fields() {
    let mut p = MemoryProvider::new(1000);
    let txs = vec![make_tx(11, ChainAction::Call(addr(7)))];
    assert!(p.push_block(make_block(0, 7, txs), Some(u256v(9))));
    let mut rc = receipt_for(11, 0);
    rc.contract_address = Some(addr(8));
    assert!(p.push_receipt(rc));
    let client = BulkClient::new(p);
    let r = client.block_by_number(BlockReference::Number(0)).unwrap();
    let text = String::from_utf8(render_response(&r)).unwrap();
    let expected = format!(
        "\"receipt\":{{\"transactionHash\":\"0x{}\",\"transactionIndex\":\"0x0\",\
         \"cumulativeGasUsed\":\"0xa\",\"gasUsed\":\"0x5\",\"contractAddress\":\"0x{}\"}}",
        hexstr(&[11; 32]),
        hexstr(&[8; 20]),
    );
    assert!(text.contains(&expected));
}

#[test]
fn render_block_direct_matches_response() {
    let mut p = MemoryProvider::new(1000);
    assert!(p.push_block(make_block(0, 7, vec![]), Some(u256v(1))));
    let client = BulkClient::new(p);
    let r = client.block_by_number(BlockReference::Number(0)).unwrap();
    let b = r.as_ref().unwrap();
    assert_eq!(render_block(b), render_response(&r));
}

#[test]
fn large_difficulty_renders_full_quantity() {
    let mut p = MemoryProvider::new(1000);
    let mut b = make_block(0, 7, vec![]);
    let mut big = vec![0u8; 32];
    big[0] = 0x01;
    b.difficulty = U256::new(big).unwrap();
    assert!(p.push_block(b, None));
    let client = BulkClient::new(p);
    let r = client.block_by_number(BlockReference::Number(0)).unwrap();
    let text = String::from_utf8(render_response(&r)).unwrap();
    let expected = format!("\"difficulty\":\"0x1{}\"", "0".repeat(62));
    assert!(text.contains(&expected));
}

#[test]
fn seal_fields_and_uncles_render_in_order() {
    let mut p = MemoryProvider::new(1000);
    let mut b = make_block(0, 7, vec![]);
    b.seal_fields = vec![Bytes::new(vec![0xde, 0xad])];
    b.uncle_hashes = vec![h256(51), h256(52)];
    assert!(p.push_block(b, None));
    let client = BulkClient::new(p);
    let r = client.block_by_number(BlockReference::Number(0)).unwrap();
    let text = String::from_utf8(render_response(&r)).unwrap();
    assert!(text.contains("\"sealFields\":[\"0xdead\"]"));
    let uncles = format!(
        "\"uncles\":[\"0x{}\",\"0x{}\"]",
        hexstr(&[51; 32]),
        hexstr(&[52; 32])
    );
    assert!(text.contains(&uncles));
}
