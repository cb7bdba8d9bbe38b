use riacoin_node::chain::{payload, Block, Blockchain, Transaction};
use riacoin_node::encoding::{hash_hex, push_decimal, push_decimal_signed};
use riacoin_node::gossip::{deliver, topic_name, topic_of, NetworkMessage, Topic};
use riacoin_node::vm::SmartContractCall;
use riacoin_node::wallet::Wallet;
use sha2::Digest;

fn sha_hex(s: &str) -> String {
    hex::encode(sha2::Sha256::digest(s.as_bytes()))
}

fn wallet(n: u8) -> Wallet {
    Wallet::from_bytes([n; 32])
}

fn credit_block(ledger: &Blockchain, who: &str, amount: u64) -> Block {
    let cb = Transaction::new_coinbase_at(who.to_string(), amount, 1);
    let tip = ledger.chain.last().unwrap();
    Block::new_at(tip.index + 1, vec![cb], tip.hash.clone(), "tester".to_string(), 1)
}

#[test]
fn decimal_text() {
    let mut s = String::new();
    push_decimal(&mut s, 0);
    push_decimal(&mut s, 1234567890);
    push_decimal(&mut s, u64::MAX);
    assert_eq!(s, "0123456789018446744073709551615");
    let mut t = String::new();
    push_decimal_signed(&mut t, -42);
    push_decimal_signed(&mut t, i64::MIN);
    push_decimal_signed(&mut t, 7);
    assert_eq!(t, "-42-92233720368547758087");
}

#[test]
fn content_hash_is_sha256_hex() {
    assert_eq!(
        hash_hex(&"abc".to_string()),
        "ba7816bf8f01cfea414140de5dae2223b00361a396177a9cb410ff61f20015ad"
    );
}

#[test]
fn payload_layout() {
    let a = "a".to_string();
    let b = "b".to_string();
    assert_eq!(payload(&a, &b, 10, 1, 5, &None), "ab1015");
    let call = SmartContractCall {
        contract: "c".to_string(),
        function: "f".to_string(),
        args: vec!["x".to_string(), "y".to_string()],
    };
    assert_eq!(
        payload(&a, &b, 0, 1, -3, &Some(call)),
        "ab01-3SmartContractCall { contract: \"c\", function: \"f\", args: [\"x\", \"y\"] }"
    );
    let empty = SmartContractCall { contract: "c".to_string(), function: "f".to_string(), args: vec![] };
    assert_eq!(
        payload(&a, &b, 0, 0, 0, &Some(empty)),
        "ab000SmartContractCall { contract: \"c\", function: \"f\", args: [] }"
    );
}

#[test]
fn coinbase_fields_and_id() {
    let cb = Transaction::new_coinbase_at("v".to_string(), 11, 100);
    assert_eq!(cb.sender, "NETWORK_MINT");
    assert_eq!(cb.signature, "COINBASE");
    assert_eq!(cb.fee, 0);
    assert_eq!(cb.id, sha_hex("NETWORK_MINTv110100"));
    assert!(cb.is_valid());
    let now = Transaction::new_coinbase("v".to_string(), 11);
    assert_eq!(now.id, sha_hex(&format!("NETWORK_MINTv110{}", now.timestamp)));
}

#[test]
fn signed_transfer_id_and_validity() {
    let w = wallet(3);
    let tx = Transaction::new_at(&w, "bob".to_string(), 10, 1, None, 77);
    let text = format!("{}bob10177", w.get_address());
    assert_eq!(tx.id, sha_hex(&text));
    assert_eq!(tx.signature, w.sign(text.as_bytes()));
    assert!(tx.is_valid());
    let mut forged = tx.clone();
    forged.amount = 11;
    assert!(!forged.is_valid());
    let mut stolen = tx.clone();
    stolen.sender = wallet(4).get_address();
    assert!(!stolen.is_valid());
}

#[test]
fn merkle_root_shapes() {
    let a = Transaction::new_coinbase_at("a".to_string(), 1, 1);
    let b = Transaction::new_coinbase_at("b".to_string(), 2, 1);
    assert_eq!(Block::calculate_merkle_root(&[]), "0");
    assert_eq!(Block::calculate_merkle_root(&[a.clone()]), sha_hex(&format!("{}{}", a.id, a.id)));
    let h = sha_hex(&format!("{}{}", a.id, b.id));
    let ab = Block::calculate_merkle_root(&[a.clone(), b.clone()]);
    assert_eq!(ab, sha_hex(&format!("{}{}", h, h)));
    let ba = Block::calculate_merkle_root(&[b.clone(), a.clone()]);
    assert_ne!(ab, ba);
    assert_eq!(
        Block::calculate_merkle_root(&[a.clone(), a.clone()]),
        Block::calculate_merkle_root(&[a.clone(), a.clone()])
    );
}

#[test]
fn merkle_root_of_three() {
    let a = Transaction::new_coinbase_at("a".to_string(), 1, 1);
    let b = Transaction::new_coinbase_at("b".to_string(), 2, 1);
    let c = Transaction::new_coinbase_at("c".to_string(), 3, 1);
    let hab = sha_hex(&format!("{}{}", a.id, b.id));
    let hcc = sha_hex(&format!("{}{}", c.id, c.id));
    let top = sha_hex(&format!("{}{}", hab, hcc));
    assert_eq!(Block::calculate_merkle_root(&[a, b, c]), sha_hex(&format!("{}{}", top, top)));
}

#[test]
fn block_hash_over_header() {
    let a = Transaction::new_coinbase_at("a".to_string(), 1, 1);
    let block = Block::new_at(3, vec![a.clone()], "prev".to_string(), "val".to_string(), -9);
    assert_eq!(block.merkle_root, sha_hex(&format!("{}{}", a.id, a.id)));
    assert_eq!(block.hash, sha_hex(&format!("3-9{}prevval", block.merkle_root)));
    let copy = block.copy();
    assert_eq!(copy.hash, block.hash);
    assert_eq!(copy.transactions.len(), 1);
}

#[test]
fn genesis_state() {
    let ledger = Blockchain::new_at(5);
    assert_eq!(ledger.chain.len(), 1);
    assert_eq!(ledger.chain[0].index, 0);
    assert_eq!(ledger.chain[0].previous_hash, "0");
    assert_eq!(ledger.chain[0].validator, "GENESIS");
    assert_eq!(ledger.get_balance("GENESIS_WALLET"), 1_000_000);
    assert_eq!(ledger.get_balance("nobody"), 0);
    assert!(ledger.pending_transactions.is_empty());
}

#[test]
fn admission_threshold() {
    let w = wallet(9);
    let mut ledger = Blockchain::new_at(0);
    let block = credit_block(&ledger, &w.get_address(), 11);
    ledger.add_block(block);
    let exact = Transaction::new_at(&w, "bob".to_string(), 10, 1, None, 1);
    assert!(ledger.add_transaction(exact));
    let mut short = Blockchain::new_at(0);
    let block = credit_block(&short, &w.get_address(), 10);
    short.add_block(block);
    let tx = Transaction::new_at(&w, "bob".to_string(), 10, 1, None, 1);
    assert!(!short.add_transaction(tx));
    assert!(short.pending_transactions.is_empty());
}

#[test]
fn admission_ignores_pending_spends() {
    let w = wallet(10);
    let mut ledger = Blockchain::new_at(0);
    let block = credit_block(&ledger, &w.get_address(), 11);
    ledger.add_block(block);
    assert!(ledger.add_transaction(Transaction::new_at(&w, "bob".to_string(), 10, 1, None, 1)));
    assert!(ledger.add_transaction(Transaction::new_at(&w, "carol".to_string(), 10, 1, None, 2)));
    assert_eq!(ledger.pending_transactions.len(), 2);
    ledger.mine_block_at("v".to_string(), 3).unwrap();
    assert_eq!(ledger.get_balance(&w.get_address()), -11);
}

#[test]
fn bad_signature_and_coinbase_admission() {
    let w = wallet(11);
    let mut ledger = Blockchain::new_at(0);
    let mut tx = Transaction::new_at(&w, "bob".to_string(), 0, 0, None, 1);
    tx.signature = "00".repeat(64);
    assert!(!ledger.add_transaction(tx));
    assert!(ledger.add_transaction(Transaction::new_coinbase_at("bob".to_string(), 5, 1)));
    assert_eq!(ledger.pending_transactions.len(), 1);
}

#[test]
fn end_to_end_transfer() {
    let w = wallet(1);
    let mut ledger = Blockchain::new_at(0);
    assert_eq!(ledger.get_balance("GENESIS_WALLET"), 1_000_000);
    let tx = Transaction::new_at(&w, w.get_address(), 10, 1, None, 1);
    assert!(!ledger.add_transaction(tx.clone()));
    let block = credit_block(&ledger, &w.get_address(), 100);
    ledger.add_block(block);
    assert_eq!(ledger.get_balance(&w.get_address()), 100);
    assert!(ledger.add_transaction(tx.clone()));
    let mined = ledger.mine_block_at("validator".to_string(), 2).unwrap();
    assert_eq!(mined.transactions.len(), 2);
    assert_eq!(mined.transactions[0].id, tx.id);
    let reward = &mined.transactions[1];
    assert_eq!(reward.sender, "NETWORK_MINT");
    assert_eq!(reward.recipient, "validator");
    assert_eq!(reward.amount, 11);
    assert_eq!(mined.index, 2);
    assert_eq!(mined.previous_hash, ledger.chain[1].hash);
    assert_eq!(ledger.chain.len(), 3);
    assert!(ledger.pending_transactions.is_empty());
    // W is both sender and recipient: it pays 10 + 1 and gets the 10 back.
    assert_eq!(ledger.get_balance(&w.get_address()), 99);
    assert_eq!(ledger.get_balance("validator"), 11);
}

#[test]
fn end_to_end_transfer_to_another() {
    let w = wallet(2);
    let mut ledger = Blockchain::new_at(0);
    let tx = Transaction::new_at(&w, "bob".to_string(), 10, 1, None, 1);
    assert!(!ledger.add_transaction(tx.clone()));
    let block = credit_block(&ledger, &w.get_address(), 100);
    ledger.add_block(block);
    assert!(ledger.add_transaction(tx.clone()));
    let mined = ledger.mine_block_at("validator".to_string(), 2).unwrap();
    assert_eq!(mined.transactions.len(), 2);
    assert_eq!(mined.transactions[0].id, tx.id);
    assert_eq!(mined.transactions[1].amount, 11);
    assert_eq!(ledger.get_balance(&w.get_address()), 89);
    assert_eq!(ledger.get_balance("bob"), 10);
    assert_eq!(ledger.get_balance("validator"), 11);
}

#[test]
fn mining_an_empty_pool_does_nothing() {
    let mut ledger = Blockchain::new_at(0);
    assert!(ledger.mine_block_at("v".to_string(), 1).is_none());
    assert!(ledger.mine_block("v".to_string()).is_none());
    assert_eq!(ledger.chain.len(), 1);
    assert_eq!(ledger.get_balance("v"), 0);
}

#[test]
fn reward_sums_fees_and_saturates() {
    let w = wallet(12);
    let mut ledger = Blockchain::new_at(0);
    let block = credit_block(&ledger, &w.get_address(), u64::MAX);
    ledger.add_block(block);
    assert!(ledger.add_transaction(Transaction::new_at(&w, "a".to_string(), 0, 3, None, 1)));
    assert!(ledger.add_transaction(Transaction::new_at(&w, "b".to_string(), 0, 4, None, 2)));
    let mined = ledger.mine_block_at("v".to_string(), 3).unwrap();
    assert_eq!(mined.transactions[2].amount, 17);
    assert!(ledger.add_transaction(Transaction::new_at(&w, "a".to_string(), 0, u64::MAX - 100, None, 4)));
    assert!(ledger.add_transaction(Transaction::new_coinbase_at("x".to_string(), 0, 5)));
    let mut big = Transaction::new_coinbase_at("y".to_string(), 0, 6);
    big.fee = 200;
    ledger.pending_transactions.push(big);
    let mined = ledger.mine_block_at("v".to_string(), 7).unwrap();
    assert_eq!(mined.transactions.last().unwrap().amount, u64::MAX);
}

#[test]
fn applying_a_block_twice_doubles_its_effects() {
    let w = wallet(13);
    let mut ledger = Blockchain::new_at(0);
    let block = credit_block(&ledger, &w.get_address(), 100);
    ledger.add_block(block);
    let tx = Transaction::new_at(&w, "bob".to_string(), 10, 1, None, 1);
    let tip = ledger.chain.last().unwrap();
    let block = Block::new_at(tip.index + 1, vec![tx], tip.hash.clone(), "v".to_string(), 2);
    ledger.add_block(block.copy());
    ledger.add_block(block.copy());
    assert_eq!(ledger.get_balance(&w.get_address()), 78);
    assert_eq!(ledger.get_balance("bob"), 20);
    assert_eq!(ledger.chain.len(), 4);
}

#[test]
fn contract_call_runs_when_applied() {
    let w = wallet(14);
    let mut ledger = Blockchain::new_at(0);
    let block = credit_block(&ledger, &w.get_address(), 10);
    ledger.add_block(block);
    let call = SmartContractCall {
        contract: "nft_registry".to_string(),
        function: "mint".to_string(),
        args: vec!["Monkey_#88".to_string(), w.get_address()],
    };
    let tx = Transaction::new_at(&w, w.get_address(), 0, 1, Some(call.clone()), 1);
    assert!(ledger.add_transaction(tx));
    ledger.mine_block_at("v".to_string(), 2).unwrap();
    assert_eq!(ledger.vm.state.get("nft:Monkey_#88:owner"), Some(&w.get_address()));
    let again = Transaction::new_at(&w, w.get_address(), 0, 1, Some(call), 3);
    assert!(ledger.add_transaction(again));
    ledger.mine_block_at("v".to_string(), 4).unwrap();
    assert_eq!(ledger.get_balance(&w.get_address()), 8);
}

#[test]
fn gossip_topics_and_delivery() {
    assert_eq!(topic_name(Topic::Blocks), "blocks");
    assert_eq!(topic_name(Topic::Transactions), "transactions");
    let mut ledger = Blockchain::new_at(0);
    let cb = Transaction::new_coinbase_at("x".to_string(), 5, 1);
    let msg = NetworkMessage::Transaction(cb);
    assert_eq!(topic_of(&msg), Topic::Transactions);
    assert!(deliver(&mut ledger, msg));
    assert_eq!(ledger.pending_transactions.len(), 1);
    let block = credit_block(&ledger, "y", 7);
    let msg = NetworkMessage::Block(block);
    assert_eq!(topic_of(&msg), Topic::Blocks);
    assert!(deliver(&mut ledger, msg));
    assert_eq!(ledger.get_balance("y"), 7);
    let w = wallet(15);
    let tx = Transaction::new_at(&w, "z".to_string(), 1, 0, None, 1);
    assert!(!deliver(&mut ledger, NetworkMessage::Transaction(tx)));
}
