//! Transactions, blocks and the ledger that applies them.
use crate::encoding::{content_hash, dec, dec_signed, hash_hex, push_decimal, push_decimal_signed};
use crate::store::StrMap;
use crate::vm::{execute_spec, CallView, SmartContractCall, VirtualMachine};
use crate::wallet::{address_of, hex_signature_of, lemma_seed_signature_verifies, verify_spec, Wallet};
use vstd::prelude::*;
use vstd::utf8::encode_utf8;

verus! {

/// The sender of reward transactions, which carry no real signature.
pub open spec fn mint_sender() -> Seq<char> {
    "NETWORK_MINT"@
}

/// The signature text of reward transactions.
pub open spec fn coinbase_signature() -> Seq<char> {
    "COINBASE"@
}

/// Relies on chrono::Utc::now: the current time in seconds since the Unix
/// epoch, of which nothing is known.
#[verifier::external_body]
fn now_timestamp() -> (r: i64) {
    chrono::Utc::now().timestamp()
}

/// A transfer of `amount` (in minor units) from `sender` to `recipient`,
/// paying `fee`, and optionally calling a contract.
#[derive(Debug, Clone)]
pub struct Transaction {
    pub id: String,
    pub sender: String,
    pub recipient: String,
    pub amount: u64,
    pub fee: u64,
    pub timestamp: i64,
    pub signature: String,
    pub smart_call: Option<SmartContractCall>,
}

/// A transaction as plain values.
pub struct TxView {
    pub id: Seq<char>,
    pub sender: Seq<char>,
    pub recipient: Seq<char>,
    pub amount: u64,
    pub fee: u64,
    pub timestamp: i64,
    pub signature: Seq<char>,
    pub smart_call: Option<CallView>,
}

impl View for Transaction {
    type V = TxView;

    open spec fn view(&self) -> TxView {
        TxView {
            id: self.id@,
            sender: self.sender@,
            recipient: self.recipient@,
            amount: self.amount,
            fee: self.fee,
            timestamp: self.timestamp,
            signature: self.signature@,
            smart_call: match self.smart_call {
                Some(c) => Some(c@),
                None => None,
            },
        }
    }
}

/// A text between double quotes.
pub open spec fn quoted(s: Seq<char>) -> Seq<char> {
    "\""@ + s + "\""@
}

/// The arguments of a call, each quoted, separated by a comma and a space.
pub open spec fn args_text(args: Seq<Seq<char>>) -> Seq<char>
    decreases args.len(),
{
    if args.len() == 0 {
        Seq::empty()
    } else if args.len() == 1 {
        quoted(args[0])
    } else {
        args_text(args.drop_last()) + ", "@ + quoted(args.last())
    }
}

/// The text of a contract call within a payload.
pub open spec fn call_text(c: CallView) -> Seq<char> {
    "SmartContractCall { contract: "@ + quoted(c.contract) + ", function: "@ + quoted(c.function)
        + ", args: ["@ + args_text(c.args) + "] }"@
}

/// The call part of a payload: empty without a call.
pub open spec fn call_part(c: Option<CallView>) -> Seq<char> {
    match c {
        Some(c) => call_text(c),
        None => Seq::empty(),
    }
}

/// The canonical payload of a transaction, which its id hashes and its
/// signature signs.
pub open spec fn payload_text(
    sender: Seq<char>,
    recipient: Seq<char>,
    amount: u64,
    fee: u64,
    timestamp: i64,
    call: Option<CallView>,
) -> Seq<char> {
    sender + recipient + dec(amount as nat) + dec(fee as nat) + dec_signed(timestamp as int) + call_part(call)
}

/// The payload of a transaction as it stands.
pub open spec fn tx_payload(t: TxView) -> Seq<char> {
    payload_text(t.sender, t.recipient, t.amount, t.fee, t.timestamp, t.smart_call)
}

/// A signed transfer from the identity with seed `seed`.
pub open spec fn is_signed_transfer(
    t: TxView,
    seed: Seq<u8>,
    recipient: Seq<char>,
    amount: u64,
    fee: u64,
    timestamp: i64,
    call: Option<CallView>,
) -> bool {
    &&& t.sender == address_of(seed)
    &&& t.recipient == recipient
    &&& t.amount == amount
    &&& t.fee == fee
    &&& t.timestamp == timestamp
    &&& t.smart_call == call
    &&& t.id == content_hash(tx_payload(t))
    &&& t.signature == hex_signature_of(seed, encode_utf8(tx_payload(t)))
}

/// A reward transaction minting `amount` for `recipient`.
pub open spec fn is_coinbase(t: TxView, recipient: Seq<char>, amount: u64, timestamp: i64) -> bool {
    &&& t.sender == mint_sender()
    &&& t.recipient == recipient
    &&& t.amount == amount
    &&& t.fee == 0
    &&& t.timestamp == timestamp
    &&& t.smart_call.is_none()
    &&& t.signature == coinbase_signature()
    &&& t.id == content_hash(tx_payload(t))
}

/// A transaction is valid when it is a reward, or its signature verifies
/// against its sender over its payload.
pub open spec fn tx_valid(t: TxView) -> bool {
    t.sender == mint_sender() || verify_spec(
        encode_utf8(t.sender),
        encode_utf8(tx_payload(t)),
        encode_utf8(t.signature),
    )
}

fn copy_strings(v: &Vec<String>) -> (r: Vec<String>)
    ensures
        r@.map_values(|a: String| a@) == v@.map_values(|a: String| a@),
{
    let mut r: Vec<String> = Vec::new();
    let mut i: usize = 0;
    while i < v.len()
        invariant
            i <= v@.len(),
            r@.len() == i,
            forall|j: int| 0 <= j < i ==> (#[trigger] r@[j])@ == v@[j]@,
        decreases v@.len() - i,
    {
        r.push(v[i].clone());
        i = i + 1;
    }
    assert(r@.map_values(|a: String| a@) =~= v@.map_values(|a: String| a@));
    r
}

/// A copy of a call.
pub fn copy_call(c: &SmartContractCall) -> (r: SmartContractCall)
    ensures
        r@ == c@,
{
    SmartContractCall { contract: c.contract.clone(), function: c.function.clone(), args: copy_strings(&c.args) }
}

fn push_call_text(s: &mut String, c: &SmartContractCall)
    ensures
        final(s)@ == old(s)@ + call_text(c@),
{
    s.append("SmartContractCall { contract: ");
    s.append("\"");
    s.append(c.contract.as_str());
    s.append("\"");
    s.append(", function: ");
    s.append("\"");
    s.append(c.function.as_str());
    s.append("\"");
    s.append(", args: [");
    let ghost start = s@;
    let ghost args = c@.args;
    let mut i: usize = 0;
    while i < c.args.len()
        invariant
            i <= c.args@.len(),
            args == c@.args,
            s@ == start + args_text(args.subrange(0, i as int)),
        decreases c.args@.len() - i,
    {
        if i > 0 {
            s.append(", ");
        }
        s.append("\"");
        s.append(c.args[i].as_str());
        s.append("\"");
        proof {
            let next = args.subrange(0, i + 1);
            assert(next.drop_last() =~= args.subrange(0, i as int));
            assert(args[i as int] == c.args@[i as int]@);
            if i == 0 {
                assert(args.subrange(0, 0) =~= Seq::<Seq<char>>::empty());
            }
        }
        i = i + 1;
        assert(s@ =~= start + args_text(args.subrange(0, i as int)));
    }
    assert(args.subrange(0, c.args@.len() as int) =~= args);
    s.append("] }");
    assert(s@ =~= old(s)@ + call_text(c@));
}

/// Builds the canonical payload of a transaction.
pub fn payload(
    sender: &String,
    recipient: &String,
    amount: u64,
    fee: u64,
    timestamp: i64,
    call: &Option<SmartContractCall>,
) -> (r: String)
    ensures
        r@ == payload_text(
            sender@,
            recipient@,
            amount,
            fee,
            timestamp,
            match call {
                Some(c) => Some(c@),
                None => None,
            },
        ),
{
    let mut s = sender.clone();
    s.append(recipient.as_str());
    push_decimal(&mut s, amount);
    push_decimal(&mut s, fee);
    push_decimal_signed(&mut s, timestamp);
    match call {
        Some(c) => push_call_text(&mut s, c),
        None => {},
    }
    assert(s@ =~= payload_text(
        sender@,
        recipient@,
        amount,
        fee,
        timestamp,
        match call {
            Some(c) => Some(c@),
            None => None,
        },
    ));
    s
}

impl Transaction {
    /// A copy of the transaction.
    pub fn copy(&self) -> (r: Transaction)
        ensures
            r@ == self@,
    {
        Transaction {
            id: self.id.clone(),
            sender: self.sender.clone(),
            recipient: self.recipient.clone(),
            amount: self.amount,
            fee: self.fee,
            timestamp: self.timestamp,
            signature: self.signature.clone(),
            smart_call: match &self.smart_call {
                Some(c) => Some(copy_call(c)),
                None => None,
            },
        }
    }

    /// A transfer signed by `wallet`, stamped with the given time.
    pub fn new_at(
        wallet: &Wallet,
        recipient: String,
        amount: u64,
        fee: u64,
        smart_call: Option<SmartContractCall>,
        timestamp: i64,
    ) -> (r: Transaction)
        ensures
            is_signed_transfer(
                r@,
                wallet.key_pair_bytes@,
                recipient@,
                amount,
                fee,
                timestamp,
                match smart_call {
                    Some(c) => Some(c@),
                    None => None,
                },
            ),
    {
        let sender = wallet.get_address();
        let text = payload(&sender, &recipient, amount, fee, timestamp, &smart_call);
        let signature = wallet.sign(text.as_str().as_bytes());
        let id = hash_hex(&text);
        Transaction { id, sender, recipient, amount, fee, timestamp, signature, smart_call }
    }

    /// A transfer signed by `wallet`, stamped with the current time.
    pub fn new(
        wallet: &Wallet,
        recipient: String,
        amount: u64,
        fee: u64,
        smart_call: Option<SmartContractCall>,
    ) -> (r: Transaction)
        ensures
            is_signed_transfer(
                r@,
                wallet.key_pair_bytes@,
                recipient@,
                amount,
                fee,
                r.timestamp,
                match smart_call {
                    Some(c) => Some(c@),
                    None => None,
                },
            ),
    {
        let timestamp = now_timestamp();
        Transaction::new_at(wallet, recipient, amount, fee, smart_call, timestamp)
    }

    /// A reward transaction minting `amount` for `recipient`, stamped with the given time.
    pub fn new_coinbase_at(recipient: String, amount: u64, timestamp: i64) -> (r: Transaction)
        ensures
            is_coinbase(r@, recipient@, amount, timestamp),
    {
        let sender = String::from_str("NETWORK_MINT");
        let text = payload(&sender, &recipient, amount, 0, timestamp, &None);
        let id = hash_hex(&text);
        Transaction {
            id,
            sender,
            recipient,
            amount,
            fee: 0,
            timestamp,
            signature: String::from_str("COINBASE"),
            smart_call: None,
        }
    }

    /// A reward transaction minting `amount` for `recipient`, stamped with the current time.
    pub fn new_coinbase(recipient: String, amount: u64) -> (r: Transaction)
        ensures
            is_coinbase(r@, recipient@, amount, r.timestamp),
    {
        let timestamp = now_timestamp();
        Transaction::new_coinbase_at(recipient, amount, timestamp)
    }

    /// Checks the signature; rewards need none. Balances are not looked at.
    pub fn is_valid(&self) -> (r: bool)
        ensures
            r == tx_valid(self@),
    {
        if self.sender.eq(&String::from_str("NETWORK_MINT")) {
            return true;
        }
        let text = payload(&self.sender, &self.recipient, self.amount, self.fee, self.timestamp, &self.smart_call);
        Wallet::verify(self.sender.as_str(), text.as_str().as_bytes(), self.signature.as_str())
    }
}

/// The views of a sequence of strings.
pub open spec fn str_views(v: Seq<String>) -> Seq<Seq<char>> {
    v.map_values(|a: String| a@)
}

/// The views of a sequence of transactions.
pub open spec fn tx_views(v: Seq<Transaction>) -> Seq<TxView> {
    v.map_values(|t: Transaction| t@)
}

/// The hash of two hashes side by side.
pub open spec fn combine(a: Seq<char>, b: Seq<char>) -> Seq<char> {
    content_hash(a + b)
}

/// One level of the Merkle reduction: neighbours are combined in pairs, and
/// an odd last hash is combined with itself.
pub open spec fn merkle_level(hs: Seq<Seq<char>>) -> Seq<Seq<char>> {
    Seq::new(
        ((hs.len() + 1) / 2) as nat,
        |i: int| if 2 * i + 1 < hs.len() { combine(hs[2 * i], hs[2 * i + 1]) } else { combine(hs[2 * i], hs[2 * i]) },
    )
}

/// Reduces levels down to one hash; that lone hash forms a level of its own
/// and is combined with itself.
pub open spec fn merkle_reduce(hs: Seq<Seq<char>>) -> Seq<char>
    decreases hs.len(),
{
    if hs.len() == 0 {
        Seq::empty()
    } else if hs.len() == 1 {
        combine(hs[0], hs[0])
    } else {
        merkle_reduce(merkle_level(hs))
    }
}

/// The ids of a sequence of transactions.
pub open spec fn tx_ids(txs: Seq<TxView>) -> Seq<Seq<char>> {
    txs.map_values(|t: TxView| t.id)
}

/// The text that stands as the Merkle root of no transactions.
pub open spec fn empty_root() -> Seq<char> {
    "0"@
}

/// The Merkle root of a sequence of transactions.
pub open spec fn merkle_root_of(txs: Seq<TxView>) -> Seq<char> {
    if txs.len() == 0 {
        empty_root()
    } else {
        merkle_reduce(tx_ids(txs))
    }
}

fn combine_hashes(a: &String, b: &String) -> (r: String)
    ensures
        r@ == combine(a@, b@),
{
    let mut c = a.clone();
    c.append(b.as_str());
    hash_hex(&c)
}

fn merkle_pass(hs: &Vec<String>) -> (r: Vec<String>)
    ensures
        str_views(r@) == merkle_level(str_views(hs@)),
{
    let ghost level = merkle_level(str_views(hs@));
    let n = hs.len();
    let m = n / 2 + n % 2;
    assert(m == (n + 1) / 2);
    let mut r: Vec<String> = Vec::new();
    let mut k: usize = 0;
    while k < m
        invariant
            n == hs@.len(),
            m == (n + 1) / 2,
            k <= m,
            level == merkle_level(str_views(hs@)),
            r@.len() == k,
            forall|j: int| 0 <= j < k ==> (#[trigger] r@[j])@ == level[j],
        decreases m - k,
    {
        let h = if 2 * k + 1 < n {
            combine_hashes(&hs[2 * k], &hs[2 * k + 1])
        } else {
            combine_hashes(&hs[2 * k], &hs[2 * k])
        };
        r.push(h);
        k = k + 1;
    }
    assert(str_views(r@) =~= level);
    r
}

/// A block: transactions in order, linked to the block before by its hash.
#[derive(Debug, Clone)]
pub struct Block {
    pub index: u64,
    pub timestamp: i64,
    pub transactions: Vec<Transaction>,
    pub previous_hash: String,
    pub hash: String,
    pub validator: String,
    pub merkle_root: String,
}

/// A block as plain values.
pub struct BlockView {
    pub index: u64,
    pub timestamp: i64,
    pub transactions: Seq<TxView>,
    pub previous_hash: Seq<char>,
    pub hash: Seq<char>,
    pub validator: Seq<char>,
    pub merkle_root: Seq<char>,
}

impl View for Block {
    type V = BlockView;

    open spec fn view(&self) -> BlockView {
        BlockView {
            index: self.index,
            timestamp: self.timestamp,
            transactions: tx_views(self.transactions@),
            previous_hash: self.previous_hash@,
            hash: self.hash@,
            validator: self.validator@,
            merkle_root: self.merkle_root@,
        }
    }
}

/// The text that a block's hash is taken over.
pub open spec fn header_text(
    index: u64,
    timestamp: i64,
    merkle_root: Seq<char>,
    previous_hash: Seq<char>,
    validator: Seq<char>,
) -> Seq<char> {
    dec(index as nat) + dec_signed(timestamp as int) + merkle_root + previous_hash + validator
}

/// The block's Merkle root and hash are those of its contents.
pub open spec fn is_sealed(b: BlockView) -> bool {
    &&& b.merkle_root == merkle_root_of(b.transactions)
    &&& b.hash == content_hash(header_text(b.index, b.timestamp, b.merkle_root, b.previous_hash, b.validator))
}

fn copy_transactions(v: &Vec<Transaction>) -> (r: Vec<Transaction>)
    ensures
        tx_views(r@) == tx_views(v@),
{
    let mut r: Vec<Transaction> = Vec::new();
    let mut i: usize = 0;
    while i < v.len()
        invariant
            i <= v@.len(),
            r@.len() == i,
            forall|j: int| 0 <= j < i ==> (#[trigger] r@[j])@ == v@[j]@,
        decreases v@.len() - i,
    {
        r.push(v[i].copy());
        i = i + 1;
    }
    assert(tx_views(r@) =~= tx_views(v@));
    r
}

impl Block {
    /// A copy of the block.
    pub fn copy(&self) -> (r: Block)
        ensures
            r@ == self@,
    {
        Block {
            index: self.index,
            timestamp: self.timestamp,
            transactions: copy_transactions(&self.transactions),
            previous_hash: self.previous_hash.clone(),
            hash: self.hash.clone(),
            validator: self.validator.clone(),
            merkle_root: self.merkle_root.clone(),
        }
    }

    /// The Merkle root of a sequence of transactions.
    pub fn calculate_merkle_root(transactions: &[Transaction]) -> (r: String)
        ensures
            r@ == merkle_root_of(tx_views(transactions@)),
    {
        let ghost ids = tx_ids(tx_views(transactions@));
        let mut hashes: Vec<String> = Vec::new();
        let mut i: usize = 0;
        while i < transactions.len()
            invariant
                i <= transactions@.len(),
                ids == tx_ids(tx_views(transactions@)),
                hashes@.len() == i,
                forall|j: int| 0 <= j < i ==> (#[trigger] hashes@[j])@ == ids[j],
            decreases transactions@.len() - i,
        {
            hashes.push(transactions[i].id.clone());
            i = i + 1;
        }
        assert(str_views(hashes@) =~= ids);
        if hashes.len() == 0 {
            return String::from_str("0");
        }
        while hashes.len() > 1
            invariant
                hashes@.len() >= 1,
                merkle_reduce(str_views(hashes@)) == merkle_reduce(ids),
            decreases hashes@.len(),
        {
            let ghost before = hashes@;
            hashes = merkle_pass(&hashes);
            assert(str_views(hashes@).len() == hashes@.len());
            assert(str_views(before).len() == before.len());
        }
        combine_hashes(&hashes[0], &hashes[0])
    }

    /// A sealed block stamped with the given time.
    pub fn new_at(
        index: u64,
        transactions: Vec<Transaction>,
        previous_hash: String,
        validator: String,
        timestamp: i64,
    ) -> (r: Block)
        ensures
            r@.index == index,
            r@.timestamp == timestamp,
            r@.transactions == tx_views(transactions@),
            r@.previous_hash == previous_hash@,
            r@.validator == validator@,
            is_sealed(r@),
    {
        let merkle_root = Block::calculate_merkle_root(transactions.as_slice());
        let mut text = String::new();
        push_decimal(&mut text, index);
        push_decimal_signed(&mut text, timestamp);
        text.append(merkle_root.as_str());
        text.append(previous_hash.as_str());
        text.append(validator.as_str());
        assert(text@ =~= header_text(index, timestamp, merkle_root@, previous_hash@, validator@));
        let hash = hash_hex(&text);
        Block { index, timestamp, transactions, previous_hash, hash, validator, merkle_root }
    }

    /// A sealed block stamped with the current time.
    pub fn new(index: u64, transactions: Vec<Transaction>, previous_hash: String, validator: String) -> (r: Block)
        ensures
            r@.index == index,
            r@.transactions == tx_views(transactions@),
            r@.previous_hash == previous_hash@,
            r@.validator == validator@,
            is_sealed(r@),
    {
        let timestamp = now_timestamp();
        Block::new_at(index, transactions, previous_hash, validator, timestamp)
    }
}

/// The balance of an address: zero when it has no entry.
pub open spec fn balance_in(m: Map<Seq<char>, i128>, a: Seq<char>) -> int {
    if m.contains_key(a) {
        m[a] as int
    } else {
        0
    }
}

/// An integer held to the range of `i128`.
pub open spec fn clamp(v: int) -> i128 {
    if v < i128::MIN {
        i128::MIN
    } else if v > i128::MAX {
        i128::MAX
    } else {
        v as i128
    }
}

/// The balances after one transaction: the sender (unless it is the mint) pays
/// amount and fee, the recipient gets the amount. Balances may go negative and
/// stop at the ends of the `i128` range.
pub open spec fn apply_tx(m: Map<Seq<char>, i128>, t: TxView) -> Map<Seq<char>, i128> {
    let m1 = if t.sender == mint_sender() {
        m
    } else {
        m.insert(t.sender, clamp(balance_in(m, t.sender) - t.amount - t.fee))
    };
    m1.insert(t.recipient, clamp(balance_in(m1, t.recipient) + t.amount))
}

/// The balances after a sequence of transactions, in order.
pub open spec fn apply_txs(m: Map<Seq<char>, i128>, txs: Seq<TxView>) -> Map<Seq<char>, i128>
    decreases txs.len(),
{
    if txs.len() == 0 {
        m
    } else {
        apply_tx(apply_txs(m, txs.drop_last()), txs.last())
    }
}

/// The contract state after the calls of a sequence of transactions, in
/// order; a call that fails changes nothing and undoes nothing.
pub open spec fn run_calls(state: Map<Seq<char>, Seq<char>>, txs: Seq<TxView>) -> Map<Seq<char>, Seq<char>>
    decreases txs.len(),
{
    if txs.len() == 0 {
        state
    } else {
        let s = run_calls(state, txs.drop_last());
        match txs.last().smart_call {
            Some(c) => execute_spec(s, c).0,
            None => s,
        }
    }
}

/// A transaction is admitted when it is valid and, unless it is a reward, its
/// sender's last applied balance covers amount and fee.
pub open spec fn admissible(m: Map<Seq<char>, i128>, t: TxView) -> bool {
    tx_valid(t) && (t.sender == mint_sender() || balance_in(m, t.sender) >= t.amount + t.fee)
}

/// The sum of the fees of a sequence of transactions.
pub open spec fn fee_total(txs: Seq<TxView>) -> int
    decreases txs.len(),
{
    if txs.len() == 0 {
        0
    } else {
        fee_total(txs.drop_last()) + txs.last().fee
    }
}

/// The reward of a validator: the base reward of 10 and all fees, held to the `u64` range.
pub open spec fn reward_for(txs: Seq<TxView>) -> u64 {
    if 10 + fee_total(txs) > u64::MAX {
        u64::MAX
    } else {
        (10 + fee_total(txs)) as u64
    }
}

/// The index that a block mined on this chain gets.
pub open spec fn next_index(chain: Seq<Block>) -> int {
    if chain.len() == 0 {
        0
    } else {
        chain.last().index + 1
    }
}

/// The hash that a block mined on this chain links to.
pub open spec fn tip_hash(chain: Seq<Block>) -> Seq<char> {
    if chain.len() == 0 {
        "0"@
    } else {
        chain.last().hash@
    }
}

/// What mining on `old` with the given validator and time yields: block `b`
/// and ledger `new`.
pub open spec fn mined(old: Blockchain, new: Blockchain, b: BlockView, validator: Seq<char>, timestamp: i64) -> bool {
    let pending = tx_views(old.pending_transactions@);
    &&& b.index == next_index(old.chain@)
    &&& b.previous_hash == tip_hash(old.chain@)
    &&& b.validator == validator
    &&& b.timestamp == timestamp
    &&& is_sealed(b)
    &&& b.transactions.len() == pending.len() + 1
    &&& b.transactions.drop_last() == pending
    &&& is_coinbase(b.transactions.last(), validator, reward_for(pending), timestamp)
    &&& new.chain@.len() == old.chain@.len() + 1
    &&& new.chain@.drop_last() == old.chain@
    &&& new.chain@.last()@ == b
    &&& new.pending_transactions@.len() == 0
    &&& new.balances@ == apply_txs(old.balances@, b.transactions)
    &&& new.vm@ == run_calls(old.vm@, b.transactions)
}

/// Adds a signed amount, within `-2^66..2^66`, stopping at the ends of the range.
fn add_clamped(a: i128, d: i128) -> (r: i128)
    requires
        -0x4_0000_0000_0000_0000 <= d <= 0x4_0000_0000_0000_0000,
    ensures
        r == clamp(a + d),
{
    if d >= 0 {
        if a > i128::MAX - d {
            i128::MAX
        } else {
            a + d
        }
    } else {
        if a < i128::MIN - d {
            i128::MIN
        } else {
            a + d
        }
    }
}

/// A node's replica of the ledger.
pub struct Blockchain {
    pub chain: Vec<Block>,
    pub pending_transactions: Vec<Transaction>,
    pub balances: StrMap<i128>,
    pub vm: VirtualMachine,
}

impl Blockchain {
    /// The balance and contract maps are well formed.
    pub open spec fn wf(&self) -> bool {
        self.balances.wf() && self.vm.wf()
    }

    /// A ledger with the genesis block, stamped with the given time, which
    /// credits `GENESIS_WALLET` with 1,000,000.
    pub fn new_at(timestamp: i64) -> (r: Blockchain)
        ensures
            r.wf(),
            r.chain@.len() == 1,
            r.chain@[0]@.index == 0,
            r.chain@[0]@.timestamp == timestamp,
            r.chain@[0]@.previous_hash == "0"@,
            r.chain@[0]@.validator == "GENESIS"@,
            is_sealed(r.chain@[0]@),
            r.chain@[0]@.transactions.len() == 1,
            is_coinbase(r.chain@[0]@.transactions[0], "GENESIS_WALLET"@, 1_000_000, timestamp),
            r.pending_transactions@.len() == 0,
            r.balances@ == map!["GENESIS_WALLET"@ => 1_000_000i128],
            r@ == Map::<Seq<char>, Seq<char>>::empty(),
    {
        let mut blockchain = Blockchain {
            chain: Vec::new(),
            pending_transactions: Vec::new(),
            balances: StrMap::new(),
            vm: VirtualMachine::new(),
        };
        let genesis_tx = Transaction::new_coinbase_at(String::from_str("GENESIS_WALLET"), 1_000_000, timestamp);
        let txs = vec![genesis_tx];
        let genesis_block = Block::new_at(0, txs, String::from_str("0"), String::from_str("GENESIS"), timestamp);
        let ghost gtx = genesis_block@.transactions;
        blockchain.add_block(genesis_block);
        proof {
            assert(gtx.len() == 1);
            assert(gtx.drop_last() =~= Seq::<TxView>::empty());
            assert(gtx.last() == gtx[0]);
            assert(gtx[0].sender == mint_sender());
            assert(gtx[0].smart_call.is_none());
            assert(apply_txs(Map::empty(), gtx.drop_last()) == Map::<Seq<char>, i128>::empty());
            assert(run_calls(Map::empty(), gtx.drop_last()) == Map::<Seq<char>, Seq<char>>::empty());
            assert(blockchain.balances@ =~= map!["GENESIS_WALLET"@ => 1_000_000i128]);
        }
        blockchain
    }

    /// A ledger with the genesis block, stamped with the current time.
    pub fn new() -> (r: Blockchain)
        ensures
            r.wf(),
            r.chain@.len() == 1,
            r.chain@[0]@.index == 0,
            r.chain@[0]@.previous_hash == "0"@,
            r.chain@[0]@.validator == "GENESIS"@,
            is_sealed(r.chain@[0]@),
            r.chain@[0]@.transactions.len() == 1,
            is_coinbase(r.chain@[0]@.transactions[0], "GENESIS_WALLET"@, 1_000_000, r.chain@[0]@.timestamp),
            r.pending_transactions@.len() == 0,
            r.balances@ == map!["GENESIS_WALLET"@ => 1_000_000i128],
            r@ == Map::<Seq<char>, Seq<char>>::empty(),
    {
        Blockchain::new_at(now_timestamp())
    }

    /// The balance of an address; zero when it has never been seen.
    pub fn get_balance(&self, address: &str) -> (r: i128)
        requires
            self.wf(),
        ensures
            r == balance_in(self.balances@, address@),
    {
        match self.balances.get(address) {
            Some(b) => *b,
            None => 0,
        }
    }

    /// Admits a transaction to the pending pool when it is valid and its
    /// sender's balance covers it. Pending transactions are not counted.
    pub fn add_transaction(&mut self, tx: Transaction) -> (r: bool)
        requires
            old(self).wf(),
        ensures
            r == admissible(old(self).balances@, tx@),
            r ==> final(self).pending_transactions@ == old(self).pending_transactions@.push(tx),
            !r ==> final(self).pending_transactions@ == old(self).pending_transactions@,
            final(self).chain == old(self).chain,
            final(self).balances == old(self).balances,
            final(self).vm == old(self).vm,
    {
        if !tx.is_valid() {
            return false;
        }
        if !tx.sender.eq(&String::from_str("NETWORK_MINT")) {
            let sender_bal = self.get_balance(tx.sender.as_str());
            if sender_bal < tx.amount as i128 + tx.fee as i128 {
                return false;
            }
        }
        self.pending_transactions.push(tx);
        true
    }

    /// Applies a block without checking it: each transaction moves balances
    /// and runs its call, in order; then the block is appended to the chain.
    pub fn add_block(&mut self, block: Block)
        requires
            old(self).wf(),
        ensures
            final(self).wf(),
            final(self).chain@ == old(self).chain@.push(block),
            final(self).pending_transactions == old(self).pending_transactions,
            final(self).balances@ == apply_txs(old(self).balances@, block@.transactions),
            final(self)@ == run_calls(old(self)@, block@.transactions),
    {
        let ghost txs = block@.transactions;
        let ghost bal0 = self.balances@;
        let ghost vm0 = self.vm@;
        let mint = String::from_str("NETWORK_MINT");
        let mut i: usize = 0;
        while i < block.transactions.len()
            invariant
                i <= block.transactions@.len(),
                txs == block@.transactions,
                mint@ == mint_sender(),
                self.wf(),
                self.chain == old(self).chain,
                self.pending_transactions == old(self).pending_transactions,
                self.balances@ == apply_txs(bal0, txs.take(i as int)),
                self@ == run_calls(vm0, txs.take(i as int)),
            decreases block.transactions@.len() - i,
        {
            let tx = &block.transactions[i];
            proof {
                assert(txs.take(i + 1).drop_last() =~= txs.take(i as int));
                assert(txs.take(i + 1).last() == tx@);
            }
            if !tx.sender.eq(&mint) {
                let cur = self.get_balance(tx.sender.as_str());
                let nb = add_clamped(cur, -(tx.amount as i128 + tx.fee as i128));
                self.balances.insert(tx.sender.clone(), nb);
            }
            let cur = self.get_balance(tx.recipient.as_str());
            let nb = add_clamped(cur, tx.amount as i128);
            self.balances.insert(tx.recipient.clone(), nb);
            match &tx.smart_call {
                Some(c) => {
                    self.vm.execute(c);
                },
                None => {},
            }
            i = i + 1;
        }
        assert(txs.take(block.transactions@.len() as int) =~= txs);
        self.chain.push(block);
    }

    /// Mines the pending pool at the given time: the pending transactions and
    /// a reward for the validator form a block on the chain's tip, which is
    /// applied. Nothing happens when the pool is empty or the tip's index is
    /// the largest `u64`.
    pub fn mine_block_at(&mut self, validator_address: String, timestamp: i64) -> (r: Option<Block>)
        requires
            old(self).wf(),
        ensures
            final(self).wf(),
            match r {
                None => (old(self).pending_transactions@.len() == 0 || (old(self).chain@.len() > 0
                    && old(self).chain@.last().index == u64::MAX)) && *final(self) == *old(self),
                Some(b) => old(self).pending_transactions@.len() > 0 && mined(
                    *old(self),
                    *final(self),
                    b@,
                    validator_address@,
                    timestamp,
                ),
            },
    {
        if self.pending_transactions.len() == 0 {
            return None;
        }
        let n = self.chain.len();
        let (index, previous_hash) = if n == 0 {
            (0u64, String::from_str("0"))
        } else {
            let last = &self.chain[n - 1];
            if last.index == u64::MAX {
                return None;
            }
            (last.index + 1, last.hash.clone())
        };
        let ghost pending = tx_views(self.pending_transactions@);
        let mut fees: u64 = 0;
        let mut i: usize = 0;
        while i < self.pending_transactions.len()
            invariant
                i <= self.pending_transactions@.len(),
                pending == tx_views(self.pending_transactions@),
                fees == (if fee_total(pending.take(i as int)) > u64::MAX { u64::MAX as int } else { fee_total(pending.take(i as int)) }),
            decreases self.pending_transactions@.len() - i,
        {
            proof {
                assert(pending.take(i + 1).drop_last() =~= pending.take(i as int));
                assert(fee_total(pending.take(i as int)) >= 0) by {
                    lemma_fee_total_nonneg(pending.take(i as int));
                }
            }
            fees = fees.saturating_add(self.pending_transactions[i].fee);
            i = i + 1;
        }
        assert(pending.take(pending.len() as int) =~= pending);
        let reward = 10u64.saturating_add(fees);
        let reward_tx = Transaction::new_coinbase_at(validator_address.clone(), reward, timestamp);
        let ghost reward_tx_view = reward_tx@;
        let mut txs = copy_transactions(&self.pending_transactions);
        txs.push(reward_tx);
        let new_block = Block::new_at(index, txs, previous_hash, validator_address, timestamp);
        proof {
            assert(new_block@.transactions.drop_last() =~= pending);
        }
        let result = new_block.copy();
        let ghost before = self.chain@;
        self.add_block(new_block);
        self.pending_transactions = Vec::new();
        proof {
            assert(self.chain@.drop_last() =~= before);
            assert(result@.transactions.last() == reward_tx_view);
            assert(reward == reward_for(pending));
        }
        Some(result)
    }

    /// Mines the pending pool at the current time.
    pub fn mine_block(&mut self, validator_address: String) -> (r: Option<Block>)
        requires
            old(self).wf(),
        ensures
            final(self).wf(),
            match r {
                None => (old(self).pending_transactions@.len() == 0 || (old(self).chain@.len() > 0
                    && old(self).chain@.last().index == u64::MAX)) && *final(self) == *old(self),
                Some(b) => old(self).pending_transactions@.len() > 0 && mined(
                    *old(self),
                    *final(self),
                    b@,
                    validator_address@,
                    b.timestamp,
                ),
            },
    {
        let timestamp = now_timestamp();
        self.mine_block_at(validator_address, timestamp)
    }
}

impl View for Blockchain {
    type V = Map<Seq<char>, Seq<char>>;

    /// The contract state.
    open spec fn view(&self) -> Map<Seq<char>, Seq<char>> {
        self.vm@
    }
}

proof fn lemma_fee_total_nonneg(txs: Seq<TxView>)
    ensures
        fee_total(txs) >= 0,
    decreases txs.len(),
{
    if txs.len() > 0 {
        lemma_fee_total_nonneg(txs.drop_last());
    }
}

/// A transfer that an identity signs is valid.
pub proof fn lemma_signed_transfer_valid(
    t: TxView,
    seed: Seq<u8>,
    recipient: Seq<char>,
    amount: u64,
    fee: u64,
    timestamp: i64,
    call: Option<CallView>,
)
    requires
        seed.len() == 32,
        is_signed_transfer(t, seed, recipient, amount, fee, timestamp, call),
    ensures
        tx_valid(t),
{
    lemma_seed_signature_verifies(seed, encode_utf8(tx_payload(t)));
}

} // verus!

verus! {

/// The Merkle root of no transactions is the sentinel `"0"`; of one, the hash
/// of its id twice; of two, the lone hash of their pair combined with itself.
pub proof fn law_merkle_root_small(a: TxView, b: TxView)
    ensures
        merkle_root_of(Seq::<TxView>::empty()) == empty_root(),
        merkle_root_of(seq![a]) == combine(a.id, a.id),
        merkle_root_of(seq![a, b]) == combine(combine(a.id, b.id), combine(a.id, b.id)),
{
    assert(tx_ids(seq![a]) =~= seq![a.id]);
    assert(tx_ids(seq![a, b]) =~= seq![a.id, b.id]);
    let level = merkle_level(seq![a.id, b.id]);
    assert(level =~= seq![combine(a.id, b.id)]);
    assert(merkle_reduce(level) == combine(level[0], level[0]));
}

/// Admission of a signed transfer: a balance of exactly amount plus fee
/// suffices, one unit less does not.
pub proof fn law_admission_threshold(m: Map<Seq<char>, i128>, t: TxView)
    requires
        tx_valid(t),
        t.sender != mint_sender(),
    ensures
        balance_in(m, t.sender) == t.amount + t.fee ==> admissible(m, t),
        balance_in(m, t.sender) == t.amount + t.fee - 1 ==> !admissible(m, t),
{
}

/// Applying transactions after others is applying them all in one sequence.
pub proof fn lemma_apply_concat(m: Map<Seq<char>, i128>, a: Seq<TxView>, b: Seq<TxView>)
    ensures
        apply_txs(apply_txs(m, a), b) == apply_txs(m, a + b),
    decreases b.len(),
{
    if b.len() == 0 {
        assert(a + b =~= a);
    } else {
        lemma_apply_concat(m, a, b.drop_last());
        assert((a + b).drop_last() =~= a + b.drop_last());
        assert((a + b).last() == b.last());
    }
}

/// Applying a block twice applies its transactions twice: nothing is
/// deduplicated, so a transfer debits its sender and credits its recipient
/// twice (where no balance reaches the ends of the `i128` range).
pub proof fn law_apply_twice(m: Map<Seq<char>, i128>, t: TxView)
    requires
        t.sender != mint_sender(),
        t.sender != t.recipient,
        -0x1_0000_0000_0000_0000_0000_0000 <= balance_in(m, t.sender) <= 0x1_0000_0000_0000_0000_0000_0000,
        -0x1_0000_0000_0000_0000_0000_0000 <= balance_in(m, t.recipient) <= 0x1_0000_0000_0000_0000_0000_0000,
    ensures
        apply_txs(apply_txs(m, seq![t]), seq![t]) == apply_txs(m, seq![t, t]),
        balance_in(apply_txs(apply_txs(m, seq![t]), seq![t]), t.sender) == balance_in(m, t.sender) - 2 * (t.amount
            + t.fee),
        balance_in(apply_txs(apply_txs(m, seq![t]), seq![t]), t.recipient) == balance_in(m, t.recipient) + 2
            * t.amount,
{
    lemma_apply_concat(m, seq![t], seq![t]);
    assert(seq![t] + seq![t] =~= seq![t, t]);
    assert(seq![t].drop_last() =~= Seq::<TxView>::empty());
    assert(seq![t, t].drop_last() =~= seq![t]);
    assert(seq![t].last() == t);
    let m1 = apply_txs(m, seq![t]);
    assert(apply_txs(m, Seq::<TxView>::empty()) == m);
    assert(m1 == apply_tx(m, t));
    assert(apply_txs(m1, Seq::<TxView>::empty()) == m1);
    assert(apply_txs(m1, seq![t]) == apply_tx(m1, t));
}

} // verus!
