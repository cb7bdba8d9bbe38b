//! Gossip envelopes: what nodes exchange, on which topic, and how a received
//! envelope reaches the ledger.
use crate::chain::{admissible, apply_txs, run_calls, Block, Blockchain, Transaction};
use vstd::prelude::*;

verus! {

/// An envelope on the gossip network.
#[derive(Debug, Clone)]
pub enum NetworkMessage {
    Block(Block),
    Transaction(Transaction),
}

/// The gossip topics that every node subscribes to.
#[derive(Debug, Clone, Copy, PartialEq, Eq, Structural)]
pub enum Topic {
    Blocks,
    Transactions,
}

/// The name of a topic on the wire.
pub open spec fn topic_text(t: Topic) -> Seq<char> {
    match t {
        Topic::Blocks => "blocks"@,
        Topic::Transactions => "transactions"@,
    }
}

/// The name of a topic on the wire.
pub fn topic_name(t: Topic) -> (r: String)
    ensures
        r@ == topic_text(t),
{
    match t {
        Topic::Blocks => String::from_str("blocks"),
        Topic::Transactions => String::from_str("transactions"),
    }
}

/// The topic an envelope is published on.
pub fn topic_of(msg: &NetworkMessage) -> (r: Topic)
    ensures
        r == match msg {
            NetworkMessage::Block(_) => Topic::Blocks,
            NetworkMessage::Transaction(_) => Topic::Transactions,
        },
{
    match msg {
        NetworkMessage::Block(_) => Topic::Blocks,
        NetworkMessage::Transaction(_) => Topic::Transactions,
    }
}

/// Hands a received envelope to the ledger: a transaction goes through
/// admission, a block is applied as it is. Returns whether it took effect.
pub fn deliver(ledger: &mut Blockchain, msg: NetworkMessage) -> (r: bool)
    requires
        old(ledger).wf(),
    ensures
        final(ledger).wf(),
        match msg {
            NetworkMessage::Transaction(tx) => {
                &&& r == admissible(old(ledger).balances@, tx@)
                &&& r ==> final(ledger).pending_transactions@ == old(ledger).pending_transactions@.push(tx)
                &&& !r ==> final(ledger).pending_transactions@ == old(ledger).pending_transactions@
                &&& final(ledger).chain == old(ledger).chain
                &&& final(ledger).balances == old(ledger).balances
                &&& final(ledger).vm == old(ledger).vm
            },
            NetworkMessage::Block(b) => {
                &&& r
                &&& final(ledger).chain@ == old(ledger).chain@.push(b)
                &&& final(ledger).pending_transactions == old(ledger).pending_transactions
                &&& final(ledger).balances@ == apply_txs(old(ledger).balances@, b@.transactions)
                &&& final(ledger)@ == run_calls(old(ledger)@, b@.transactions)
            },
        },
{
    match msg {
        NetworkMessage::Transaction(tx) => ledger.add_transaction(tx),
        NetworkMessage::Block(b) => {
            ledger.add_block(b);
            true
        },
    }
}

} // verus!
