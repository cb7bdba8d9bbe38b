//! The contract store: string-keyed contract state, changed by contract calls
//! that transactions carry.
use crate::store::StrMap;
use vstd::prelude::*;

verus! {

/// A call of a contract function with string arguments.
#[derive(Debug, Clone)]
pub struct SmartContractCall {
    pub contract: String,
    pub function: String,
    pub args: Vec<String>,
}

/// A contract call as plain text values.
pub struct CallView {
    pub contract: Seq<char>,
    pub function: Seq<char>,
    pub args: Seq<Seq<char>>,
}

impl View for SmartContractCall {
    type V = CallView;

    open spec fn view(&self) -> CallView {
        CallView {
            contract: self.contract@,
            function: self.function@,
            args: self.args@.map_values(|a: String| a@),
        }
    }
}

/// The contracts that the store knows.
#[derive(Debug, Clone, Copy, PartialEq, Eq, Structural)]
pub enum Contract {
    NftRegistry,
    Governance,
}

/// The contract that a name selects, if any.
pub open spec fn contract_named(name: Seq<char>) -> Option<Contract> {
    if name == "nft_registry"@ {
        Some(Contract::NftRegistry)
    } else if name == "governance"@ {
        Some(Contract::Governance)
    } else {
        None
    }
}

/// The state key under which the owner of an NFT is kept.
pub open spec fn nft_owner_key(token_id: Seq<char>) -> Seq<char> {
    "nft:"@ + token_id + ":owner"@
}

/// What an NFT registry call does to the state, and what it returns.
pub open spec fn nft_spec(state: Map<Seq<char>, Seq<char>>, call: CallView) -> (Map<Seq<char>, Seq<char>>, bool) {
    if call.function == "mint"@ && call.args.len() >= 2 && !state.contains_key(nft_owner_key(call.args[0])) {
        (state.insert(nft_owner_key(call.args[0]), call.args[1]), true)
    } else {
        (state, false)
    }
}

/// What executing a call does to the state, and what it returns.
pub open spec fn execute_spec(state: Map<Seq<char>, Seq<char>>, call: CallView) -> (Map<Seq<char>, Seq<char>>, bool) {
    match contract_named(call.contract) {
        Some(Contract::NftRegistry) => nft_spec(state, call),
        Some(Contract::Governance) => (state, true),
        None => (state, false),
    }
}

/// Selects the contract that a name stands for.
pub fn contract_of(name: &String) -> (r: Option<Contract>)
    ensures
        r == contract_named(name@),
{
    if name.eq(&String::from_str("nft_registry")) {
        Some(Contract::NftRegistry)
    } else if name.eq(&String::from_str("governance")) {
        Some(Contract::Governance)
    } else {
        None
    }
}

/// The contract store.
pub struct VirtualMachine {
    pub state: StrMap<String>,
}

impl View for VirtualMachine {
    type V = Map<Seq<char>, Seq<char>>;

    open spec fn view(&self) -> Map<Seq<char>, Seq<char>> {
        self.state@.map_values(|v: String| v@)
    }
}

impl VirtualMachine {
    /// The store's state map is well formed.
    pub open spec fn wf(&self) -> bool {
        self.state.wf()
    }

    /// An empty store.
    pub fn new() -> (r: Self)
        ensures
            r.wf(),
            r@ == Map::<Seq<char>, Seq<char>>::empty(),
    {
        let r = VirtualMachine { state: StrMap::new() };
        assert(r@ =~= Map::<Seq<char>, Seq<char>>::empty());
        r
    }

    /// Runs a call against the contract that it names; an unknown contract
    /// changes nothing and gives false.
    pub fn execute(&mut self, call: &SmartContractCall) -> (r: bool)
        requires
            old(self).wf(),
        ensures
            final(self).wf(),
            (final(self)@, r) == execute_spec(old(self)@, call@),
    {
        match contract_of(&call.contract) {
            Some(Contract::NftRegistry) => self.run_nft(call),
            Some(Contract::Governance) => self.run_governance(call),
            None => false,
        }
    }

    /// The NFT registry: `mint(token_id, owner)` records the owner of a token
    /// that has none yet.
    pub fn run_nft(&mut self, call: &SmartContractCall) -> (r: bool)
        requires
            old(self).wf(),
        ensures
            final(self).wf(),
            (final(self)@, r) == nft_spec(old(self)@, call@),
    {
        if call.function.eq(&String::from_str("mint")) {
            if call.args.len() < 2 {
                return false;
            }
            let token_id = &call.args[0];
            let owner = &call.args[1];
            let mut key = String::from_str("nft:");
            key.append(token_id.as_str());
            key.append(":owner");
            proof {
                assert(call@.args[0] == token_id@);
                assert(call@.args[1] == owner@);
            }
            if self.state.contains_key(key.as_str()) {
                return false;
            }
            let ghost kv = key@;
            self.state.insert(key, owner.clone());
            assert(self@ =~= old(self)@.insert(kv, owner@));
            return true;
        }
        false
    }

    /// The governance contract accepts every call and changes nothing.
    pub fn run_governance(&mut self, call: &SmartContractCall) -> (r: bool)
        ensures
            *final(self) == *old(self),
            r,
    {
        true
    }
}

/// Minting a token twice: the first mint records its owner; the second, with
/// any owner, fails and changes nothing.
pub proof fn law_mint_twice(state: Map<Seq<char>, Seq<char>>, first: CallView, second: CallView)
    requires
        first.contract == "nft_registry"@,
        second.contract == "nft_registry"@,
        first.function == "mint"@,
        second.function == "mint"@,
        first.args.len() >= 2,
        second.args.len() >= 2,
        first.args[0] == second.args[0],
        !state.contains_key(nft_owner_key(first.args[0])),
    ensures
        execute_spec(state, first).1,
        execute_spec(state, first).0[nft_owner_key(first.args[0])] == first.args[1],
        !execute_spec(execute_spec(state, first).0, second).1,
        execute_spec(execute_spec(state, first).0, second).0 == execute_spec(state, first).0,
{
}

} // verus!
