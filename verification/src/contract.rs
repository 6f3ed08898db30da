//! The plainest contract: one that knows its owner and nothing else.

use vstd::prelude::*;

verus! {

/// A contract that has an owner and no other state.
#[derive(Debug, PartialEq, Eq)]
pub struct Contract {
    owner: String,
}

impl View for Contract {
    type V = Seq<char>;

    /// The contract as a mathematical value: the account that owns it.
    closed spec fn view(&self) -> Seq<char> {
        self.owner@
    }
}

impl Contract {
    /// A contract that `owner` owns.
    pub fn new(owner: String) -> (contract: Self)
        ensures
            contract@ == owner@,
    {
        Contract { owner }
    }

    /// The account that owns the contract.
    pub fn owner(&self) -> (owner: &String)
        ensures
            owner@ == self@,
    {
        &self.owner
    }
}

} // verus!
