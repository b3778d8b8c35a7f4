//! What an instruction reads of the accounts that the token program and the
//! metadata program keep, and the accounts of the calls it makes into them.

use crate::address::Address;
use vstd::prelude::*;

verus! {

/// A mint of tokens.
#[derive(Clone, Copy, Debug, PartialEq, Eq)]
pub struct Mint {
    pub key: Address,
    pub decimals: u8,
    pub supply: u64,
}

/// A wallet's account for the tokens of one mint.
#[derive(Clone, Copy, Debug, PartialEq, Eq)]
pub struct TokenAccount {
    pub key: Address,
    pub mint: Address,
    pub owner: Address,
    pub amount: u64,
}

impl TokenAccount {
    /// The account holds at least one token of `mint` and belongs to
    /// `owner`.
    pub open spec fn holds_token_of(self, mint: Address, owner: Address) -> bool {
        self.amount > 0 && self.mint == mint && self.owner == owner
    }

    /// Computes [`TokenAccount::holds_token_of`].
    pub fn holds(&self, mint: &Address, owner: &Address) -> (held: bool)
        ensures
            held == self.holds_token_of(*mint, *owner),
    {
        self.amount > 0 && self.mint == *mint && self.owner == *owner
    }
}

/// The account that is handed in as the master edition of a mint: the
/// program that owns it and its raw content.
#[derive(Clone, Debug, PartialEq, Eq)]
pub struct EditionAccount {
    pub key: Address,
    pub owner: Address,
    pub data: Vec<u8>,
}

/// The accounts of the token program's `approve`.
#[derive(Clone, Copy, Debug, PartialEq, Eq)]
pub struct Approve {
    pub to: Address,
    pub delegate: Address,
    pub authority: Address,
}

/// The accounts of the token program's `revoke`.
#[derive(Clone, Copy, Debug, PartialEq, Eq)]
pub struct Revoke {
    pub source: Address,
    pub authority: Address,
}

/// A call into another program: the program and the accounts it is given.
#[derive(Clone, Copy, Debug, PartialEq, Eq)]
pub struct CpiContext<T> {
    pub program: Address,
    pub accounts: T,
}

impl<T> CpiContext<T> {
    pub fn new(program: Address, accounts: T) -> (context: CpiContext<T>)
        ensures
            context == (CpiContext { program, accounts }),
    {
        CpiContext { program, accounts }
    }
}

} // verus!
