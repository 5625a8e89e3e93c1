//! The accounts that the ledger stores.

use crate::address::Address;
use vstd::prelude::*;

verus! {

/// A custody account: an amount of one asset under one owner.
#[derive(Clone, Copy, Debug, PartialEq, Eq)]
pub struct TokenAccount {
    /// The asset that the account holds.
    pub mint: Address,
    /// The party, or the record, that may move the amount.
    pub owner: Address,
    /// The amount held.
    pub amount: u64,
}

/// The terms of one offer. They are fixed when the offer is made.
#[derive(Clone, Copy, Debug, PartialEq, Eq)]
pub struct EscrowState {
    /// The identifier that the maker chose.
    pub id: u64,
    /// The party that made the offer.
    pub maker: Address,
    /// The asset offered.
    pub token_mint_a: Address,
    /// The asset wanted in return.
    pub token_mint_b: Address,
    /// The amount offered, locked in the vault.
    pub token_a_offered_amount: u64,
    /// The amount wanted in return.
    pub token_b_wanted_amount: u64,
    /// The vault that holds the amount offered.
    pub vault: Address,
    /// The witness of the record's derived address.
    pub bump: u8,
}

} // verus!
