//! The accounts that a caller names for each operation.

use crate::address::Address;
use vstd::prelude::*;

verus! {

/// The accounts of an offer to be made.
#[derive(Clone, Copy, Debug)]
pub struct Initialize {
    /// The caller, who makes the offer and signs for it.
    pub maker: Address,
    /// The asset offered.
    pub mint_a: Address,
    /// The asset wanted in return.
    pub mint_b: Address,
    /// The maker's account of the asset offered, which pays into the vault.
    pub maker_ata_a: Address,
    /// The address at which the record is created.
    pub escrow: Address,
    /// The address at which the vault is created.
    pub vault: Address,
}

/// The accounts of an offer to be withdrawn.
#[derive(Clone, Copy, Debug)]
pub struct Refund {
    /// The caller, who signs for the withdrawal.
    pub maker: Address,
    /// The record of the offer.
    pub escrow: Address,
    /// The maker's account of the asset offered, which receives the vault's
    /// contents.
    pub maker_ata_a: Address,
    /// The vault of the offer.
    pub vault: Address,
}

/// The accounts of an offer to be taken.
#[derive(Clone, Copy, Debug)]
pub struct TakeEscrow {
    /// The caller, who takes the offer and signs for it.
    pub taker: Address,
    /// The maker of the offer.
    pub maker: Address,
    /// The record of the offer.
    pub escrow: Address,
    /// The taker's account of the asset offered, which receives the vault's
    /// contents.
    pub taker_ata_a: Address,
    /// The taker's account of the asset wanted, which pays the maker.
    pub taker_ata_b: Address,
    /// The maker's account of the asset wanted, which receives the payment.
    pub maker_ata_b: Address,
    /// The vault of the offer.
    pub vault: Address,
}

} // verus!
