//! The failures that an escrow operation reports.

use vstd::prelude::*;

verus! {

/// Why an operation was rejected. A rejected operation changes nothing.
#[derive(Clone, Copy, Debug, PartialEq, Eq, Structural)]
pub enum EscrowError {
    /// Authorization: the taker is the maker of the offer.
    InvalidTaker,
    /// Reference integrity: the maker supplied is not the one recorded.
    InvalidMaker,
    /// Reference integrity: the vault supplied is not the one recorded, or is
    /// not the custody account that the record's address commands.
    InvalidVault,
    /// Authorization: the caller of a refund is not the maker of the offer.
    NotMaker,
    /// Authorization: a party's identity is the address of a live record.
    /// Such an address has no key behind it and cannot act for itself.
    DerivedIdentity,
    /// Reference integrity: a token account belongs to another party.
    InvalidOwner,
    /// Reference integrity: a token account holds another asset.
    InvalidMint,
    /// Reference integrity: a token account is not at the address derived
    /// from its owner and its asset.
    InvalidTokenAccount,
    /// Reference integrity: the record's address is not the one derived from
    /// the maker and the identifier.
    InvalidRecordAddress,
    /// Resource: an account that the operation reads does not exist.
    AccountNotFound,
    /// Resource: the paying account holds less than the amount to move.
    InsufficientFunds,
    /// Resource: the receiving account's balance would pass the largest
    /// amount an account can hold.
    Overflow,
    /// Uniqueness: an account already exists at the address to be created.
    AlreadyInUse,
}

/// The four classes of failure.
#[derive(Clone, Copy, Debug, PartialEq, Eq, Structural)]
pub enum ErrorClass {
    Authorization,
    ReferenceIntegrity,
    Resource,
    Uniqueness,
}

impl EscrowError {
    /// The class that the failure belongs to.
    pub open spec fn class_of(self) -> ErrorClass {
        match self {
            EscrowError::InvalidTaker | EscrowError::NotMaker | EscrowError::DerivedIdentity =>
                ErrorClass::Authorization,
            EscrowError::InvalidMaker
            | EscrowError::InvalidVault
            | EscrowError::InvalidOwner
            | EscrowError::InvalidMint
            | EscrowError::InvalidTokenAccount
            | EscrowError::InvalidRecordAddress => ErrorClass::ReferenceIntegrity,
            EscrowError::AccountNotFound | EscrowError::InsufficientFunds | EscrowError::Overflow =>
                ErrorClass::Resource,
            EscrowError::AlreadyInUse => ErrorClass::Uniqueness,
        }
    }

    /// The class that the failure belongs to.
    pub fn class(&self) -> (c: ErrorClass)
        ensures
            c == self.class_of(),
    {
        match self {
            EscrowError::InvalidTaker | EscrowError::NotMaker | EscrowError::DerivedIdentity =>
                ErrorClass::Authorization,
            EscrowError::InvalidMaker
            | EscrowError::InvalidVault
            | EscrowError::InvalidOwner
            | EscrowError::InvalidMint
            | EscrowError::InvalidTokenAccount
            | EscrowError::InvalidRecordAddress => ErrorClass::ReferenceIntegrity,
            EscrowError::AccountNotFound | EscrowError::InsufficientFunds | EscrowError::Overflow =>
                ErrorClass::Resource,
            EscrowError::AlreadyInUse => ErrorClass::Uniqueness,
        }
    }
}

} // verus!
