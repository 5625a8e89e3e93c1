//! Initialize: a maker records an offer and locks the amount offered.

use crate::accounts::Initialize;
use crate::address::associated_address;
use crate::address::derive_record_address;
use crate::address::is_associated_address;
use crate::address::lemma_address_by_bytes;
use crate::address::record_address;
use crate::address::Address;
use crate::error::EscrowError;
use crate::ledger::Ledger;
use crate::ledger::LedgerView;
use crate::state::EscrowState;
use crate::state::TokenAccount;
use vstd::prelude::*;

verus! {

/// Whether the derivation gives `key` for the record of `(maker, id)`.
pub open spec fn is_record_of(program_id: Address, key: Address, maker: Address, id: u64) -> bool {
    match record_address(program_id, maker, id) {
        Some(found) => found.0 == key@,
        None => false,
    }
}

/// Whether an offer with these accounts and terms is accepted on the ledger
/// `s`, and if not, the first check that it fails.
pub open spec fn initialize_outcome(s: LedgerView, a: Initialize, id: u64, offered: u64) -> Result<
    (),
    EscrowError,
> {
    if s.records.contains_key(a.maker) {
        Err(EscrowError::DerivedIdentity)
    } else if !s.tokens.contains_key(a.maker_ata_a) {
        Err(EscrowError::AccountNotFound)
    } else if !is_record_of(s.program_id, a.escrow, a.maker, id) {
        Err(EscrowError::InvalidRecordAddress)
    } else if s.records.contains_key(a.escrow) {
        Err(EscrowError::AlreadyInUse)
    } else if associated_address(a.escrow, a.mint_a) != Some(a.vault@) {
        Err(EscrowError::InvalidVault)
    } else if s.tokens.contains_key(a.vault) {
        Err(EscrowError::AlreadyInUse)
    } else if s.tokens[a.maker_ata_a].owner != a.maker {
        Err(EscrowError::InvalidOwner)
    } else if s.tokens[a.maker_ata_a].mint != a.mint_a {
        Err(EscrowError::InvalidMint)
    } else if associated_address(a.maker, a.mint_a) != Some(a.maker_ata_a@) {
        Err(EscrowError::InvalidTokenAccount)
    } else if s.tokens[a.maker_ata_a].amount < offered {
        Err(EscrowError::InsufficientFunds)
    } else {
        Ok(())
    }
}

/// The record that an accepted offer writes.
pub open spec fn initial_record(s: LedgerView, a: Initialize, id: u64, offered: u64, wanted: u64) -> EscrowState {
    EscrowState {
        id,
        maker: a.maker,
        token_mint_a: a.mint_a,
        token_mint_b: a.mint_b,
        token_a_offered_amount: offered,
        token_b_wanted_amount: wanted,
        vault: a.vault,
        bump: record_address(s.program_id, a.maker, id).unwrap().1,
    }
}

/// The ledger after an accepted offer: the record exists, the vault exists
/// under the record's address, and the amount offered has moved from the
/// maker's account into the vault.
pub open spec fn initialize_effect(
    s: LedgerView,
    a: Initialize,
    id: u64,
    offered: u64,
    wanted: u64,
) -> LedgerView {
    LedgerView {
        program_id: s.program_id,
        tokens: LedgerView::debit(s.tokens, a.maker_ata_a, offered).insert(
            a.vault,
            TokenAccount { mint: a.mint_a, owner: a.escrow, amount: offered },
        ),
        records: s.records.insert(a.escrow, initial_record(s, a, id, offered, wanted)),
    }
}

/// An accepted offer keeps the ledger in order.
pub proof fn lemma_initialize_keeps_consistent(
    s: LedgerView,
    a: Initialize,
    id: u64,
    offered: u64,
    wanted: u64,
)
    requires
        s.consistent(),
        initialize_outcome(s, a, id, offered) is Ok,
    ensures
        initialize_effect(s, a, id, offered, wanted).consistent(),
{
    let t = initialize_effect(s, a, id, offered, wanted);
    assert forall|k: Address| #[trigger] t.records.contains_key(k) implies t.backed(k) by {
        if k != a.escrow {
            assert(s.records.contains_key(k));
            assert(s.backed(k));
        }
    }
}

/// Records the offer of `accounts.maker` under `id`: `offered` of the asset
/// `mint_a` against `wanted` of the asset `mint_b`. The record and the vault
/// are created at their derived addresses, and `offered` moves from the
/// maker's account into the vault. A rejected offer changes nothing.
pub fn initialize(
    ledger: &mut Ledger,
    accounts: &Initialize,
    id: u64,
    token_a_offered_amount: u64,
    token_b_wanted_amount: u64,
) -> (r: Result<(), EscrowError>)
    requires
        old(ledger).wf(),
    ensures
        final(ledger).wf(),
        r == initialize_outcome(old(ledger)@, *accounts, id, token_a_offered_amount),
        r is Err ==> final(ledger)@ == old(ledger)@,
        r is Ok ==> final(ledger)@ == initialize_effect(
            old(ledger)@,
            *accounts,
            id,
            token_a_offered_amount,
            token_b_wanted_amount,
        ),
{
    if ledger.record(&accounts.maker).is_some() {
        return Err(EscrowError::DerivedIdentity);
    }
    let source = match ledger.token_account(&accounts.maker_ata_a) {
        Some(source) => source,
        None => {
            return Err(EscrowError::AccountNotFound);
        },
    };
    let program_id = ledger.program_id();
    let bump = match derive_record_address(&program_id, &accounts.maker, id) {
        Some(found) => {
            proof {
                lemma_address_by_bytes(found.0, accounts.escrow);
            }
            if found.0 != accounts.escrow {
                return Err(EscrowError::InvalidRecordAddress);
            }
            found.1
        },
        None => {
            return Err(EscrowError::InvalidRecordAddress);
        },
    };
    if ledger.record(&accounts.escrow).is_some() {
        return Err(EscrowError::AlreadyInUse);
    }
    if !is_associated_address(&accounts.vault, &accounts.escrow, &accounts.mint_a) {
        return Err(EscrowError::InvalidVault);
    }
    if ledger.token_account(&accounts.vault).is_some() {
        return Err(EscrowError::AlreadyInUse);
    }
    if source.owner != accounts.maker {
        return Err(EscrowError::InvalidOwner);
    }
    if source.mint != accounts.mint_a {
        return Err(EscrowError::InvalidMint);
    }
    if !is_associated_address(&accounts.maker_ata_a, &accounts.maker, &accounts.mint_a) {
        return Err(EscrowError::InvalidTokenAccount);
    }
    if source.amount < token_a_offered_amount {
        return Err(EscrowError::InsufficientFunds);
    }
    proof {
        lemma_initialize_keeps_consistent(
            ledger@,
            *accounts,
            id,
            token_a_offered_amount,
            token_b_wanted_amount,
        );
    }
    ledger.put_record(
        accounts.escrow,
        EscrowState {
            id,
            maker: accounts.maker,
            token_mint_a: accounts.mint_a,
            token_mint_b: accounts.mint_b,
            token_a_offered_amount,
            token_b_wanted_amount,
            vault: accounts.vault,
            bump,
        },
    );
    ledger.put_token_account(
        accounts.maker_ata_a,
        TokenAccount {
            mint: source.mint,
            owner: source.owner,
            amount: source.amount - token_a_offered_amount,
        },
    );
    ledger.put_token_account(
        accounts.vault,
        TokenAccount {
            mint: accounts.mint_a,
            owner: accounts.escrow,
            amount: token_a_offered_amount,
        },
    );
    Ok(())
}

} // verus!
