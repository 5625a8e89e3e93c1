//! Refund: the maker withdraws an offer and takes back what was locked.

use crate::accounts::Refund;
use crate::address::associated_address;
use crate::address::is_associated_address;
use crate::address::Address;
use crate::error::EscrowError;
use crate::ledger::Ledger;
use crate::ledger::LedgerView;
use crate::state::TokenAccount;
use vstd::prelude::*;

verus! {

/// Whether a refund with these accounts is accepted on the ledger `s`, and if
/// not, the first check that it fails.
pub open spec fn refund_outcome(s: LedgerView, a: Refund) -> Result<(), EscrowError> {
    if !s.records.contains_key(a.escrow) {
        Err(EscrowError::AccountNotFound)
    } else if s.records[a.escrow].maker != a.maker {
        Err(EscrowError::NotMaker)
    } else if s.records.contains_key(a.maker) {
        Err(EscrowError::DerivedIdentity)
    } else if !s.tokens.contains_key(a.maker_ata_a) || !s.tokens.contains_key(a.vault) {
        Err(EscrowError::AccountNotFound)
    } else if s.tokens[a.maker_ata_a].owner != a.maker {
        Err(EscrowError::InvalidOwner)
    } else if s.tokens[a.maker_ata_a].mint != s.records[a.escrow].token_mint_a {
        Err(EscrowError::InvalidMint)
    } else if associated_address(a.maker, s.records[a.escrow].token_mint_a) != Some(
        a.maker_ata_a@,
    ) {
        Err(EscrowError::InvalidTokenAccount)
    } else if a.vault != s.records[a.escrow].vault {
        Err(EscrowError::InvalidVault)
    } else if s.tokens[a.maker_ata_a].amount + s.records[a.escrow].token_a_offered_amount
        > u64::MAX {
        Err(EscrowError::Overflow)
    } else {
        Ok(())
    }
}

/// The ledger after an accepted refund: the amount offered has reached the
/// maker's account, and the vault and the record are gone.
pub open spec fn refund_effect(s: LedgerView, a: Refund) -> LedgerView {
    LedgerView {
        program_id: s.program_id,
        tokens: LedgerView::credit(
            s.tokens,
            a.maker_ata_a,
            s.records[a.escrow].token_a_offered_amount,
        ).remove(a.vault),
        records: s.records.remove(a.escrow),
    }
}

/// An accepted refund keeps the ledger in order.
pub proof fn lemma_refund_keeps_consistent(s: LedgerView, a: Refund)
    requires
        s.consistent(),
        refund_outcome(s, a) is Ok,
    ensures
        refund_effect(s, a).consistent(),
{
    let t = refund_effect(s, a);
    assert(s.backed(a.escrow));
    assert forall|k: Address| #[trigger] t.records.contains_key(k) implies t.backed(k) by {
        assert(s.records.contains_key(k));
        assert(s.backed(k));
    }
}

/// Withdraws the offer recorded at `accounts.escrow`. Only its maker may do
/// so. The whole of the vault goes back to the maker's account; the vault and
/// the record are destroyed. A rejected refund changes nothing.
pub fn refund(ledger: &mut Ledger, accounts: &Refund) -> (r: Result<(), EscrowError>)
    requires
        old(ledger).wf(),
    ensures
        final(ledger).wf(),
        r == refund_outcome(old(ledger)@, *accounts),
        r is Err ==> final(ledger)@ == old(ledger)@,
        r is Ok ==> final(ledger)@ == refund_effect(old(ledger)@, *accounts),
{
    let record = match ledger.record(&accounts.escrow) {
        Some(record) => record,
        None => {
            return Err(EscrowError::AccountNotFound);
        },
    };
    if record.maker != accounts.maker {
        return Err(EscrowError::NotMaker);
    }
    if ledger.record(&accounts.maker).is_some() {
        return Err(EscrowError::DerivedIdentity);
    }
    let target = match ledger.token_account(&accounts.maker_ata_a) {
        Some(target) => target,
        None => {
            return Err(EscrowError::AccountNotFound);
        },
    };
    if ledger.token_account(&accounts.vault).is_none() {
        return Err(EscrowError::AccountNotFound);
    }
    if target.owner != accounts.maker {
        return Err(EscrowError::InvalidOwner);
    }
    if target.mint != record.token_mint_a {
        return Err(EscrowError::InvalidMint);
    }
    if !is_associated_address(&accounts.maker_ata_a, &accounts.maker, &record.token_mint_a) {
        return Err(EscrowError::InvalidTokenAccount);
    }
    if accounts.vault != record.vault {
        return Err(EscrowError::InvalidVault);
    }
    if target.amount > u64::MAX - record.token_a_offered_amount {
        return Err(EscrowError::Overflow);
    }
    proof {
        lemma_refund_keeps_consistent(ledger@, *accounts);
    }
    ledger.put_token_account(
        accounts.maker_ata_a,
        TokenAccount {
            mint: target.mint,
            owner: target.owner,
            amount: target.amount + record.token_a_offered_amount,
        },
    );
    ledger.close_token_account(&accounts.vault);
    ledger.close_record(&accounts.escrow);
    Ok(())
}

} // verus!
