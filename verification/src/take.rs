//! Take: a counterpart pays the amount wanted and receives what was locked.

use crate::accounts::TakeEscrow;
use crate::address::associated_address;
use crate::address::is_associated_address;
use crate::address::Address;
use crate::error::EscrowError;
use crate::ledger::Ledger;
use crate::ledger::LedgerView;
use crate::state::TokenAccount;
use vstd::prelude::*;

verus! {

/// The token accounts once the taker has paid the maker the amount wanted.
pub open spec fn after_payment(s: LedgerView, a: TakeEscrow) -> Map<Address, TokenAccount> {
    LedgerView::credit(
        LedgerView::debit(s.tokens, a.taker_ata_b, s.records[a.escrow].token_b_wanted_amount),
        a.maker_ata_b,
        s.records[a.escrow].token_b_wanted_amount,
    )
}

/// Whether the accounts of a take exist and are the ones that the record and
/// the parties command; if not, the first check that fails.
pub open spec fn take_references(s: LedgerView, a: TakeEscrow) -> Result<(), EscrowError> {
    let record = s.records[a.escrow];
    if !s.tokens.contains_key(a.taker_ata_a) || !s.tokens.contains_key(a.taker_ata_b)
        || !s.tokens.contains_key(a.maker_ata_b) || !s.tokens.contains_key(a.vault) {
        Err(EscrowError::AccountNotFound)
    } else if a.maker != record.maker {
        Err(EscrowError::InvalidMaker)
    } else if s.tokens[a.taker_ata_a].owner != a.taker {
        Err(EscrowError::InvalidOwner)
    } else if s.tokens[a.taker_ata_a].mint != record.token_mint_a {
        Err(EscrowError::InvalidMint)
    } else if associated_address(a.taker, record.token_mint_a) != Some(a.taker_ata_a@) {
        Err(EscrowError::InvalidTokenAccount)
    } else if s.tokens[a.taker_ata_b].owner != a.taker {
        Err(EscrowError::InvalidOwner)
    } else if s.tokens[a.taker_ata_b].mint != record.token_mint_b {
        Err(EscrowError::InvalidMint)
    } else if associated_address(a.taker, record.token_mint_b) != Some(a.taker_ata_b@) {
        Err(EscrowError::InvalidTokenAccount)
    } else if s.tokens[a.maker_ata_b].owner != a.maker {
        Err(EscrowError::InvalidOwner)
    } else if s.tokens[a.maker_ata_b].mint != record.token_mint_b {
        Err(EscrowError::InvalidMint)
    } else if associated_address(a.maker, record.token_mint_b) != Some(a.maker_ata_b@) {
        Err(EscrowError::InvalidTokenAccount)
    } else if a.vault != record.vault {
        Err(EscrowError::InvalidVault)
    } else {
        Ok(())
    }
}

/// Whether a take with these accounts is accepted on the ledger `s`, and if
/// not, the first check that it fails.
pub open spec fn take_outcome(s: LedgerView, a: TakeEscrow) -> Result<(), EscrowError> {
    if !s.records.contains_key(a.escrow) {
        Err(EscrowError::AccountNotFound)
    } else if a.taker == s.records[a.escrow].maker {
        Err(EscrowError::InvalidTaker)
    } else if s.records.contains_key(a.taker) {
        Err(EscrowError::DerivedIdentity)
    } else if take_references(s, a) is Err {
        take_references(s, a)
    } else if s.records.contains_key(a.maker) {
        Err(EscrowError::DerivedIdentity)
    } else if s.tokens[a.taker_ata_b].amount < s.records[a.escrow].token_b_wanted_amount {
        Err(EscrowError::InsufficientFunds)
    } else if s.tokens[a.maker_ata_b].amount + s.records[a.escrow].token_b_wanted_amount
        > u64::MAX {
        Err(EscrowError::Overflow)
    } else if after_payment(s, a)[a.taker_ata_a].amount
        + s.records[a.escrow].token_a_offered_amount > u64::MAX {
        Err(EscrowError::Overflow)
    } else {
        Ok(())
    }
}

/// The ledger after an accepted take: the amount wanted has moved from the
/// taker to the maker, the amount offered has reached the taker, and the
/// vault and the record are gone.
pub open spec fn take_effect(s: LedgerView, a: TakeEscrow) -> LedgerView {
    LedgerView {
        program_id: s.program_id,
        tokens: LedgerView::credit(
            after_payment(s, a),
            a.taker_ata_a,
            s.records[a.escrow].token_a_offered_amount,
        ).remove(a.vault),
        records: s.records.remove(a.escrow),
    }
}

/// An accepted take keeps the ledger in order.
pub proof fn lemma_take_keeps_consistent(s: LedgerView, a: TakeEscrow)
    requires
        s.consistent(),
        take_outcome(s, a) is Ok,
    ensures
        take_effect(s, a).consistent(),
{
    let t = take_effect(s, a);
    assert(s.backed(a.escrow));
    assert forall|k: Address| #[trigger] t.records.contains_key(k) implies t.backed(k) by {
        assert(s.records.contains_key(k));
        assert(s.backed(k));
    }
}

/// Checks the accounts of a take against the record and the parties.
fn check_take_references(ledger: &Ledger, accounts: &TakeEscrow) -> (r: Result<(), EscrowError>)
    requires
        ledger.wf(),
        ledger@.records.contains_key(accounts.escrow),
    ensures
        r == take_references(ledger@, *accounts),
{
    let record = match ledger.record(&accounts.escrow) {
        Some(record) => record,
        None => {
            return Err(EscrowError::AccountNotFound);
        },
    };
    let taker_a = match ledger.token_account(&accounts.taker_ata_a) {
        Some(account) => account,
        None => {
            return Err(EscrowError::AccountNotFound);
        },
    };
    let taker_b = match ledger.token_account(&accounts.taker_ata_b) {
        Some(account) => account,
        None => {
            return Err(EscrowError::AccountNotFound);
        },
    };
    let maker_b = match ledger.token_account(&accounts.maker_ata_b) {
        Some(account) => account,
        None => {
            return Err(EscrowError::AccountNotFound);
        },
    };
    if ledger.token_account(&accounts.vault).is_none() {
        return Err(EscrowError::AccountNotFound);
    }
    if accounts.maker != record.maker {
        return Err(EscrowError::InvalidMaker);
    }
    if taker_a.owner != accounts.taker {
        return Err(EscrowError::InvalidOwner);
    }
    if taker_a.mint != record.token_mint_a {
        return Err(EscrowError::InvalidMint);
    }
    if !is_associated_address(&accounts.taker_ata_a, &accounts.taker, &record.token_mint_a) {
        return Err(EscrowError::InvalidTokenAccount);
    }
    if taker_b.owner != accounts.taker {
        return Err(EscrowError::InvalidOwner);
    }
    if taker_b.mint != record.token_mint_b {
        return Err(EscrowError::InvalidMint);
    }
    if !is_associated_address(&accounts.taker_ata_b, &accounts.taker, &record.token_mint_b) {
        return Err(EscrowError::InvalidTokenAccount);
    }
    if maker_b.owner != accounts.maker {
        return Err(EscrowError::InvalidOwner);
    }
    if maker_b.mint != record.token_mint_b {
        return Err(EscrowError::InvalidMint);
    }
    if !is_associated_address(&accounts.maker_ata_b, &accounts.maker, &record.token_mint_b) {
        return Err(EscrowError::InvalidTokenAccount);
    }
    if accounts.vault != record.vault {
        return Err(EscrowError::InvalidVault);
    }
    Ok(())
}

/// Takes the offer recorded at `accounts.escrow`. Anyone but its maker may do
/// so. The amount wanted moves from the taker to the maker, then the whole of
/// the vault moves to the taker; the vault and the record are destroyed. A
/// rejected take changes nothing.
pub fn take_escrow(ledger: &mut Ledger, accounts: &TakeEscrow) -> (r: Result<(), EscrowError>)
    requires
        old(ledger).wf(),
    ensures
        final(ledger).wf(),
        r == take_outcome(old(ledger)@, *accounts),
        r is Err ==> final(ledger)@ == old(ledger)@,
        r is Ok ==> final(ledger)@ == take_effect(old(ledger)@, *accounts),
{
    let record = match ledger.record(&accounts.escrow) {
        Some(record) => record,
        None => {
            return Err(EscrowError::AccountNotFound);
        },
    };
    if accounts.taker == record.maker {
        return Err(EscrowError::InvalidTaker);
    }
    if ledger.record(&accounts.taker).is_some() {
        return Err(EscrowError::DerivedIdentity);
    }
    match check_take_references(ledger, accounts) {
        Ok(()) => {},
        Err(e) => {
            return Err(e);
        },
    }
    if ledger.record(&accounts.maker).is_some() {
        return Err(EscrowError::DerivedIdentity);
    }
    let taker_b = match ledger.token_account(&accounts.taker_ata_b) {
        Some(account) => account,
        None => {
            return Err(EscrowError::AccountNotFound);
        },
    };
    let maker_b = match ledger.token_account(&accounts.maker_ata_b) {
        Some(account) => account,
        None => {
            return Err(EscrowError::AccountNotFound);
        },
    };
    if taker_b.amount < record.token_b_wanted_amount {
        return Err(EscrowError::InsufficientFunds);
    }
    if maker_b.amount > u64::MAX - record.token_b_wanted_amount {
        return Err(EscrowError::Overflow);
    }
    let taker_a = match ledger.token_account(&accounts.taker_ata_a) {
        Some(account) => account,
        None => {
            return Err(EscrowError::AccountNotFound);
        },
    };
    let held: u64 = if accounts.taker_ata_a == accounts.taker_ata_b {
        taker_b.amount - record.token_b_wanted_amount
    } else {
        taker_a.amount
    };
    assert(held == after_payment(ledger@, *accounts)[accounts.taker_ata_a].amount);
    if held > u64::MAX - record.token_a_offered_amount {
        return Err(EscrowError::Overflow);
    }
    proof {
        lemma_take_keeps_consistent(ledger@, *accounts);
    }
    ledger.put_token_account(
        accounts.taker_ata_b,
        TokenAccount {
            mint: taker_b.mint,
            owner: taker_b.owner,
            amount: taker_b.amount - record.token_b_wanted_amount,
        },
    );
    ledger.put_token_account(
        accounts.maker_ata_b,
        TokenAccount {
            mint: maker_b.mint,
            owner: maker_b.owner,
            amount: maker_b.amount + record.token_b_wanted_amount,
        },
    );
    ledger.put_token_account(
        accounts.taker_ata_a,
        TokenAccount {
            mint: taker_a.mint,
            owner: taker_a.owner,
            amount: held + record.token_a_offered_amount,
        },
    );
    ledger.close_token_account(&accounts.vault);
    ledger.close_record(&accounts.escrow);
    Ok(())
}

} // verus!
