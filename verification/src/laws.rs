//! What holds of the three operations together, proved over the ledger's view.

use crate::accounts::Initialize;
use crate::accounts::Refund;
use crate::accounts::TakeEscrow;
use crate::address::associated_address;
use crate::address::lemma_address_by_bytes;
use crate::address::record_address;
use crate::address::record_seeds;
use crate::address::Address;
use crate::error::ErrorClass;
use crate::error::EscrowError;
use crate::initialize::initialize_effect;
use crate::initialize::initialize_outcome;
use crate::ledger::LedgerView;
use crate::refund::refund_effect;
use crate::refund::refund_outcome;
use crate::take::take_effect;
use crate::take::take_outcome;
use vstd::bytes::lemma_auto_spec_u64_to_from_le_bytes;
use vstd::bytes::spec_u64_to_le_bytes;
use vstd::prelude::*;

verus! {

/// An accepted offer funds the vault with exactly the amount offered, and the
/// maker's paying account goes down by exactly that amount. The record then
/// exists with the terms given.
pub proof fn law_initialize_funds_vault(
    s: LedgerView,
    a: Initialize,
    id: u64,
    offered: u64,
    wanted: u64,
)
    requires
        s.consistent(),
        initialize_outcome(s, a, id, offered) is Ok,
    ensures
        ({
            let t = initialize_effect(s, a, id, offered, wanted);
            &&& !s.records.contains_key(a.escrow)
            &&& !s.tokens.contains_key(a.vault)
            &&& t.records.contains_key(a.escrow)
            &&& t.records[a.escrow].maker == a.maker
            &&& t.records[a.escrow].id == id
            &&& t.records[a.escrow].token_a_offered_amount == offered
            &&& t.records[a.escrow].token_b_wanted_amount == wanted
            &&& t.records[a.escrow].vault == a.vault
            &&& t.tokens.contains_key(a.vault)
            &&& t.tokens[a.vault].amount == offered
            &&& t.tokens[a.vault].owner == a.escrow
            &&& t.tokens[a.maker_ata_a].amount == s.tokens[a.maker_ata_a].amount - offered
        }),
{
}

/// While a record lives, its vault exists and holds exactly the amount
/// offered, under the record's own address and no party's.
pub proof fn law_vault_holds_offer(s: LedgerView, escrow: Address)
    requires
        s.consistent(),
        s.records.contains_key(escrow),
    ensures
        s.tokens.contains_key(s.records[escrow].vault),
        s.tokens[s.records[escrow].vault].amount == s.records[escrow].token_a_offered_amount,
        s.tokens[s.records[escrow].vault].mint == s.records[escrow].token_mint_a,
        s.tokens[s.records[escrow].vault].owner == escrow,
{
    assert(s.backed(escrow));
}

/// A refund called by anyone but the maker of the record is rejected with an
/// authorization failure.
pub proof fn law_refund_is_maker_only(s: LedgerView, a: Refund)
    requires
        s.records.contains_key(a.escrow),
        a.maker != s.records[a.escrow].maker,
    ensures
        refund_outcome(s, a) == Err::<(), EscrowError>(EscrowError::NotMaker),
        EscrowError::NotMaker.class_of() == ErrorClass::Authorization,
{
}

/// An accepted refund raises the maker's receiving account by exactly the
/// amount offered, which is what the vault held; the vault and the record
/// exist no longer.
pub proof fn law_refund_returns_offer(s: LedgerView, a: Refund)
    requires
        s.consistent(),
        refund_outcome(s, a) is Ok,
    ensures
        ({
            let t = refund_effect(s, a);
            &&& s.tokens[a.vault].amount == s.records[a.escrow].token_a_offered_amount
            &&& t.tokens.contains_key(a.maker_ata_a)
            &&& t.tokens[a.maker_ata_a].amount == s.tokens[a.maker_ata_a].amount
                + s.records[a.escrow].token_a_offered_amount
            &&& !t.tokens.contains_key(a.vault)
            &&& !t.records.contains_key(a.escrow)
        }),
{
    assert(s.backed(a.escrow));
}

/// A refund with the accounts of an offer just accepted is accepted in turn,
/// and leaves the ledger as it was before the offer.
pub proof fn law_refund_undoes_initialize(
    s: LedgerView,
    a: Initialize,
    id: u64,
    offered: u64,
    wanted: u64,
)
    requires
        s.consistent(),
        initialize_outcome(s, a, id, offered) is Ok,
    ensures
        ({
            let back = Refund {
                maker: a.maker,
                escrow: a.escrow,
                maker_ata_a: a.maker_ata_a,
                vault: a.vault,
            };
            let t = initialize_effect(s, a, id, offered, wanted);
            &&& refund_outcome(t, back) is Ok
            &&& refund_effect(t, back) == s
        }),
{
    let back = Refund {
        maker: a.maker,
        escrow: a.escrow,
        maker_ata_a: a.maker_ata_a,
        vault: a.vault,
    };
    let t = initialize_effect(s, a, id, offered, wanted);
    let u = refund_effect(t, back);
    assert(a.maker != a.escrow) by {
        lemma_address_by_bytes(a.maker_ata_a, a.vault);
    }
    assert(u.tokens =~= s.tokens);
    assert(u.records =~= s.records);
}

/// A take called by the maker of the record is rejected as an invalid taker,
/// whatever else the accounts hold.
pub proof fn law_take_rejects_maker(s: LedgerView, a: TakeEscrow)
    requires
        s.records.contains_key(a.escrow),
        a.taker == s.records[a.escrow].maker,
    ensures
        take_outcome(s, a) == Err::<(), EscrowError>(EscrowError::InvalidTaker),
        EscrowError::InvalidTaker.class_of() == ErrorClass::Authorization,
{
}

/// An accepted take raises the maker's account of the asset wanted by exactly
/// the amount wanted and lowers the taker's by the same; the vault and the
/// record exist no longer. Where the taker receives the asset offered in
/// another account than the one that paid, that account goes up by exactly
/// the amount offered.
pub proof fn law_take_is_bilateral(s: LedgerView, a: TakeEscrow)
    requires
        s.consistent(),
        take_outcome(s, a) is Ok,
    ensures
        ({
            let t = take_effect(s, a);
            let r = s.records[a.escrow];
            &&& s.tokens[a.taker_ata_b].amount >= r.token_b_wanted_amount
            &&& s.tokens[a.vault].amount == r.token_a_offered_amount
            &&& t.tokens[a.maker_ata_b].amount == s.tokens[a.maker_ata_b].amount
                + r.token_b_wanted_amount
            &&& a.taker_ata_a != a.taker_ata_b ==> {
                &&& t.tokens[a.taker_ata_a].amount == s.tokens[a.taker_ata_a].amount
                    + r.token_a_offered_amount
                &&& t.tokens[a.taker_ata_b].amount == s.tokens[a.taker_ata_b].amount
                    - r.token_b_wanted_amount
            }
            &&& a.taker_ata_a == a.taker_ata_b ==> t.tokens[a.taker_ata_a].amount
                == s.tokens[a.taker_ata_a].amount - r.token_b_wanted_amount
                + r.token_a_offered_amount
            &&& !t.tokens.contains_key(a.vault)
            &&& !t.records.contains_key(a.escrow)
        }),
{
    assert(s.backed(a.escrow));
}

/// A take whose paying account holds less than the amount wanted is rejected,
/// and the vault of the record holds the amount offered as before.
pub proof fn law_take_fails_closed(s: LedgerView, a: TakeEscrow)
    requires
        s.consistent(),
        s.records.contains_key(a.escrow),
        s.tokens[a.taker_ata_b].amount < s.records[a.escrow].token_b_wanted_amount,
    ensures
        take_outcome(s, a) is Err,
        s.tokens[s.records[a.escrow].vault].amount == s.records[a.escrow].token_a_offered_amount,
{
    assert(s.backed(a.escrow));
}

/// Once a refund has been accepted, no refund and no take of the same record
/// is: the record does not exist.
pub proof fn law_nothing_follows_refund(s: LedgerView, a: Refund, again: Refund, take: TakeEscrow)
    requires
        refund_outcome(s, a) is Ok,
        again.escrow == a.escrow,
        take.escrow == a.escrow,
    ensures
        refund_outcome(refund_effect(s, a), again) == Err::<(), EscrowError>(
            EscrowError::AccountNotFound,
        ),
        take_outcome(refund_effect(s, a), take) == Err::<(), EscrowError>(
            EscrowError::AccountNotFound,
        ),
{
}

/// Once a take has been accepted, no take and no refund of the same record
/// is: the record does not exist.
pub proof fn law_nothing_follows_take(s: LedgerView, a: TakeEscrow, again: TakeEscrow, refund: Refund)
    requires
        take_outcome(s, a) is Ok,
        again.escrow == a.escrow,
        refund.escrow == a.escrow,
    ensures
        take_outcome(take_effect(s, a), again) == Err::<(), EscrowError>(
            EscrowError::AccountNotFound,
        ),
        refund_outcome(take_effect(s, a), refund) == Err::<(), EscrowError>(
            EscrowError::AccountNotFound,
        ),
{
}

/// An offer under a maker and identifier whose record lives is rejected: the
/// address is in use, or it is not the one supplied.
pub proof fn law_initialize_once(s: LedgerView, a: Initialize, id: u64, offered: u64, k: Address)
    requires
        s.consistent(),
        s.records.contains_key(k),
        s.records[k].maker == a.maker,
        s.records[k].id == id,
    ensures
        initialize_outcome(s, a, id, offered) is Err,
{
    assert(s.backed(k));
    lemma_address_by_bytes(k, a.escrow);
}

/// Two records that live on one ledger under the same maker and identifier
/// are one record: the pair decides the address.
pub proof fn law_one_record_per_offer(s: LedgerView, k1: Address, k2: Address)
    requires
        s.consistent(),
        s.records.contains_key(k1),
        s.records.contains_key(k2),
        s.records[k1].maker == s.records[k2].maker,
        s.records[k1].id == s.records[k2].id,
    ensures
        k1 == k2,
        s.records[k1].vault == s.records[k2].vault,
{
    assert(s.backed(k1));
    assert(s.backed(k2));
    lemma_address_by_bytes(k1, k2);
}

/// The address at which every record lives, and the witness it stores, are
/// the ones derived from its maker and its identifier.
pub proof fn law_record_sits_at_derived_address(s: LedgerView, k: Address)
    requires
        s.consistent(),
        s.records.contains_key(k),
    ensures
        record_address(s.program_id, s.records[k].maker, s.records[k].id) == Some(
            (k@, s.records[k].bump),
        ),
{
    assert(s.backed(k));
}

/// Deriving the address of a record twice from one maker and identifier
/// gives one address and one witness; so does deriving a vault's address
/// twice from one record and asset.
pub proof fn law_derivation_is_stable(
    program_id: Address,
    maker: Address,
    id: u64,
    mint: Address,
    first: (Address, u8),
    second: (Address, u8),
    first_vault: Address,
    second_vault: Address,
)
    requires
        record_address(program_id, maker, id) == Some((first.0@, first.1)),
        record_address(program_id, maker, id) == Some((second.0@, second.1)),
        associated_address(first.0, mint) == Some(first_vault@),
        associated_address(second.0, mint) == Some(second_vault@),
    ensures
        first == second,
        first_vault == second_vault,
{
    lemma_address_by_bytes(first.0, second.0);
    lemma_address_by_bytes(first_vault, second_vault);
}

/// Offers that differ in their maker or in their identifier differ in the
/// seeds that their addresses are derived from.
pub proof fn law_seeds_tell_offers_apart(maker1: Address, id1: u64, maker2: Address, id2: u64)
    requires
        maker1 != maker2 || id1 != id2,
    ensures
        record_seeds(maker1, id1) != record_seeds(maker2, id2),
{
    if record_seeds(maker1, id1) == record_seeds(maker2, id2) {
        assert(record_seeds(maker1, id1)[1] == maker1@);
        assert(record_seeds(maker2, id2)[1] == maker2@);
        assert(record_seeds(maker1, id1)[2] == spec_u64_to_le_bytes(id1));
        assert(record_seeds(maker2, id2)[2] == spec_u64_to_le_bytes(id2));
        lemma_address_by_bytes(maker1, maker2);
        lemma_auto_spec_u64_to_from_le_bytes();
    }
}

} // verus!
