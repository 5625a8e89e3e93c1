use escrow::address::derive_associated_address;
use escrow::address::derive_record_address;
use escrow::initialize;
use escrow::refund;
use escrow::take_escrow;
use escrow::Address;
use escrow::ErrorClass;
use escrow::EscrowError;
use escrow::EscrowState;
use escrow::Initialize;
use escrow::Ledger;
use escrow::Refund;
use escrow::TakeEscrow;
use escrow::TokenAccount;

fn key(n: u8) -> Address {
    Address::new([n; 32])
}

fn program() -> Address {
    key(200)
}

fn maker() -> Address {
    key(1)
}

fn taker() -> Address {
    key(2)
}

fn mint_a() -> Address {
    key(10)
}

fn mint_b() -> Address {
    key(11)
}

fn balance(ledger: &Ledger, at: &Address) -> u64 {
    ledger.token_account(at).unwrap().amount
}

/// A ledger on which the maker holds 1000 of the asset offered and 5 of the
/// asset wanted, and the taker 7 of the asset offered and 300 of the asset
/// wanted; with the accounts of the maker's offer under the identifier 42.
fn funded() -> (Ledger, Initialize) {
    let mut ledger = Ledger::new(program());
    let maker_ata_a = ledger.open_token_account(maker(), mint_a(), 1000).unwrap();
    ledger.open_token_account(maker(), mint_b(), 5).unwrap();
    ledger.open_token_account(taker(), mint_a(), 7).unwrap();
    ledger.open_token_account(taker(), mint_b(), 300).unwrap();
    let escrow = derive_record_address(&program(), &maker(), 42).unwrap().0;
    let vault = derive_associated_address(&escrow, &mint_a()).unwrap();
    let accounts = Initialize {
        maker: maker(),
        mint_a: mint_a(),
        mint_b: mint_b(),
        maker_ata_a,
        escrow,
        vault,
    };
    (ledger, accounts)
}

/// The ledger of `funded` with the offer made: 400 offered against 250.
fn offered() -> (Ledger, Initialize) {
    let (mut ledger, accounts) = funded();
    assert_eq!(initialize(&mut ledger, &accounts, 42, 400, 250), Ok(()));
    (ledger, accounts)
}

fn refund_accounts(offer: &Initialize) -> Refund {
    Refund {
        maker: offer.maker,
        escrow: offer.escrow,
        maker_ata_a: offer.maker_ata_a,
        vault: offer.vault,
    }
}

fn take_accounts(offer: &Initialize) -> TakeEscrow {
    TakeEscrow {
        taker: taker(),
        maker: offer.maker,
        escrow: offer.escrow,
        taker_ata_a: derive_associated_address(&taker(), &mint_a()).unwrap(),
        taker_ata_b: derive_associated_address(&taker(), &mint_b()).unwrap(),
        maker_ata_b: derive_associated_address(&maker(), &mint_b()).unwrap(),
        vault: offer.vault,
    }
}

fn assert_offer_untouched(ledger: &Ledger, offer: &Initialize) {
    let take = take_accounts(offer);
    assert!(ledger.record(&offer.escrow).is_some());
    assert_eq!(balance(ledger, &offer.vault), 400);
    assert_eq!(balance(ledger, &offer.maker_ata_a), 600);
    assert_eq!(balance(ledger, &take.maker_ata_b), 5);
    assert_eq!(balance(ledger, &take.taker_ata_a), 7);
    assert_eq!(balance(ledger, &take.taker_ata_b), 300);
}

#[test]
fn new_ledger_is_empty() {
    let ledger = Ledger::new(program());
    assert!(ledger.program_id() == program());
    assert_eq!(ledger.token_account(&key(1)), None);
    assert_eq!(ledger.record(&key(1)), None);
}

#[test]
fn open_token_account_sits_at_the_associated_address() {
    let mut ledger = Ledger::new(program());
    let at = ledger.open_token_account(maker(), mint_a(), 12).unwrap();
    assert!(at == derive_associated_address(&maker(), &mint_a()).unwrap());
    assert_eq!(
        ledger.token_account(&at),
        Some(TokenAccount { mint: mint_a(), owner: maker(), amount: 12 })
    );
    assert_eq!(
        ledger.open_token_account(maker(), mint_a(), 1),
        Err(EscrowError::AlreadyInUse)
    );
    assert_eq!(balance(&ledger, &at), 12);
}

#[test]
fn insert_token_account_refuses_a_taken_address() {
    let mut ledger = Ledger::new(program());
    let account = TokenAccount { mint: mint_a(), owner: maker(), amount: 3 };
    assert_eq!(ledger.insert_token_account(key(50), account), Ok(()));
    assert_eq!(ledger.token_account(&key(50)), Some(account));
    let other = TokenAccount { mint: mint_b(), owner: taker(), amount: 9 };
    assert_eq!(ledger.insert_token_account(key(50), other), Err(EscrowError::AlreadyInUse));
    assert_eq!(ledger.token_account(&key(50)), Some(account));
}

#[test]
fn initialize_funds_the_vault_with_the_amount_offered() {
    let (mut ledger, accounts) = funded();
    assert_eq!(initialize(&mut ledger, &accounts, 42, 400, 250), Ok(()));
    assert_eq!(
        ledger.token_account(&accounts.vault),
        Some(TokenAccount { mint: mint_a(), owner: accounts.escrow, amount: 400 })
    );
    assert_eq!(balance(&ledger, &accounts.maker_ata_a), 600);
    let bump = derive_record_address(&program(), &maker(), 42).unwrap().1;
    assert_eq!(
        ledger.record(&accounts.escrow),
        Some(EscrowState {
            id: 42,
            maker: maker(),
            token_mint_a: mint_a(),
            token_mint_b: mint_b(),
            token_a_offered_amount: 400,
            token_b_wanted_amount: 250,
            vault: accounts.vault,
            bump,
        })
    );
}

#[test]
fn initialize_accepts_the_whole_balance_and_zero() {
    let (mut ledger, accounts) = funded();
    assert_eq!(initialize(&mut ledger, &accounts, 42, 1000, 0), Ok(()));
    assert_eq!(balance(&ledger, &accounts.vault), 1000);
    assert_eq!(balance(&ledger, &accounts.maker_ata_a), 0);
    let (mut ledger, accounts) = funded();
    assert_eq!(initialize(&mut ledger, &accounts, 42, 0, 0), Ok(()));
    assert_eq!(balance(&ledger, &accounts.vault), 0);
    assert_eq!(balance(&ledger, &accounts.maker_ata_a), 1000);
}

#[test]
fn initialize_twice_fails_with_the_uniqueness_error() {
    let (mut ledger, accounts) = offered();
    assert_eq!(
        initialize(&mut ledger, &accounts, 42, 100, 1),
        Err(EscrowError::AlreadyInUse)
    );
    assert_offer_untouched(&ledger, &accounts);
    assert_eq!(ledger.record(&accounts.escrow).unwrap().token_a_offered_amount, 400);
}

#[test]
fn initialize_under_a_second_id_runs_beside_the_first() {
    let (mut ledger, first) = offered();
    let escrow = derive_record_address(&program(), &maker(), 43).unwrap().0;
    let vault = derive_associated_address(&escrow, &mint_a()).unwrap();
    let second = Initialize { escrow, vault, ..first };
    assert!(second.escrow != first.escrow);
    assert_eq!(initialize(&mut ledger, &second, 43, 100, 9), Ok(()));
    assert_eq!(balance(&ledger, &first.vault), 400);
    assert_eq!(balance(&ledger, &second.vault), 100);
    assert_eq!(balance(&ledger, &first.maker_ata_a), 500);
}

#[test]
fn initialize_with_insufficient_funds_changes_nothing() {
    let (mut ledger, accounts) = funded();
    assert_eq!(
        initialize(&mut ledger, &accounts, 42, 1001, 250),
        Err(EscrowError::InsufficientFunds)
    );
    assert_eq!(ledger.record(&accounts.escrow), None);
    assert_eq!(ledger.token_account(&accounts.vault), None);
    assert_eq!(balance(&ledger, &accounts.maker_ata_a), 1000);
}

#[test]
fn initialize_checks_the_derived_addresses() {
    let (mut ledger, accounts) = funded();
    let wrong_record = Initialize { escrow: key(77), ..accounts };
    assert_eq!(
        initialize(&mut ledger, &wrong_record, 42, 400, 250),
        Err(EscrowError::InvalidRecordAddress)
    );
    assert_eq!(
        initialize(&mut ledger, &accounts, 41, 400, 250),
        Err(EscrowError::InvalidRecordAddress)
    );
    let wrong_vault = Initialize { vault: key(78), ..accounts };
    assert_eq!(
        initialize(&mut ledger, &wrong_vault, 42, 400, 250),
        Err(EscrowError::InvalidVault)
    );
    assert_eq!(ledger.record(&accounts.escrow), None);
    assert_eq!(balance(&ledger, &accounts.maker_ata_a), 1000);
}

#[test]
fn initialize_checks_the_paying_account() {
    let (mut ledger, accounts) = funded();
    let missing = Initialize { maker_ata_a: key(79), ..accounts };
    assert_eq!(
        initialize(&mut ledger, &missing, 42, 400, 250),
        Err(EscrowError::AccountNotFound)
    );
    let someone_elses = Initialize {
        maker_ata_a: derive_associated_address(&taker(), &mint_a()).unwrap(),
        ..accounts
    };
    assert_eq!(
        initialize(&mut ledger, &someone_elses, 42, 4, 250),
        Err(EscrowError::InvalidOwner)
    );
    let other_asset = Initialize {
        maker_ata_a: derive_associated_address(&maker(), &mint_b()).unwrap(),
        ..accounts
    };
    assert_eq!(
        initialize(&mut ledger, &other_asset, 42, 4, 250),
        Err(EscrowError::InvalidMint)
    );
    let stray = TokenAccount { mint: mint_a(), owner: maker(), amount: 500 };
    assert_eq!(ledger.insert_token_account(key(80), stray), Ok(()));
    let not_associated = Initialize { maker_ata_a: key(80), ..accounts };
    assert_eq!(
        initialize(&mut ledger, &not_associated, 42, 400, 250),
        Err(EscrowError::InvalidTokenAccount)
    );
    assert_eq!(balance(&ledger, &key(80)), 500);
    assert_eq!(ledger.record(&accounts.escrow), None);
}

#[test]
fn initialize_fails_where_the_vault_address_is_taken() {
    let (mut ledger, accounts) = funded();
    let squatter = TokenAccount { mint: mint_a(), owner: accounts.escrow, amount: 0 };
    assert_eq!(ledger.insert_token_account(accounts.vault, squatter), Ok(()));
    assert_eq!(
        initialize(&mut ledger, &accounts, 42, 400, 250),
        Err(EscrowError::AlreadyInUse)
    );
    assert_eq!(ledger.record(&accounts.escrow), None);
    assert_eq!(balance(&ledger, &accounts.maker_ata_a), 1000);
}

#[test]
fn a_record_address_cannot_act_as_a_party() {
    let (mut ledger, offer) = offered();
    let puppet_ata = ledger.open_token_account(offer.escrow, mint_b(), 50).unwrap();
    let escrow = derive_record_address(&program(), &offer.escrow, 1).unwrap().0;
    let vault = derive_associated_address(&escrow, &mint_b()).unwrap();
    let accounts = Initialize {
        maker: offer.escrow,
        mint_a: mint_b(),
        mint_b: mint_a(),
        maker_ata_a: puppet_ata,
        escrow,
        vault,
    };
    assert_eq!(
        initialize(&mut ledger, &accounts, 1, 10, 10),
        Err(EscrowError::DerivedIdentity)
    );
    let take = TakeEscrow { taker: offer.escrow, ..take_accounts(&offer) };
    assert_eq!(take_escrow(&mut ledger, &take), Err(EscrowError::DerivedIdentity));
    assert_offer_untouched(&ledger, &offer);
}

#[test]
fn refund_returns_what_was_locked() {
    let (mut ledger, offer) = offered();
    assert_eq!(refund(&mut ledger, &refund_accounts(&offer)), Ok(()));
    assert_eq!(balance(&ledger, &offer.maker_ata_a), 1000);
    assert_eq!(ledger.token_account(&offer.vault), None);
    assert_eq!(ledger.record(&offer.escrow), None);
}

#[test]
fn refund_is_maker_only() {
    let (mut ledger, offer) = offered();
    let accounts = Refund {
        maker: taker(),
        maker_ata_a: derive_associated_address(&taker(), &mint_a()).unwrap(),
        ..refund_accounts(&offer)
    };
    let r = refund(&mut ledger, &accounts);
    assert_eq!(r, Err(EscrowError::NotMaker));
    assert_eq!(EscrowError::NotMaker.class(), ErrorClass::Authorization);
    assert_offer_untouched(&ledger, &offer);
}

#[test]
fn refund_checks_its_references() {
    let (mut ledger, offer) = offered();
    let good = refund_accounts(&offer);
    assert_eq!(
        refund(&mut ledger, &Refund { escrow: key(90), ..good }),
        Err(EscrowError::AccountNotFound)
    );
    assert_eq!(
        refund(&mut ledger, &Refund { vault: key(91), ..good }),
        Err(EscrowError::AccountNotFound)
    );
    assert_eq!(
        refund(&mut ledger, &Refund { maker_ata_a: key(92), ..good }),
        Err(EscrowError::AccountNotFound)
    );
    let other_vault = derive_associated_address(&taker(), &mint_a()).unwrap();
    assert_eq!(
        refund(&mut ledger, &Refund { vault: other_vault, ..good }),
        Err(EscrowError::InvalidVault)
    );
    let other_asset = derive_associated_address(&maker(), &mint_b()).unwrap();
    assert_eq!(
        refund(&mut ledger, &Refund { maker_ata_a: other_asset, ..good }),
        Err(EscrowError::InvalidMint)
    );
    assert_eq!(
        refund(&mut ledger, &Refund { maker_ata_a: other_vault, ..good }),
        Err(EscrowError::InvalidOwner)
    );
    let stray = TokenAccount { mint: mint_a(), owner: maker(), amount: 0 };
    assert_eq!(ledger.insert_token_account(key(93), stray), Ok(()));
    assert_eq!(
        refund(&mut ledger, &Refund { maker_ata_a: key(93), ..good }),
        Err(EscrowError::InvalidTokenAccount)
    );
    assert_offer_untouched(&ledger, &offer);
}

#[test]
fn refund_restores_the_largest_balance() {
    let mut ledger = Ledger::new(program());
    let maker_ata_a = ledger.open_token_account(maker(), mint_a(), u64::MAX).unwrap();
    let escrow = derive_record_address(&program(), &maker(), 1).unwrap().0;
    let vault = derive_associated_address(&escrow, &mint_a()).unwrap();
    let offer = Initialize {
        maker: maker(),
        mint_a: mint_a(),
        mint_b: mint_b(),
        maker_ata_a,
        escrow,
        vault,
    };
    assert_eq!(initialize(&mut ledger, &offer, 1, 10, 1), Ok(()));
    assert_eq!(balance(&ledger, &maker_ata_a), u64::MAX - 10);
    assert_eq!(refund(&mut ledger, &refund_accounts(&offer)), Ok(()));
    assert_eq!(balance(&ledger, &maker_ata_a), u64::MAX);
}

#[test]
fn take_is_bilateral() {
    let (mut ledger, offer) = offered();
    let accounts = take_accounts(&offer);
    assert_eq!(take_escrow(&mut ledger, &accounts), Ok(()));
    assert_eq!(balance(&ledger, &accounts.maker_ata_b), 5 + 250);
    assert_eq!(balance(&ledger, &accounts.taker_ata_a), 7 + 400);
    assert_eq!(balance(&ledger, &accounts.taker_ata_b), 300 - 250);
    assert_eq!(balance(&ledger, &offer.maker_ata_a), 600);
    assert_eq!(ledger.token_account(&offer.vault), None);
    assert_eq!(ledger.record(&offer.escrow), None);
}

#[test]
fn take_rejects_self_trading() {
    let (mut ledger, offer) = offered();
    let accounts = TakeEscrow {
        taker: maker(),
        taker_ata_a: offer.maker_ata_a,
        taker_ata_b: derive_associated_address(&maker(), &mint_b()).unwrap(),
        ..take_accounts(&offer)
    };
    assert_eq!(take_escrow(&mut ledger, &accounts), Err(EscrowError::InvalidTaker));
    assert_eq!(EscrowError::InvalidTaker.class(), ErrorClass::Authorization);
    assert_offer_untouched(&ledger, &offer);
}

#[test]
fn take_fails_closed_on_insufficient_funds() {
    let (mut ledger, accounts) = funded();
    assert_eq!(initialize(&mut ledger, &accounts, 42, 400, 301), Ok(()));
    let take = take_accounts(&accounts);
    assert_eq!(take_escrow(&mut ledger, &take), Err(EscrowError::InsufficientFunds));
    assert_eq!(EscrowError::InsufficientFunds.class(), ErrorClass::Resource);
    assert_offer_untouched(&ledger, &accounts);
}

#[test]
fn take_of_the_exact_balance_empties_the_paying_account() {
    let (mut ledger, accounts) = funded();
    assert_eq!(initialize(&mut ledger, &accounts, 42, 400, 300), Ok(()));
    let take = take_accounts(&accounts);
    assert_eq!(take_escrow(&mut ledger, &take), Ok(()));
    assert_eq!(balance(&ledger, &take.taker_ata_b), 0);
    assert_eq!(balance(&ledger, &take.maker_ata_b), 305);
    assert_eq!(balance(&ledger, &take.taker_ata_a), 407);
}

#[test]
fn take_checks_its_references() {
    let (mut ledger, offer) = offered();
    let good = take_accounts(&offer);
    assert_eq!(
        take_escrow(&mut ledger, &TakeEscrow { escrow: key(90), ..good }),
        Err(EscrowError::AccountNotFound)
    );
    assert_eq!(
        take_escrow(&mut ledger, &TakeEscrow { maker_ata_b: key(91), ..good }),
        Err(EscrowError::AccountNotFound)
    );
    assert_eq!(
        take_escrow(&mut ledger, &TakeEscrow { maker: key(3), ..good }),
        Err(EscrowError::InvalidMaker)
    );
    assert_eq!(
        take_escrow(&mut ledger, &TakeEscrow { vault: good.taker_ata_a, ..good }),
        Err(EscrowError::InvalidVault)
    );
    assert_eq!(
        take_escrow(&mut ledger, &TakeEscrow { taker_ata_a: good.taker_ata_b, ..good }),
        Err(EscrowError::InvalidMint)
    );
    assert_eq!(
        take_escrow(&mut ledger, &TakeEscrow { taker_ata_b: good.maker_ata_b, ..good }),
        Err(EscrowError::InvalidOwner)
    );
    assert_eq!(
        take_escrow(&mut ledger, &TakeEscrow { maker_ata_b: good.taker_ata_b, ..good }),
        Err(EscrowError::InvalidOwner)
    );
    let stray = TokenAccount { mint: mint_b(), owner: maker(), amount: 0 };
    assert_eq!(ledger.insert_token_account(key(94), stray), Ok(()));
    assert_eq!(
        take_escrow(&mut ledger, &TakeEscrow { maker_ata_b: key(94), ..good }),
        Err(EscrowError::InvalidTokenAccount)
    );
    assert_offer_untouched(&ledger, &offer);
}

#[test]
fn take_fails_closed_where_a_credit_overflows() {
    let mut ledger = Ledger::new(program());
    let maker_ata_a = ledger.open_token_account(maker(), mint_a(), 10).unwrap();
    let maker_ata_b = ledger.open_token_account(maker(), mint_b(), u64::MAX - 3).unwrap();
    let taker_ata_a = ledger.open_token_account(taker(), mint_a(), 0).unwrap();
    let taker_ata_b = ledger.open_token_account(taker(), mint_b(), 4).unwrap();
    let escrow = derive_record_address(&program(), &maker(), 1).unwrap().0;
    let vault = derive_associated_address(&escrow, &mint_a()).unwrap();
    let offer = Initialize {
        maker: maker(),
        mint_a: mint_a(),
        mint_b: mint_b(),
        maker_ata_a,
        escrow,
        vault,
    };
    assert_eq!(initialize(&mut ledger, &offer, 1, 10, 4), Ok(()));
    let take = TakeEscrow {
        taker: taker(),
        maker: maker(),
        escrow,
        taker_ata_a,
        taker_ata_b,
        maker_ata_b,
        vault,
    };
    let r = take_escrow(&mut ledger, &take);
    assert_eq!(r, Err(EscrowError::Overflow));
    assert_eq!(balance(&ledger, &vault), 10);
    assert_eq!(balance(&ledger, &taker_ata_b), 4);
    assert_eq!(balance(&ledger, &maker_ata_b), u64::MAX - 3);
    assert!(ledger.record(&escrow).is_some());
}

#[test]
fn take_of_one_asset_against_itself_nets_the_two_amounts() {
    let mut ledger = Ledger::new(program());
    let maker_ata = ledger.open_token_account(maker(), mint_a(), 100).unwrap();
    let taker_ata = ledger.open_token_account(taker(), mint_a(), 50).unwrap();
    let escrow = derive_record_address(&program(), &maker(), 5).unwrap().0;
    let vault = derive_associated_address(&escrow, &mint_a()).unwrap();
    let offer = Initialize {
        maker: maker(),
        mint_a: mint_a(),
        mint_b: mint_a(),
        maker_ata_a: maker_ata,
        escrow,
        vault,
    };
    assert_eq!(initialize(&mut ledger, &offer, 5, 30, 20), Ok(()));
    let take = TakeEscrow {
        taker: taker(),
        maker: maker(),
        escrow,
        taker_ata_a: taker_ata,
        taker_ata_b: taker_ata,
        maker_ata_b: maker_ata,
        vault,
    };
    assert_eq!(take_escrow(&mut ledger, &take), Ok(()));
    assert_eq!(balance(&ledger, &taker_ata), 50 - 20 + 30);
    assert_eq!(balance(&ledger, &maker_ata), 100 - 30 + 20);
    assert_eq!(ledger.token_account(&vault), None);
}

#[test]
fn nothing_follows_a_refund() {
    let (mut ledger, offer) = offered();
    assert_eq!(refund(&mut ledger, &refund_accounts(&offer)), Ok(()));
    assert_eq!(
        refund(&mut ledger, &refund_accounts(&offer)),
        Err(EscrowError::AccountNotFound)
    );
    assert_eq!(
        take_escrow(&mut ledger, &take_accounts(&offer)),
        Err(EscrowError::AccountNotFound)
    );
    assert_eq!(balance(&ledger, &offer.maker_ata_a), 1000);
    assert_eq!(balance(&ledger, &take_accounts(&offer).taker_ata_b), 300);
}

#[test]
fn nothing_follows_a_take() {
    let (mut ledger, offer) = offered();
    assert_eq!(take_escrow(&mut ledger, &take_accounts(&offer)), Ok(()));
    assert_eq!(
        take_escrow(&mut ledger, &take_accounts(&offer)),
        Err(EscrowError::AccountNotFound)
    );
    assert_eq!(
        refund(&mut ledger, &refund_accounts(&offer)),
        Err(EscrowError::AccountNotFound)
    );
    assert_eq!(balance(&ledger, &offer.maker_ata_a), 600);
    assert_eq!(balance(&ledger, &take_accounts(&offer).taker_ata_b), 50);
}

#[test]
fn an_offer_can_be_made_again_once_it_is_gone() {
    let (mut ledger, offer) = offered();
    assert_eq!(refund(&mut ledger, &refund_accounts(&offer)), Ok(()));
    assert_eq!(initialize(&mut ledger, &offer, 42, 1, 2), Ok(()));
    assert_eq!(balance(&ledger, &offer.vault), 1);
    assert_eq!(balance(&ledger, &offer.maker_ata_a), 999);
}

#[test]
fn every_error_has_its_class() {
    assert_eq!(EscrowError::InvalidTaker.class(), ErrorClass::Authorization);
    assert_eq!(EscrowError::NotMaker.class(), ErrorClass::Authorization);
    assert_eq!(EscrowError::DerivedIdentity.class(), ErrorClass::Authorization);
    assert_eq!(EscrowError::InvalidMaker.class(), ErrorClass::ReferenceIntegrity);
    assert_eq!(EscrowError::InvalidVault.class(), ErrorClass::ReferenceIntegrity);
    assert_eq!(EscrowError::InvalidOwner.class(), ErrorClass::ReferenceIntegrity);
    assert_eq!(EscrowError::InvalidMint.class(), ErrorClass::ReferenceIntegrity);
    assert_eq!(EscrowError::InvalidTokenAccount.class(), ErrorClass::ReferenceIntegrity);
    assert_eq!(EscrowError::InvalidRecordAddress.class(), ErrorClass::ReferenceIntegrity);
    assert_eq!(EscrowError::AccountNotFound.class(), ErrorClass::Resource);
    assert_eq!(EscrowError::InsufficientFunds.class(), ErrorClass::Resource);
    assert_eq!(EscrowError::Overflow.class(), ErrorClass::Resource);
    assert_eq!(EscrowError::AlreadyInUse.class(), ErrorClass::Uniqueness);
}

#[test]
fn admit_record_takes_a_backed_record_only() {
    let (source, offer) = offered();
    let record = source.record(&offer.escrow).unwrap();
    let vault = source.token_account(&offer.vault).unwrap();

    let mut ledger = Ledger::new(program());
    assert_eq!(ledger.admit_record(offer.escrow, record), Err(EscrowError::AccountNotFound));
    assert_eq!(ledger.insert_token_account(offer.vault, vault), Ok(()));
    assert_eq!(
        ledger.admit_record(key(60), record),
        Err(EscrowError::InvalidRecordAddress)
    );
    assert_eq!(
        ledger.admit_record(offer.escrow, EscrowState { bump: record.bump.wrapping_add(1), ..record }),
        Err(EscrowError::InvalidRecordAddress)
    );
    assert_eq!(
        ledger.admit_record(offer.escrow, EscrowState { vault: key(61), ..record }),
        Err(EscrowError::InvalidVault)
    );
    assert_eq!(
        ledger.admit_record(offer.escrow, EscrowState { token_a_offered_amount: 399, ..record }),
        Err(EscrowError::InvalidVault)
    );
    assert_eq!(ledger.record(&offer.escrow), None);
    assert_eq!(ledger.admit_record(offer.escrow, record), Ok(()));
    assert_eq!(ledger.record(&offer.escrow), Some(record));
    assert_eq!(ledger.admit_record(offer.escrow, record), Err(EscrowError::AlreadyInUse));

    let maker_ata_a = TokenAccount { mint: mint_a(), owner: maker(), amount: 600 };
    assert_eq!(ledger.insert_token_account(offer.maker_ata_a, maker_ata_a), Ok(()));
    assert_eq!(refund(&mut ledger, &refund_accounts(&offer)), Ok(()));
    assert_eq!(balance(&ledger, &offer.maker_ata_a), 1000);
    assert_eq!(ledger.record(&offer.escrow), None);
}
