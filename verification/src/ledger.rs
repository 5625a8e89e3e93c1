//! The ledger: the token accounts and the escrow records that exist, and the
//! rule that ties each record to its vault.

use crate::address::address_of;
use crate::address::associated_address;
use crate::address::derive_associated_address;
use crate::address::is_associated_address;
use crate::address::is_record_address;
use crate::address::lemma_address_of;
use crate::address::record_address;
use crate::address::Address;
use crate::error::EscrowError;
use crate::state::EscrowState;
use crate::state::TokenAccount;
use crate::table::Table;
use vstd::prelude::*;

verus! {

/// What a ledger holds, as mathematics.
pub struct LedgerView {
    /// The address under which this escrow logic is deployed.
    pub program_id: Address,
    /// The token accounts that exist, by address.
    pub tokens: Map<Address, TokenAccount>,
    /// The escrow records that exist, by address.
    pub records: Map<Address, EscrowState>,
}

impl LedgerView {
    /// The vault of the record at `key` as it stands while the record lives:
    /// it holds the asset offered, under the record's own address, and exactly
    /// the amount offered.
    pub open spec fn vault_of(self, key: Address) -> TokenAccount {
        TokenAccount {
            mint: self.records[key].token_mint_a,
            owner: key,
            amount: self.records[key].token_a_offered_amount,
        }
    }

    /// The record at `key` sits at the address derived from its maker and
    /// identifier, and its vault exists, at the address that the record
    /// commands, as `vault_of` describes it.
    pub open spec fn backed(self, key: Address) -> bool {
        let r = self.records[key];
        &&& record_address(self.program_id, r.maker, r.id) == Some((key@, r.bump))
        &&& associated_address(key, r.token_mint_a) == Some(r.vault@)
        &&& self.tokens.contains_key(r.vault)
        &&& self.tokens[r.vault] == self.vault_of(key)
    }

    /// Every record that exists is backed by its vault.
    pub open spec fn consistent(self) -> bool {
        forall|k: Address| #[trigger] self.records.contains_key(k) ==> self.backed(k)
    }

    /// The token accounts after `amount` has left the account at `key`.
    pub open spec fn debit(
        tokens: Map<Address, TokenAccount>,
        key: Address,
        amount: u64,
    ) -> Map<Address, TokenAccount> {
        tokens.insert(
            key,
            TokenAccount {
                mint: tokens[key].mint,
                owner: tokens[key].owner,
                amount: (tokens[key].amount - amount) as u64,
            },
        )
    }

    /// The token accounts after `amount` has reached the account at `key`.
    pub open spec fn credit(
        tokens: Map<Address, TokenAccount>,
        key: Address,
        amount: u64,
    ) -> Map<Address, TokenAccount> {
        tokens.insert(
            key,
            TokenAccount {
                mint: tokens[key].mint,
                owner: tokens[key].owner,
                amount: (tokens[key].amount + amount) as u64,
            },
        )
    }

    /// Whether `record`, found in storage at `key`, can join the ledger as a
    /// live record, and if not, the first check that it fails.
    pub open spec fn admit_outcome(self, key: Address, record: EscrowState) -> Result<
        (),
        EscrowError,
    > {
        if self.records.contains_key(key) {
            Err(EscrowError::AlreadyInUse)
        } else if record_address(self.program_id, record.maker, record.id) != Some(
            (key@, record.bump),
        ) {
            Err(EscrowError::InvalidRecordAddress)
        } else if associated_address(key, record.token_mint_a) != Some(record.vault@) {
            Err(EscrowError::InvalidVault)
        } else if !self.tokens.contains_key(record.vault) {
            Err(EscrowError::AccountNotFound)
        } else if self.tokens[record.vault] != (TokenAccount {
            mint: record.token_mint_a,
            owner: key,
            amount: record.token_a_offered_amount,
        }) {
            Err(EscrowError::InvalidVault)
        } else {
            Ok(())
        }
    }

    /// What opening a token account for `owner` and `mint` comes to: the
    /// address of the new account, or the reason why none is opened.
    pub open spec fn open_outcome(self, owner: Address, mint: Address) -> Result<
        Address,
        EscrowError,
    > {
        match associated_address(owner, mint) {
            None => Err(EscrowError::InvalidTokenAccount),
            Some(bytes) => if self.tokens.contains_key(address_of(bytes)) {
                Err(EscrowError::AlreadyInUse)
            } else {
                Ok(address_of(bytes))
            },
        }
    }
}

/// The ledger that the escrow operations act on.
pub struct Ledger {
    program_id: Address,
    tokens: Table<TokenAccount>,
    records: Table<EscrowState>,
}

impl View for Ledger {
    type V = LedgerView;

    closed spec fn view(&self) -> LedgerView {
        LedgerView { program_id: self.program_id, tokens: self.tokens@, records: self.records@ }
    }
}

impl Ledger {
    /// The storage of the ledger is in order.
    pub closed spec fn tables_wf(&self) -> bool {
        self.tokens.wf() && self.records.wf()
    }

    /// The ledger is in order: every record that exists is backed by its vault.
    pub open spec fn wf(&self) -> bool {
        self.tables_wf() && self@.consistent()
    }

    /// A ledger without accounts, for the deployment `program_id`.
    pub fn new(program_id: Address) -> (l: Ledger)
        ensures
            l.wf(),
            l@ == (LedgerView {
                program_id,
                tokens: Map::<Address, TokenAccount>::empty(),
                records: Map::<Address, EscrowState>::empty(),
            }),
    {
        Ledger { program_id, tokens: Table::new(), records: Table::new() }
    }

    /// The address under which this escrow logic is deployed.
    pub fn program_id(&self) -> (a: Address)
        ensures
            a == self@.program_id,
    {
        self.program_id
    }

    /// The token account at `key`, if it exists.
    pub fn token_account(&self, key: &Address) -> (r: Option<TokenAccount>)
        requires
            self.tables_wf(),
        ensures
            r == (if self@.tokens.contains_key(*key) {
                Some(self@.tokens[*key])
            } else {
                None
            }),
    {
        self.tokens.get(key)
    }

    /// The escrow record at `key`, if it exists.
    pub fn record(&self, key: &Address) -> (r: Option<EscrowState>)
        requires
            self.tables_wf(),
        ensures
            r == (if self@.records.contains_key(*key) {
                Some(self@.records[*key])
            } else {
                None
            }),
    {
        self.records.get(key)
    }

    /// Opens the token account of `owner` for the asset `mint`, at the address
    /// derived from the two, with `amount` in it. Fails where no address can
    /// be derived or an account exists there already.
    pub fn open_token_account(&mut self, owner: Address, mint: Address, amount: u64) -> (r: Result<
        Address,
        EscrowError,
    >)
        requires
            old(self).wf(),
        ensures
            final(self).wf(),
            r == old(self)@.open_outcome(owner, mint),
            r is Err ==> final(self)@ == old(self)@,
            r matches Ok(key) ==> final(self)@ == (LedgerView {
                program_id: old(self)@.program_id,
                tokens: old(self)@.tokens.insert(key, TokenAccount { mint, owner, amount }),
                records: old(self)@.records,
            }),
    {
        match derive_associated_address(&owner, &mint) {
            None => Err(EscrowError::InvalidTokenAccount),
            Some(key) => {
                proof {
                    lemma_address_of(key);
                }
                if self.tokens.get(&key).is_some() {
                    Err(EscrowError::AlreadyInUse)
                } else {
                    self.tokens.put(key, TokenAccount { mint, owner, amount });
                    proof {
                        assert forall|k: Address| #[trigger]
                            self@.records.contains_key(k) implies self@.backed(k) by {
                            assert(old(self)@.backed(k));
                        }
                    }
                    Ok(key)
                }
            },
        }
    }

    /// Places `account` at `key`, an address of the caller's choosing. Fails
    /// where an account exists there already.
    pub fn insert_token_account(&mut self, key: Address, account: TokenAccount) -> (r: Result<
        (),
        EscrowError,
    >)
        requires
            old(self).wf(),
        ensures
            final(self).wf(),
            r is Ok <==> !old(self)@.tokens.contains_key(key),
            r is Err ==> r == Err::<(), EscrowError>(EscrowError::AlreadyInUse) && final(self)@
                == old(self)@,
            r is Ok ==> final(self)@ == (LedgerView {
                program_id: old(self)@.program_id,
                tokens: old(self)@.tokens.insert(key, account),
                records: old(self)@.records,
            }),
    {
        if self.tokens.get(&key).is_some() {
            Err(EscrowError::AlreadyInUse)
        } else {
            self.tokens.put(key, account);
            proof {
                assert forall|k: Address| #[trigger]
                    self@.records.contains_key(k) implies self@.backed(k) by {
                    assert(old(self)@.backed(k));
                }
            }
            Ok(())
        }
    }

    /// Admits `record`, found in storage at `key`, as a live record: it must
    /// sit at its derived address, and its vault must exist at the address
    /// that the record commands, with exactly the amount offered in it.
    pub fn admit_record(&mut self, key: Address, record: EscrowState) -> (r: Result<
        (),
        EscrowError,
    >)
        requires
            old(self).wf(),
        ensures
            final(self).wf(),
            r == old(self)@.admit_outcome(key, record),
            r is Err ==> final(self)@ == old(self)@,
            r is Ok ==> final(self)@ == (LedgerView {
                program_id: old(self)@.program_id,
                tokens: old(self)@.tokens,
                records: old(self)@.records.insert(key, record),
            }),
    {
        if self.records.get(&key).is_some() {
            return Err(EscrowError::AlreadyInUse);
        }
        if !is_record_address(&key, record.bump, &self.program_id, &record.maker, record.id) {
            return Err(EscrowError::InvalidRecordAddress);
        }
        if !is_associated_address(&record.vault, &key, &record.token_mint_a) {
            return Err(EscrowError::InvalidVault);
        }
        let vault = match self.tokens.get(&record.vault) {
            Some(vault) => vault,
            None => {
                return Err(EscrowError::AccountNotFound);
            },
        };
        if vault.mint != record.token_mint_a || vault.owner != key || vault.amount
            != record.token_a_offered_amount {
            return Err(EscrowError::InvalidVault);
        }
        self.records.put(key, record);
        proof {
            assert forall|k: Address| #[trigger]
                self@.records.contains_key(k) implies self@.backed(k) by {
                if k != key {
                    assert(old(self)@.backed(k));
                }
            }
        }
        Ok(())
    }

    /// Writes `account` at `key`.
    pub(crate) fn put_token_account(&mut self, key: Address, account: TokenAccount)
        requires
            old(self).tables_wf(),
        ensures
            final(self).tables_wf(),
            final(self)@ == (LedgerView {
                program_id: old(self)@.program_id,
                tokens: old(self)@.tokens.insert(key, account),
                records: old(self)@.records,
            }),
    {
        self.tokens.put(key, account);
    }

    /// Closes the token account at `key`.
    pub(crate) fn close_token_account(&mut self, key: &Address)
        requires
            old(self).tables_wf(),
        ensures
            final(self).tables_wf(),
            final(self)@ == (LedgerView {
                program_id: old(self)@.program_id,
                tokens: old(self)@.tokens.remove(*key),
                records: old(self)@.records,
            }),
    {
        self.tokens.remove(key);
    }

    /// Writes `record` at `key`.
    pub(crate) fn put_record(&mut self, key: Address, record: EscrowState)
        requires
            old(self).tables_wf(),
        ensures
            final(self).tables_wf(),
            final(self)@ == (LedgerView {
                program_id: old(self)@.program_id,
                tokens: old(self)@.tokens,
                records: old(self)@.records.insert(key, record),
            }),
    {
        self.records.put(key, record);
    }

    /// Destroys the record at `key`.
    pub(crate) fn close_record(&mut self, key: &Address)
        requires
            old(self).tables_wf(),
        ensures
            final(self).tables_wf(),
            final(self)@ == (LedgerView {
                program_id: old(self)@.program_id,
                tokens: old(self)@.tokens,
                records: old(self)@.records.remove(*key),
            }),
    {
        self.records.remove(key);
    }
}

} // verus!
