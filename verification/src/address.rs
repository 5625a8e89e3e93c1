//! Ledger addresses and the derivation of program-controlled addresses.

use anchor_lang::prelude::Pubkey;
use vstd::bytes::spec_u64_to_le_bytes;
use vstd::bytes::u64_to_le_bytes;
use vstd::prelude::*;
use vstd::std_specs::cmp::PartialEqSpecImpl;

verus! {

/// The identity of an account, a party or an asset type: 32 bytes.
#[derive(Clone, Copy, Debug)]
pub struct Address {
    pub bytes: [u8; 32],
}

impl View for Address {
    type V = Seq<u8>;

    open spec fn view(&self) -> Seq<u8> {
        self.bytes@
    }
}

impl PartialEq for Address {
    fn eq(&self, other: &Address) -> (r: bool) {
        let mut i: usize = 0;
        while i < 32
            invariant
                i <= 32,
                forall|j: int| 0 <= j < i ==> self.bytes[j] == other.bytes[j],
            decreases 32 - i,
        {
            if self.bytes[i] != other.bytes[i] {
                return false;
            }
            i = i + 1;
        }
        proof {
            assert(self.bytes =~= other.bytes);
        }
        true
    }
}

impl Eq for Address {

}

impl PartialEqSpecImpl for Address {
    open spec fn obeys_eq_spec() -> bool {
        true
    }

    open spec fn eq_spec(&self, other: &Address) -> bool {
        *self == *other
    }
}

impl Address {
    /// The address made of the given bytes.
    pub fn new(bytes: [u8; 32]) -> (a: Address)
        ensures
            a.bytes == bytes,
    {
        Address { bytes }
    }

    /// The bytes of the address, as a vector.
    pub fn to_vec(&self) -> (v: Vec<u8>)
        ensures
            v@ == self@,
    {
        let mut v: Vec<u8> = Vec::new();
        let mut i: usize = 0;
        while i < 32
            invariant
                i <= 32,
                v@.len() == i,
                forall|j: int| 0 <= j < i ==> v@[j] == self.bytes[j],
            decreases 32 - i,
        {
            v.push(self.bytes[i]);
            i = i + 1;
        }
        assert(v@ =~= self@);
        v
    }
}

/// Two addresses with the same bytes are the same address.
pub proof fn lemma_address_by_bytes(a: Address, b: Address)
    ensures
        (a@ == b@) <==> (a == b),
{
    if a@ == b@ {
        assert(forall|i: int| 0 <= i < 32 ==> a.bytes[i] == a@[i]);
        assert(forall|i: int| 0 <= i < 32 ==> b.bytes[i] == b@[i]);
        assert(a.bytes =~= b.bytes);
    }
}

/// The address whose bytes are `bytes`.
pub open spec fn address_of(bytes: Seq<u8>) -> Address {
    choose|a: Address| a@ == bytes
}

/// `address_of` gives an address back from its own bytes.
pub proof fn lemma_address_of(a: Address)
    ensures
        address_of(a@) == a,
{
    lemma_address_by_bytes(address_of(a@), a);
}

/// An array whose first `n` bytes are those of `bytes`.
spec fn filled(bytes: Seq<u8>, n: nat) -> [u8; 32]
    decreases n,
{
    if n == 0 {
        arbitrary()
    } else {
        vstd::array::spec_array_update(filled(bytes, (n - 1) as nat), n - 1, bytes[n - 1])
    }
}

proof fn lemma_filled(bytes: Seq<u8>, n: nat)
    requires
        bytes.len() == 32,
        n <= 32,
    ensures
        forall|j: int| 0 <= j < n ==> filled(bytes, n)@[j] == bytes[j],
    decreases n,
{
    if n > 0 {
        lemma_filled(bytes, (n - 1) as nat);
    }
}

/// Any 32 bytes are the bytes of an address, the one that `address_of` names.
pub proof fn lemma_address_of_bytes(bytes: Seq<u8>)
    requires
        bytes.len() == 32,
    ensures
        address_of(bytes)@ == bytes,
{
    lemma_filled(bytes, 32);
    let a = Address { bytes: filled(bytes, 32) };
    assert(a@ =~= bytes);
}

/// What the host's derivation search returns for a list of seeds under a
/// program: the derived address with the witness that the search settled on,
/// or nothing where no witness exists or the seeds are out of bounds.
pub uninterp spec fn program_address(seeds: Seq<Seq<u8>>, program_id: Seq<u8>) -> Option<
    (Seq<u8>, u8),
>;

/// The seeds held by a vector of byte vectors.
pub open spec fn seeds_of(seeds: Seq<Vec<u8>>) -> Seq<Seq<u8>> {
    Seq::new(seeds.len(), |i: int| seeds[i]@)
}

/// `Pubkey::try_find_program_address` of the host's address library. The
/// contract claims only that the outcome is a function of the seeds and the
/// program, named `program_address`; the search itself (a hash of the seeds,
/// tried with each witness from 255 down) is not modelled.
#[verifier::external_body]
fn try_find_program_address(seeds: &Vec<Vec<u8>>, program_id: &Address) -> (r: Option<(Address, u8)>)
    ensures
        r matches Some(found) ==> program_address(seeds_of(seeds@), program_id@) == Some(
            (found.0@, found.1),
        ),
        r is None ==> program_address(seeds_of(seeds@), program_id@) is None,
{
    let parts: Vec<&[u8]> = seeds.iter().map(|s| s.as_slice()).collect();
    match Pubkey::try_find_program_address(&parts, &Pubkey::new_from_array(program_id.bytes)) {
        Some((key, bump)) => Some((Address { bytes: key.to_bytes() }, bump)),
        None => None,
    }
}

/// The tag that starts the seeds of every escrow record: the ASCII bytes of
/// the word "escrow".
pub open spec fn escrow_tag() -> Seq<u8> {
    seq![0x65u8, 0x73u8, 0x63u8, 0x72u8, 0x6fu8, 0x77u8]
}

/// The seeds of the record that `maker` opens under `id`: the tag, the maker's
/// bytes and the identifier as eight little-endian bytes.
pub open spec fn record_seeds(maker: Address, id: u64) -> Seq<Seq<u8>> {
    seq![escrow_tag(), maker@, spec_u64_to_le_bytes(id)]
}

/// The address and witness of the record that `maker` opens under `id` in the
/// deployment `program_id`, where the derivation finds one.
pub open spec fn record_address(program_id: Address, maker: Address, id: u64) -> Option<
    (Seq<u8>, u8),
> {
    program_address(record_seeds(maker, id), program_id@)
}

/// Derives the address and witness of the record of `(maker, id)`.
pub fn derive_record_address(program_id: &Address, maker: &Address, id: u64) -> (r: Option<
    (Address, u8),
>)
    ensures
        r matches Some(found) ==> record_address(*program_id, *maker, id) == Some(
            (found.0@, found.1),
        ),
        r is None ==> record_address(*program_id, *maker, id) is None,
{
    let mut tag: Vec<u8> = Vec::new();
    tag.push(0x65u8);
    tag.push(0x73u8);
    tag.push(0x63u8);
    tag.push(0x72u8);
    tag.push(0x6fu8);
    tag.push(0x77u8);
    assert(tag@ =~= escrow_tag());
    let mut seeds: Vec<Vec<u8>> = Vec::new();
    seeds.push(tag);
    seeds.push(maker.to_vec());
    seeds.push(u64_to_le_bytes(id));
    assert(seeds_of(seeds@) =~= record_seeds(*maker, id));
    try_find_program_address(&seeds, program_id)
}

/// The bytes of the token program's address.
pub open spec fn token_program_bytes() -> Seq<u8> {
    seq![
        6u8, 221u8, 246u8, 225u8, 215u8, 101u8, 161u8, 147u8, 217u8, 203u8, 225u8, 70u8, 206u8,
        235u8, 121u8, 172u8, 28u8, 180u8, 133u8, 237u8, 95u8, 91u8, 55u8, 145u8, 58u8, 140u8,
        245u8, 133u8, 126u8, 255u8, 0u8, 169u8,
    ]
}

/// The bytes of the associated-token-account program's address.
pub open spec fn associated_token_program_bytes() -> Seq<u8> {
    seq![
        140u8, 151u8, 37u8, 143u8, 78u8, 36u8, 137u8, 241u8, 187u8, 61u8, 16u8, 41u8, 20u8,
        142u8, 13u8, 131u8, 11u8, 90u8, 19u8, 153u8, 218u8, 255u8, 16u8, 132u8, 4u8, 142u8,
        123u8, 216u8, 219u8, 233u8, 248u8, 89u8,
    ]
}

/// The address of the token program.
pub fn token_program_id() -> (a: Address)
    ensures
        a@ == token_program_bytes(),
{
    let a = Address {
        bytes: [
            6u8, 221u8, 246u8, 225u8, 215u8, 101u8, 161u8, 147u8, 217u8, 203u8, 225u8, 70u8,
            206u8, 235u8, 121u8, 172u8, 28u8, 180u8, 133u8, 237u8, 95u8, 91u8, 55u8, 145u8,
            58u8, 140u8, 245u8, 133u8, 126u8, 255u8, 0u8, 169u8,
        ],
    };
    assert(a@ =~= token_program_bytes());
    a
}

/// The address of the associated-token-account program.
pub fn associated_token_program_id() -> (a: Address)
    ensures
        a@ == associated_token_program_bytes(),
{
    let a = Address {
        bytes: [
            140u8, 151u8, 37u8, 143u8, 78u8, 36u8, 137u8, 241u8, 187u8, 61u8, 16u8, 41u8, 20u8,
            142u8, 13u8, 131u8, 11u8, 90u8, 19u8, 153u8, 218u8, 255u8, 16u8, 132u8, 4u8, 142u8,
            123u8, 216u8, 219u8, 233u8, 248u8, 89u8,
        ],
    };
    assert(a@ =~= associated_token_program_bytes());
    a
}

/// The seeds of the custody account that `wallet` holds for the asset `mint`:
/// the wallet, the token program and the asset, in this order.
pub open spec fn associated_seeds(wallet: Address, mint: Address) -> Seq<Seq<u8>> {
    seq![wallet@, token_program_bytes(), mint@]
}

/// The address of the custody account that `wallet` holds for the asset
/// `mint`, where the derivation finds one.
pub open spec fn associated_address(wallet: Address, mint: Address) -> Option<Seq<u8>> {
    match program_address(associated_seeds(wallet, mint), associated_token_program_bytes()) {
        Some(found) => Some(found.0),
        None => None,
    }
}

/// Derives the address of the custody account of `wallet` for `mint`.
pub fn derive_associated_address(wallet: &Address, mint: &Address) -> (r: Option<Address>)
    ensures
        r matches Some(a) ==> associated_address(*wallet, *mint) == Some(a@),
        r is None ==> associated_address(*wallet, *mint) is None,
{
    let mut seeds: Vec<Vec<u8>> = Vec::new();
    seeds.push(wallet.to_vec());
    seeds.push(token_program_id().to_vec());
    seeds.push(mint.to_vec());
    assert(seeds_of(seeds@) =~= associated_seeds(*wallet, *mint));
    match try_find_program_address(&seeds, &associated_token_program_id()) {
        Some(found) => Some(found.0),
        None => None,
    }
}

/// Whether `key` is the address of the custody account of `wallet` for `mint`.
pub fn is_associated_address(key: &Address, wallet: &Address, mint: &Address) -> (b: bool)
    ensures
        b == (associated_address(*wallet, *mint) == Some(key@)),
{
    match derive_associated_address(wallet, mint) {
        Some(a) => {
            proof {
                lemma_address_by_bytes(a, *key);
            }
            a == *key
        },
        None => false,
    }
}

/// Whether `key` with the witness `bump` is what the derivation gives for the
/// record of `(maker, id)`.
pub fn is_record_address(
    key: &Address,
    bump: u8,
    program_id: &Address,
    maker: &Address,
    id: u64,
) -> (b: bool)
    ensures
        b == (record_address(*program_id, *maker, id) == Some((key@, bump))),
{
    match derive_record_address(program_id, maker, id) {
        Some(found) => {
            proof {
                lemma_address_by_bytes(found.0, *key);
            }
            found.0 == *key && found.1 == bump
        },
        None => false,
    }
}

} // verus!
