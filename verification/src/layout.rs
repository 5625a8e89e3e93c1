//! The stored form of a record: its fields in a fixed order and width.

use crate::address::address_of;
use crate::address::lemma_address_of;
use crate::address::lemma_address_of_bytes;
use crate::address::Address;
use crate::state::EscrowState;
use vstd::bytes::lemma_auto_spec_u64_to_from_le_bytes;
use vstd::bytes::spec_u64_from_le_bytes;
use vstd::bytes::spec_u64_to_le_bytes;
use vstd::bytes::u64_from_le_bytes;
use vstd::bytes::u64_to_le_bytes;
use vstd::prelude::*;
use vstd::slice::slice_subrange;

verus! {

/// The number of bytes that a stored record takes: three 64-bit integers,
/// four addresses and the witness.
pub const RECORD_SPACE: usize = 153;

/// The stored form of `record`: identifier, maker, asset offered, asset
/// wanted, amount offered, amount wanted, vault and witness, the integers as
/// little-endian bytes.
pub open spec fn encoding(record: EscrowState) -> Seq<u8> {
    spec_u64_to_le_bytes(record.id) + record.maker@ + record.token_mint_a@
        + record.token_mint_b@ + spec_u64_to_le_bytes(record.token_a_offered_amount)
        + spec_u64_to_le_bytes(record.token_b_wanted_amount) + record.vault@ + seq![record.bump]
}

/// The record that `bytes` store, where they have the length of one.
pub open spec fn decoding(bytes: Seq<u8>) -> Option<EscrowState> {
    if bytes.len() != 153 {
        None
    } else {
        Some(
            EscrowState {
                id: spec_u64_from_le_bytes(bytes.subrange(0, 8)),
                maker: address_of(bytes.subrange(8, 40)),
                token_mint_a: address_of(bytes.subrange(40, 72)),
                token_mint_b: address_of(bytes.subrange(72, 104)),
                token_a_offered_amount: spec_u64_from_le_bytes(bytes.subrange(104, 112)),
                token_b_wanted_amount: spec_u64_from_le_bytes(bytes.subrange(112, 120)),
                vault: address_of(bytes.subrange(120, 152)),
                bump: bytes[152],
            },
        )
    }
}

fn push_all(out: &mut Vec<u8>, part: &Vec<u8>)
    ensures
        final(out)@ == old(out)@ + part@,
{
    let mut i: usize = 0;
    while i < part.len()
        invariant
            i <= part@.len(),
            out@ == old(out)@ + part@.subrange(0, i as int),
        decreases part@.len() - i,
    {
        out.push(part[i]);
        i = i + 1;
        assert(out@ =~= old(out)@ + part@.subrange(0, i as int));
    }
    assert(part@.subrange(0, part@.len() as int) =~= part@);
}

fn address_at(bytes: &[u8], at: usize) -> (a: Address)
    requires
        bytes@.len() == RECORD_SPACE,
        at + 32 <= bytes@.len(),
    ensures
        a@ == bytes@.subrange(at as int, at + 32),
        a == address_of(bytes@.subrange(at as int, at + 32)),
{
    let mut held = [0u8; 32];
    let mut i: usize = 0;
    while i < 32
        invariant
            i <= 32,
            bytes@.len() == RECORD_SPACE,
            at + 32 <= bytes@.len(),
            forall|j: int| 0 <= j < i ==> held[j] == bytes@[at + j],
        decreases 32 - i,
    {
        held[i] = bytes[at + i];
        i = i + 1;
    }
    let a = Address { bytes: held };
    assert(a@ =~= bytes@.subrange(at as int, at + 32));
    proof {
        lemma_address_of(a);
    }
    a
}

fn u64_at(bytes: &[u8], at: usize) -> (x: u64)
    requires
        bytes@.len() == RECORD_SPACE,
        at + 8 <= bytes@.len(),
    ensures
        x == spec_u64_from_le_bytes(bytes@.subrange(at as int, at + 8)),
{
    u64_from_le_bytes(slice_subrange(bytes, at, at + 8))
}

/// The stored form of `record`.
pub fn encode(record: &EscrowState) -> (out: Vec<u8>)
    ensures
        out@ == encoding(*record),
        out@.len() == RECORD_SPACE,
{
    let mut out: Vec<u8> = Vec::new();
    push_all(&mut out, &u64_to_le_bytes(record.id));
    push_all(&mut out, &record.maker.to_vec());
    push_all(&mut out, &record.token_mint_a.to_vec());
    push_all(&mut out, &record.token_mint_b.to_vec());
    push_all(&mut out, &u64_to_le_bytes(record.token_a_offered_amount));
    push_all(&mut out, &u64_to_le_bytes(record.token_b_wanted_amount));
    push_all(&mut out, &record.vault.to_vec());
    out.push(record.bump);
    assert(out@ =~= encoding(*record));
    out
}

/// Reads a stored record. Bytes of any other length than a record's store
/// none.
pub fn decode(bytes: &[u8]) -> (r: Option<EscrowState>)
    ensures
        r == decoding(bytes@),
{
    if bytes.len() != RECORD_SPACE {
        return None;
    }
    Some(
        EscrowState {
            id: u64_at(bytes, 0),
            maker: address_at(bytes, 8),
            token_mint_a: address_at(bytes, 40),
            token_mint_b: address_at(bytes, 72),
            token_a_offered_amount: u64_at(bytes, 104),
            token_b_wanted_amount: u64_at(bytes, 112),
            vault: address_at(bytes, 120),
            bump: bytes[152],
        },
    )
}

/// Every record is read back from its stored form, which has the length of a
/// record.
pub proof fn law_decode_inverts_encode(record: EscrowState)
    ensures
        encoding(record).len() == 153,
        decoding(encoding(record)) == Some(record),
{
    lemma_auto_spec_u64_to_from_le_bytes();
    let e = encoding(record);
    assert(e.subrange(0, 8) =~= spec_u64_to_le_bytes(record.id));
    assert(e.subrange(8, 40) =~= record.maker@);
    assert(e.subrange(40, 72) =~= record.token_mint_a@);
    assert(e.subrange(72, 104) =~= record.token_mint_b@);
    assert(e.subrange(104, 112) =~= spec_u64_to_le_bytes(record.token_a_offered_amount));
    assert(e.subrange(112, 120) =~= spec_u64_to_le_bytes(record.token_b_wanted_amount));
    assert(e.subrange(120, 152) =~= record.vault@);
    lemma_address_of(record.maker);
    lemma_address_of(record.token_mint_a);
    lemma_address_of(record.token_mint_b);
    lemma_address_of(record.vault);
}

/// Bytes of a record's length store a record, and are the stored form of the
/// record read from them.
pub proof fn law_encode_inverts_decode(bytes: Seq<u8>)
    requires
        bytes.len() == 153,
    ensures
        decoding(bytes) is Some,
        encoding(decoding(bytes).unwrap()) == bytes,
{
    lemma_auto_spec_u64_to_from_le_bytes();
    let r = decoding(bytes).unwrap();
    lemma_address_of_bytes(bytes.subrange(8, 40));
    lemma_address_of_bytes(bytes.subrange(40, 72));
    lemma_address_of_bytes(bytes.subrange(72, 104));
    lemma_address_of_bytes(bytes.subrange(120, 152));
    assert(spec_u64_to_le_bytes(r.id) == bytes.subrange(0, 8));
    assert(spec_u64_to_le_bytes(r.token_a_offered_amount) == bytes.subrange(104, 112));
    assert(spec_u64_to_le_bytes(r.token_b_wanted_amount) == bytes.subrange(112, 120));
    assert(encoding(r) =~= bytes);
}

} // verus!
