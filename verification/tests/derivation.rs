use anchor_lang::prelude::Pubkey;
use anchor_spl::associated_token::get_associated_token_address;
use escrow::address::associated_token_program_id;
use escrow::address::derive_associated_address;
use escrow::address::derive_record_address;
use escrow::address::is_associated_address;
use escrow::address::is_record_address;
use escrow::address::token_program_id;
use escrow::Address;

fn key(n: u8) -> Address {
    Address::new([n; 32])
}

#[test]
fn address_equality_goes_by_bytes() {
    let mut bytes = [7u8; 32];
    assert!(Address::new(bytes) == key(7));
    bytes[31] = 8;
    assert!(Address::new(bytes) != key(7));
    bytes[31] = 7;
    bytes[0] = 0;
    assert!(Address::new(bytes) != key(7));
}

#[test]
fn address_to_vec_keeps_the_bytes() {
    let mut bytes = [0u8; 32];
    for i in 0..32 {
        bytes[i] = i as u8;
    }
    assert_eq!(Address::new(bytes).to_vec(), bytes.to_vec());
}

#[test]
fn program_ids_are_the_hosts() {
    assert_eq!(token_program_id().bytes, anchor_spl::token::ID.to_bytes());
    assert_eq!(
        associated_token_program_id().bytes,
        anchor_spl::associated_token::ID.to_bytes()
    );
}

#[test]
fn record_address_is_the_hosts_derivation() {
    let program = key(9);
    let maker = key(1);
    let id: u64 = 0x0102_0304_0506_0708;
    let (expected, bump) = Pubkey::find_program_address(
        &[b"escrow", &maker.bytes, &id.to_le_bytes()],
        &Pubkey::new_from_array(program.bytes),
    );
    let found = derive_record_address(&program, &maker, id).unwrap();
    assert_eq!(found.0.bytes, expected.to_bytes());
    assert_eq!(found.1, bump);
    assert!(found.0 != program);
    assert!(found.0 != maker);
    assert!(is_record_address(&found.0, bump, &program, &maker, id));
    assert!(!is_record_address(&found.0, bump.wrapping_add(1), &program, &maker, id));
    assert!(!is_record_address(&maker, bump, &program, &maker, id));
}

#[test]
fn record_address_is_stable_and_differs_by_id() {
    let program = key(9);
    let maker = key(1);
    let first = derive_record_address(&program, &maker, 1).unwrap();
    let again = derive_record_address(&program, &maker, 1).unwrap();
    let other = derive_record_address(&program, &maker, 2).unwrap();
    let other_maker = derive_record_address(&program, &key(2), 1).unwrap();
    assert!(first.0 == again.0);
    assert_eq!(first.1, again.1);
    assert!(first.0 != other.0);
    assert!(first.0 != other_maker.0);
}

#[test]
fn associated_address_is_the_hosts_derivation() {
    let wallet = key(3);
    let mint = key(4);
    let expected = get_associated_token_address(
        &Pubkey::new_from_array(wallet.bytes),
        &Pubkey::new_from_array(mint.bytes),
    );
    let found = derive_associated_address(&wallet, &mint).unwrap();
    assert_eq!(found.bytes, expected.to_bytes());
    assert!(is_associated_address(&found, &wallet, &mint));
    assert!(!is_associated_address(&found, &mint, &wallet));
    assert!(!is_associated_address(&wallet, &wallet, &mint));
}
