use anchor_lang::prelude::Pubkey;
use korus::address::{derive_address, derive_for_id, derive_for_key, id_seed, key_seed, tag_bytes, Address, SeedTag};

#[test]
fn id_seed_is_little_endian() {
    assert_eq!(id_seed(0x0102030405060708), vec![8, 7, 6, 5, 4, 3, 2, 1]);
    assert_eq!(id_seed(0), vec![0; 8]);
    assert_eq!(id_seed(u64::MAX), vec![255; 8]);
}

#[test]
fn tags_spell_their_prefixes() {
    assert_eq!(tag_bytes(SeedTag::Escrow), b"escrow".to_vec());
    assert_eq!(tag_bytes(SeedTag::EventEscrow), b"event_escrow".to_vec());
    assert_eq!(tag_bytes(SeedTag::PaymentRequest), b"payment_request".to_vec());
    assert_eq!(tag_bytes(SeedTag::Registration), b"registration".to_vec());
    assert_eq!(tag_bytes(SeedTag::Subscription), b"subscription".to_vec());
    assert_eq!(tag_bytes(SeedTag::Game), b"game".to_vec());
    assert_eq!(tag_bytes(SeedTag::State), b"state".to_vec());
}

#[test]
fn same_as_compares_every_byte() {
    let a = Address::new([7; 32]);
    let mut bytes = [7u8; 32];
    bytes[31] = 8;
    assert!(a.same_as(&Address::new([7; 32])));
    assert!(!a.same_as(&Address::new(bytes)));
    assert!(Address::zero().same_as(&Address::new([0; 32])));
}

#[test]
fn derivation_matches_the_program_address_search() {
    let program = Address::new([42; 32]);
    let parts = vec![id_seed(5)];
    let c = derive_address(SeedTag::Game, &parts, &program).unwrap();
    let (expected, bump) =
        Pubkey::find_program_address(&[b"game", &5u64.to_le_bytes()], &Pubkey::new_from_array([42; 32]));
    assert_eq!(c.address.bytes, expected.to_bytes());
    assert_eq!(c.bump, bump);
    assert!(!c.address.same_as(&program));
}

#[test]
fn derivation_is_deterministic_and_separates_instances() {
    let program = Address::new([3; 32]);
    let a = derive_address(SeedTag::Escrow, &vec![id_seed(1)], &program).unwrap();
    let b = derive_address(SeedTag::Escrow, &vec![id_seed(1)], &program).unwrap();
    let c = derive_address(SeedTag::Escrow, &vec![id_seed(2)], &program).unwrap();
    let d = derive_address(SeedTag::Game, &vec![id_seed(1)], &program).unwrap();
    assert_eq!(a, b);
    assert_ne!(a.address, c.address);
    assert_ne!(a.address, d.address);
}

#[test]
fn malformed_identifiers_fail_closed() {
    let program = Address::new([3; 32]);
    assert!(derive_address(SeedTag::Tip, &vec![vec![1u8; 33]], &program).is_none());
    let too_many: Vec<Vec<u8>> = (0..15).map(|i| vec![i as u8]).collect();
    assert!(derive_address(SeedTag::Tip, &too_many, &program).is_none());
    let just_enough: Vec<Vec<u8>> = (0..14).map(|i| vec![i as u8]).collect();
    assert!(derive_address(SeedTag::Tip, &just_enough, &program).is_some());
    assert!(derive_address(SeedTag::Tip, &vec![vec![1u8; 32]], &program).is_some());
}

#[test]
fn custody_seed_layouts_match_the_programs() {
    let program = Pubkey::new_from_array([9; 32]);
    let pid = Address::new([9; 32]);
    let event = derive_for_id(SeedTag::EventEscrow, 77, &pid).unwrap();
    let (expected, bump) = Pubkey::find_program_address(&[b"event_escrow", &77u64.to_le_bytes()], &program);
    assert_eq!(event.address.bytes, expected.to_bytes());
    assert_eq!(event.bump, bump);
    let game = derive_for_id(SeedTag::Game, 0, &pid).unwrap();
    let escrow = derive_for_key(SeedTag::Escrow, &game.address, &pid).unwrap();
    let (game_key, _) = Pubkey::find_program_address(&[b"game", &0u64.to_le_bytes()], &program);
    let (expected, bump) = Pubkey::find_program_address(&[b"escrow", game_key.as_ref()], &program);
    assert_eq!(escrow.address.bytes, expected.to_bytes());
    assert_eq!(escrow.bump, bump);
    assert_eq!(key_seed(&Address::new([4; 32])), vec![4u8; 32]);
}
