use redio_contract::address::{
    affiliate_seeds, escrow_authority_seeds, escrow_signer_seeds, find_affiliate_address, find_escrow_authority,
    find_pool_address, is_affiliate_address, is_escrow_authority, is_pool_address, matches_derivation, pool_seeds,
};
use redio_contract::pubkey::Pubkey;

fn id(n: u8) -> Pubkey {
    Pubkey::new_from_array([n; 32])
}

fn outside(key: &Pubkey) -> anchor_lang::prelude::Pubkey {
    anchor_lang::prelude::Pubkey::new_from_array(key.to_bytes())
}

#[test]
fn identities_compare_byte_by_byte() {
    let a = id(7);
    let mut bytes = [7u8; 32];
    assert!(a.same(&Pubkey::new_from_array(bytes)));
    bytes[0] = 8;
    assert!(!a.same(&Pubkey::new_from_array(bytes)));
    bytes[0] = 7;
    bytes[31] = 0;
    assert!(!a.same(&Pubkey::new_from_array(bytes)));
    assert_eq!(a.to_bytes(), [7u8; 32]);
    let mut counting = [0u8; 32];
    for i in 0..32 {
        counting[i] = i as u8;
    }
    assert_eq!(Pubkey::new_from_array(counting).to_vec(), counting.to_vec());
}

#[test]
fn seeds_are_tag_then_identities() {
    assert_eq!(
        pool_seeds(&id(1), "summer"),
        vec![b"pool".to_vec(), vec![1u8; 32], b"summer".to_vec()]
    );
    assert_eq!(
        affiliate_seeds(&id(10), &id(21)),
        vec![b"affiliate".to_vec(), vec![10u8; 32], vec![21u8; 32]]
    );
    assert_eq!(escrow_authority_seeds(&id(10)), vec![b"escrow_authority".to_vec(), vec![10u8; 32]]);
    assert_eq!(
        escrow_signer_seeds(&id(10), 253),
        vec![b"escrow_authority".to_vec(), vec![10u8; 32], vec![253u8]]
    );
}

#[test]
fn escrow_authority_is_the_derived_address() {
    let program = id(200);
    let pool = id(10);
    let (address, bump) = find_escrow_authority(&program, &pool).unwrap();
    let pool_bytes = pool.to_bytes();
    let (expected, expected_bump) = anchor_lang::prelude::Pubkey::find_program_address(
        &[b"escrow_authority", &pool_bytes],
        &outside(&program),
    );
    assert_eq!(address.to_bytes(), expected.to_bytes());
    assert_eq!(bump, expected_bump);
    assert_ne!(address, program);
    assert_ne!(address, pool);
    assert!(!outside(&address).is_on_curve());

    let signer = escrow_signer_seeds(&pool, bump);
    let slices: Vec<&[u8]> = signer.iter().map(|s| s.as_slice()).collect();
    let recreated =
        anchor_lang::prelude::Pubkey::create_program_address(&slices, &outside(&program)).unwrap();
    assert_eq!(recreated.to_bytes(), address.to_bytes());
}

#[test]
fn pool_and_affiliate_addresses_are_the_derived_addresses() {
    let program = id(200);
    let merchant = id(1);
    let merchant_bytes = merchant.to_bytes();
    let (pool, pool_bump) = find_pool_address(&program, &merchant, "summer").unwrap();
    let (expected, expected_bump) = anchor_lang::prelude::Pubkey::find_program_address(
        &[b"pool", &merchant_bytes, b"summer"],
        &outside(&program),
    );
    assert_eq!(pool.to_bytes(), expected.to_bytes());
    assert_eq!(pool_bump, expected_bump);

    let wallet = id(21);
    let pool_bytes = pool.to_bytes();
    let wallet_bytes = wallet.to_bytes();
    let (affiliate, affiliate_bump) = find_affiliate_address(&program, &pool, &wallet).unwrap();
    let (expected_affiliate, expected_affiliate_bump) = anchor_lang::prelude::Pubkey::find_program_address(
        &[b"affiliate", &pool_bytes, &wallet_bytes],
        &outside(&program),
    );
    assert_eq!(affiliate.to_bytes(), expected_affiliate.to_bytes());
    assert_eq!(affiliate_bump, expected_affiliate_bump);
}

#[test]
fn addresses_differ_by_owner_and_identifier() {
    let program = id(200);
    let a = find_pool_address(&program, &id(1), "summer").unwrap();
    let b = find_pool_address(&program, &id(1), "winter").unwrap();
    let c = find_pool_address(&program, &id(2), "summer").unwrap();
    let d = find_pool_address(&id(201), &id(1), "summer").unwrap();
    assert_ne!(a.0, b.0);
    assert_ne!(a.0, c.0);
    assert_ne!(a.0, d.0);
    assert_eq!(a, find_pool_address(&program, &id(1), "summer").unwrap());
}

#[test]
fn overlong_identifier_has_no_address() {
    assert_eq!(find_pool_address(&id(200), &id(1), &"x".repeat(33)), None);
    assert!(find_pool_address(&id(200), &id(1), &"x".repeat(32)).is_some());
}

#[test]
fn derived_addresses_are_recognised() {
    let program = id(200);
    let pool = id(10);
    let wallet = id(21);
    let (authority, bump) = find_escrow_authority(&program, &pool).unwrap();
    assert!(is_escrow_authority(&program, &pool, &authority, bump));
    assert!(!is_escrow_authority(&program, &pool, &authority, bump.wrapping_sub(1)));
    assert!(!is_escrow_authority(&program, &pool, &id(11), bump));
    assert!(!is_escrow_authority(&program, &id(12), &authority, bump));

    let (record, record_bump) = find_pool_address(&program, &id(1), "summer").unwrap();
    assert!(is_pool_address(&program, &id(1), "summer", &record, record_bump));
    assert!(!is_pool_address(&program, &id(1), "winter", &record, record_bump));
    assert!(!is_pool_address(&program, &id(1), &"x".repeat(40), &record, record_bump));

    let (affiliate, affiliate_bump) = find_affiliate_address(&program, &pool, &wallet).unwrap();
    assert!(is_affiliate_address(&program, &pool, &wallet, &affiliate, affiliate_bump));
    assert!(!is_affiliate_address(&program, &pool, &id(22), &affiliate, affiliate_bump));
}

#[test]
fn matching_a_derivation_needs_address_and_bump() {
    let found = Some((id(5), 250u8));
    assert!(matches_derivation(&found, &id(5), 250));
    assert!(!matches_derivation(&found, &id(5), 249));
    assert!(!matches_derivation(&found, &id(6), 250));
    assert!(!matches_derivation(&None, &id(5), 250));
}
