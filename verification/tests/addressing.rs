use rnsdid_core::address::Address;
use rnsdid_core::addressing::{
    derive_master_edition_address, derive_metadata_address, derive_nft_mint_address,
    derive_nft_status_address, derive_project_address, derive_project_mint_address,
    derive_rns_id_status_address, derive_user_status_address, hash_seed,
};

use sha2::Digest;
use solana_program::pubkey::Pubkey;

fn addr(tag: u8) -> Address {
    Address { bytes: vec![tag; 32] }
}

#[test]
fn hash_seed_is_sha256_of_the_utf8_bytes() {
    let direct: Vec<u8> = sha2::Sha256::digest("alice.rns".as_bytes()).to_vec();
    assert_eq!(hash_seed("alice.rns"), direct);
}

#[test]
fn hash_seed_of_empty_string_is_the_known_digest() {
    let expected: Vec<u8> = vec![
        0xe3, 0xb0, 0xc4, 0x42, 0x98, 0xfc, 0x1c, 0x14, 0x9a, 0xfb, 0xf4, 0xc8, 0x99, 0x6f,
        0xb9, 0x24, 0x27, 0xae, 0x41, 0xe4, 0x64, 0x9b, 0x93, 0x4c, 0xa4, 0x95, 0x99, 0x1b,
        0x78, 0x52, 0xb8, 0x55,
    ];
    assert_eq!(hash_seed(""), expected);
}

#[test]
fn hash_seed_is_32_bytes_and_input_sensitive() {
    assert_eq!(hash_seed("alice.rns").len(), 32);
    assert_ne!(hash_seed("alice.rns"), hash_seed("bob.rns"));
    assert_ne!(hash_seed("alice.rns"), "alice.rns".as_bytes().to_vec());
}

#[test]
fn user_status_address_derivation_is_deterministic() {
    let wallet = addr(4);
    let program_id = addr(7);
    let first = derive_user_status_address("alice.rns", &wallet, &program_id).unwrap();
    let second = derive_user_status_address("alice.rns", &wallet, &program_id).unwrap();
    assert_eq!(first.0.bytes, second.0.bytes);
    assert_eq!(first.1, second.1);
}

#[test]
fn user_status_address_matches_the_host_derivation() {
    let wallet = addr(4);
    let program_id = addr(7);
    let (derived, bump) = derive_user_status_address("alice.rns", &wallet, &program_id).unwrap();
    let pid = Pubkey::new_from_array([7u8; 32]);
    let hash = hash_seed("alice.rns");
    let (expected, expected_bump) = Pubkey::find_program_address(
        &[b"nt-nft-user-status", &hash[..32], &wallet.bytes],
        &pid,
    );
    assert_eq!(derived.bytes, expected.to_bytes().to_vec());
    assert_eq!(bump, expected_bump);
}

#[test]
fn project_address_matches_the_host_derivation() {
    let program_id = addr(7);
    let pid = Pubkey::new_from_array([7u8; 32]);
    let (derived, bump) = derive_project_address(&program_id).unwrap();
    let (expected, expected_bump) = Pubkey::find_program_address(&[b"nt-proj-v2"], &pid);
    assert_eq!(derived.bytes, expected.to_bytes().to_vec());
    assert_eq!(bump, expected_bump);

    let (derived_mint, _) = derive_project_mint_address(&program_id).unwrap();
    let (expected_mint, _) = Pubkey::find_program_address(&[b"nt-project-mint"], &pid);
    assert_eq!(derived_mint.bytes, expected_mint.to_bytes().to_vec());
}

#[test]
fn derived_addresses_differ_between_entities_and_programs() {
    let program_id = addr(7);
    let other_program = addr(8);
    let (a, _) = derive_project_address(&program_id).unwrap();
    let (b, _) = derive_project_address(&other_program).unwrap();
    assert_ne!(a.bytes, b.bytes);
    let (c, _) = derive_project_mint_address(&program_id).unwrap();
    assert_ne!(a.bytes, c.bytes);
    let (d, _) = derive_nft_mint_address("0", &program_id).unwrap();
    let (e, _) = derive_nft_mint_address("1", &program_id).unwrap();
    assert_ne!(d.bytes, e.bytes);
}

#[test]
fn status_addresses_depend_on_their_key_material() {
    let program_id = addr(7);
    let (a, _) = derive_rns_id_status_address("alice.rns", &program_id).unwrap();
    let (b, _) = derive_rns_id_status_address("bob.rns", &program_id).unwrap();
    assert_ne!(a.bytes, b.bytes);
    let (c, _) = derive_nft_status_address(&addr(20), &program_id).unwrap();
    let (d, _) = derive_nft_status_address(&addr(21), &program_id).unwrap();
    assert_ne!(c.bytes, d.bytes);
    let (e, _) = derive_user_status_address("alice.rns", &addr(4), &program_id).unwrap();
    let (f, _) = derive_user_status_address("alice.rns", &addr(5), &program_id).unwrap();
    assert_ne!(e.bytes, f.bytes);
}

#[test]
fn status_addresses_match_the_host_derivation() {
    let program_id = addr(7);
    let pid = Pubkey::new_from_array([7u8; 32]);
    let hash = hash_seed("alice.rns");
    let (derived, bump) = derive_rns_id_status_address("alice.rns", &program_id).unwrap();
    let (expected, expected_bump) =
        Pubkey::find_program_address(&[b"nt-nft-rnsid-status", &hash[..32]], &pid);
    assert_eq!(derived.bytes, expected.to_bytes().to_vec());
    assert_eq!(bump, expected_bump);

    let mint = addr(20);
    let (derived_nft, nft_bump) = derive_nft_status_address(&mint, &program_id).unwrap();
    let (expected_nft, expected_nft_bump) =
        Pubkey::find_program_address(&[b"nt-nft-status", &mint.bytes], &pid);
    assert_eq!(derived_nft.bytes, expected_nft.to_bytes().to_vec());
    assert_eq!(nft_bump, expected_nft_bump);

    let (derived_mint, mint_bump) = derive_nft_mint_address("3", &program_id).unwrap();
    let (expected_mint, expected_mint_bump) =
        Pubkey::find_program_address(&[b"nt-nft-mint", b"3"], &pid);
    assert_eq!(derived_mint.bytes, expected_mint.to_bytes().to_vec());
    assert_eq!(mint_bump, expected_mint_bump);
}

#[test]
fn metadata_addresses_match_the_host_derivation() {
    let mint = addr(20);
    let metadata_program = addr(30);
    let md_pid = Pubkey::new_from_array([30u8; 32]);
    let mint_pid = Pubkey::new_from_array([20u8; 32]);
    let (derived, bump) = derive_metadata_address(&mint, &metadata_program).unwrap();
    let (expected, expected_bump) = Pubkey::find_program_address(
        &[b"metadata", md_pid.as_ref(), mint_pid.as_ref()],
        &md_pid,
    );
    assert_eq!(derived.bytes, expected.to_bytes().to_vec());
    assert_eq!(bump, expected_bump);

    let (derived_ed, ed_bump) = derive_master_edition_address(&mint, &metadata_program).unwrap();
    let (expected_ed, expected_ed_bump) = Pubkey::find_program_address(
        &[b"metadata", md_pid.as_ref(), mint_pid.as_ref(), b"edition"],
        &md_pid,
    );
    assert_eq!(derived_ed.bytes, expected_ed.to_bytes().to_vec());
    assert_eq!(ed_bump, expected_ed_bump);
    assert_ne!(derived.bytes, derived_ed.bytes);
}

#[test]
fn zero_address_is_32_zero_bytes() {
    let z = Address::zero();
    assert_eq!(z.bytes, vec![0u8; 32]);
}
