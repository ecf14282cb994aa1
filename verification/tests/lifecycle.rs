use rnsdid_core::actions::TokenAction;
use rnsdid_core::address::Address;
use rnsdid_core::error::ErrorCode;
use rnsdid_core::addressing::hash_seed;
use rnsdid_core::lifecycle::{
    airdrop, authorize_mint, burn, initialize, set_base_uri, set_fee_recipient,
    set_is_blocked_address, set_is_blocked_rns_id, set_merkle_root, set_mint_price, try_verify,
    verify, InitializeNonTransferableProjectArgs, DEFAULT_MINT_PRICE,
};
use rnsdid_core::state::{RecordStore, RnsIdStatusAccount, RnsIdStatusEntry};

fn addr(tag: u8) -> Address {
    Address { bytes: vec![tag; 32] }
}

fn args() -> InitializeNonTransferableProjectArgs {
    InitializeNonTransferableProjectArgs {
        name: "LDID".to_string(),
        symbol: "LD".to_string(),
        base_uri: "https://rns.example/".to_string(),
        uri: "https://rns.example/collection.json".to_string(),
    }
}

/// A store with an initialized project owned by `addr(1)`, whose fee
/// recipient has been set to `addr(2)`.
fn initialized_store() -> RecordStore {
    let mut store = RecordStore::new();
    let owner = addr(1);
    let actions = initialize(&mut store, &owner, &args(), &addr(10), &addr(11), 254, 253).unwrap();
    assert_eq!(actions.len(), 3);
    set_fee_recipient(&mut store, &owner, &addr(2)).unwrap();
    store
}

#[test]
fn initialize_creates_project_with_defaults() {
    let mut store = RecordStore::new();
    let owner = addr(1);
    let actions = initialize(&mut store, &owner, &args(), &addr(10), &addr(11), 254, 253).unwrap();
    let p = store.project.as_ref().unwrap();
    assert_eq!(p.mint_price, DEFAULT_MINT_PRICE);
    assert_eq!(p.mint_price, 100);
    assert_eq!(p.authority.bytes, vec![1u8; 32]);
    assert_eq!(p.fee_recipient.bytes, vec![0u8; 32]);
    assert_eq!(p.bump, 254);
    assert_eq!(p.mint_bump, 253);
    assert_eq!(p.name, "LDID");
    assert_eq!(p.symbol, "LD");
    assert_eq!(p.base_uri, "https://rns.example/");
    assert!(p.is_blocked_address.is_empty());
    assert!(p.is_blocked_rns_id.is_empty());
    match &actions[0] {
        TokenAction::MintTo { mint, to_wallet, amount } => {
            assert_eq!(mint.bytes, vec![10u8; 32]);
            assert_eq!(to_wallet.bytes, vec![11u8; 32]);
            assert_eq!(*amount, 1);
        }
        other => panic!("unexpected action: {other:?}"),
    }
    match &actions[1] {
        TokenAction::CreateMetadata { name, symbol, uri, seller_fee_basis_points, creators, collection, .. } => {
            assert_eq!(name, "LDID");
            assert_eq!(symbol, "LD");
            assert_eq!(uri, "https://rns.example/collection.json");
            assert_eq!(*seller_fee_basis_points, 0);
            assert!(creators.is_none());
            assert!(collection.is_none());
        }
        other => panic!("unexpected action: {other:?}"),
    }
    match &actions[2] {
        TokenAction::CreateMasterEdition { mint, max_supply } => {
            assert_eq!(mint.bytes, vec![10u8; 32]);
            assert_eq!(*max_supply, 0);
        }
        other => panic!("unexpected action: {other:?}"),
    }
}

#[test]
fn authorize_mint_twice_fails_with_already_authorized() {
    let mut store = initialized_store();
    let payer = addr(3);
    let wallet = addr(4);
    let id = "alice.rns".to_string();
    let r1 = authorize_mint(&mut store, &payer, &id, &wallet, 100, &addr(2), 250);
    assert!(r1.is_ok());
    let r2 = authorize_mint(&mut store, &payer, &id, &wallet, 100, &addr(2), 250);
    assert_eq!(r2.unwrap_err(), ErrorCode::LDIDHasAuthorized);
}

#[test]
fn authorize_mint_rejects_wrong_fee_recipient() {
    let mut store = initialized_store();
    let r = authorize_mint(&mut store, &addr(3), &"alice.rns".to_string(), &addr(4), 100, &addr(9), 250);
    assert_eq!(r.unwrap_err(), ErrorCode::InvalidFeeRecipient);
}

#[test]
fn authorize_mint_rejects_insufficient_balance() {
    let mut store = initialized_store();
    let r = authorize_mint(&mut store, &addr(3), &"alice.rns".to_string(), &addr(4), 99, &addr(2), 250);
    assert_eq!(r.unwrap_err(), ErrorCode::InsufficientBalance);
}

#[test]
fn authorize_mint_transfers_the_mint_price() {
    let mut store = initialized_store();
    set_mint_price(&mut store, &addr(1), 777).unwrap();
    let payer = addr(3);
    let (actions, event) = authorize_mint(
        &mut store,
        &payer,
        &"alice.rns".to_string(),
        &addr(4),
        777,
        &addr(2),
        250,
    )
    .unwrap();
    assert_eq!(actions.len(), 1);
    match &actions[0] {
        TokenAction::TransferLamports { from, to, amount } => {
            assert_eq!(from.bytes, vec![3u8; 32]);
            assert_eq!(to.bytes, vec![2u8; 32]);
            assert_eq!(*amount, 777);
        }
        other => panic!("unexpected action: {other:?}"),
    }
    assert_eq!(event.rns_id, "alice.rns");
    assert_eq!(event.wallet.bytes, vec![4u8; 32]);
}

#[test]
fn verify_twice_fails_with_already_minted() {
    let mut store = initialized_store();
    let owner = addr(1);
    let wallet = addr(4);
    let id = "alice.rns".to_string();
    let root = "0xabc".to_string();
    let idx = "0".to_string();
    let r1 = verify(
        &mut store, &owner, &id, &wallet, &wallet, &addr(20), &addr(21), &addr(10), &root, &idx,
    );
    assert!(r1.is_ok());
    let r2 = verify(
        &mut store, &owner, &id, &wallet, &wallet, &addr(20), &addr(21), &addr(10), &root, &idx,
    );
    assert_eq!(r2.unwrap_err(), ErrorCode::LDIDHasMinted);
}

#[test]
fn verify_rejects_non_owner() {
    let mut store = initialized_store();
    let r = verify(
        &mut store,
        &addr(9),
        &"alice.rns".to_string(),
        &addr(4),
        &addr(4),
        &addr(20),
        &addr(21),
        &addr(10),
        &"0xabc".to_string(),
        &"0".to_string(),
    );
    assert_eq!(r.unwrap_err(), ErrorCode::InvalidAuthority);
}

#[test]
fn airdrop_rejects_blocked_wallet() {
    let mut store = initialized_store();
    let owner = addr(1);
    set_is_blocked_address(&mut store, &owner, &addr(4), true).unwrap();
    let r = airdrop(
        &mut store,
        &owner,
        &"alice.rns".to_string(),
        &addr(4),
        &addr(4),
        &addr(20),
        &"0xabc".to_string(),
        &"0".to_string(),
    );
    assert_eq!(r.unwrap_err(), ErrorCode::WalletBlacklisted);
}

#[test]
fn airdrop_rejects_blocked_identity() {
    let mut store = initialized_store();
    let owner = addr(1);
    set_is_blocked_rns_id(&mut store, &owner, &"alice.rns".to_string(), true).unwrap();
    let r = airdrop(
        &mut store,
        &owner,
        &"alice.rns".to_string(),
        &addr(4),
        &addr(4),
        &addr(20),
        &"0xabc".to_string(),
        &"0".to_string(),
    );
    assert_eq!(r.unwrap_err(), ErrorCode::LdidBlacklisted);
}

#[test]
fn airdrop_unblocked_after_flag_reset() {
    let mut store = initialized_store();
    let owner = addr(1);
    set_is_blocked_address(&mut store, &owner, &addr(4), true).unwrap();
    set_is_blocked_address(&mut store, &owner, &addr(4), false).unwrap();
    let r = airdrop(
        &mut store,
        &owner,
        &"alice.rns".to_string(),
        &addr(4),
        &addr(4),
        &addr(20),
        &"0xabc".to_string(),
        &"0".to_string(),
    );
    assert!(r.is_ok());
}

#[test]
fn airdrop_mints_then_freezes() {
    let mut store = initialized_store();
    let owner = addr(1);
    let (actions, event) = airdrop(
        &mut store,
        &owner,
        &"alice.rns".to_string(),
        &addr(4),
        &addr(4),
        &addr(20),
        &"0xabc".to_string(),
        &"0".to_string(),
    )
    .unwrap();
    assert_eq!(actions.len(), 2);
    match &actions[0] {
        TokenAction::MintTo { mint, to_wallet, amount } => {
            assert_eq!(mint.bytes, vec![20u8; 32]);
            assert_eq!(to_wallet.bytes, vec![4u8; 32]);
            assert_eq!(*amount, 1);
        }
        other => panic!("unexpected action: {other:?}"),
    }
    match &actions[1] {
        TokenAction::FreezeAccount { mint, wallet } => {
            assert_eq!(mint.bytes, vec![20u8; 32]);
            assert_eq!(wallet.bytes, vec![4u8; 32]);
        }
        other => panic!("unexpected action: {other:?}"),
    }
    assert_eq!(event.rns_id, "alice.rns");
    assert_eq!(event.token_id.bytes, vec![20u8; 32]);
    assert_eq!(event.wallet.bytes, vec![4u8; 32]);
}

#[test]
fn block_list_upsert_never_duplicates() {
    let mut store = initialized_store();
    let owner = addr(1);
    set_is_blocked_address(&mut store, &owner, &addr(4), true).unwrap();
    set_is_blocked_address(&mut store, &owner, &addr(4), false).unwrap();
    let p = store.project.as_ref().unwrap();
    let matching: Vec<_> = p
        .is_blocked_address
        .iter()
        .filter(|e| e.key.bytes == vec![4u8; 32])
        .collect();
    assert_eq!(matching.len(), 1);
    assert!(!matching[0].value);
    assert!(!p.is_blocked_address(&addr(4)));
}

#[test]
fn rns_block_list_upsert_never_duplicates() {
    let mut store = initialized_store();
    let owner = addr(1);
    set_is_blocked_rns_id(&mut store, &owner, &"alice.rns".to_string(), true).unwrap();
    set_is_blocked_rns_id(&mut store, &owner, &"alice.rns".to_string(), false).unwrap();
    set_is_blocked_rns_id(&mut store, &owner, &"bob.rns".to_string(), true).unwrap();
    let p = store.project.as_ref().unwrap();
    let matching: Vec<_> =
        p.is_blocked_rns_id.iter().filter(|e| e.key == "alice.rns").collect();
    assert_eq!(matching.len(), 1);
    assert!(!matching[0].value);
    assert!(!p.is_blocked_rns_id(&"alice.rns".to_string()));
    assert!(p.is_blocked_rns_id(&"bob.rns".to_string()));
}

#[test]
fn admin_ops_reject_non_owner() {
    let mut store = initialized_store();
    let stranger = addr(9);
    assert_eq!(set_mint_price(&mut store, &stranger, 5).unwrap_err(), ErrorCode::InvalidAuthority);
    assert_eq!(
        set_base_uri(&mut store, &stranger, "x".to_string()).unwrap_err(),
        ErrorCode::InvalidAuthority
    );
    assert_eq!(
        set_fee_recipient(&mut store, &stranger, &addr(8)).unwrap_err(),
        ErrorCode::InvalidAuthority
    );
    assert_eq!(
        set_is_blocked_address(&mut store, &stranger, &addr(8), true).unwrap_err(),
        ErrorCode::InvalidAuthority
    );
    assert_eq!(
        set_is_blocked_rns_id(&mut store, &stranger, &"x".to_string(), true).unwrap_err(),
        ErrorCode::InvalidAuthority
    );
    let p = store.project.as_ref().unwrap();
    assert_eq!(p.mint_price, 100);
    assert_eq!(p.base_uri, "https://rns.example/");
}

#[test]
fn set_mint_price_and_base_uri_take_effect() {
    let mut store = initialized_store();
    let owner = addr(1);
    set_mint_price(&mut store, &owner, 42).unwrap();
    set_base_uri(&mut store, &owner, "ipfs://x/".to_string()).unwrap();
    let p = store.project.as_ref().unwrap();
    assert_eq!(p.mint_price, 42);
    assert_eq!(p.base_uri, "ipfs://x/");
}

#[test]
fn set_merkle_root_rejects_identity_mismatch_and_keeps_record() {
    let mut store = initialized_store();
    let owner = addr(1);
    let wallet = addr(4);
    let nft_mint = addr(20);
    // Bind the token to "alice.rns" first.
    verify(
        &mut store,
        &owner,
        &"alice.rns".to_string(),
        &wallet,
        &wallet,
        &nft_mint,
        &addr(21),
        &addr(10),
        &"0xabc".to_string(),
        &"0".to_string(),
    )
    .unwrap();
    let r = set_merkle_root(
        &mut store,
        &owner,
        &"bob.rns".to_string(),
        &"0xdef".to_string(),
        &nft_mint,
    );
    assert_eq!(r.unwrap_err(), ErrorCode::RnsIsNotMatch);
    let e = &store.nft_statuses[0];
    assert_eq!(e.status.rns_id, "alice.rns");
    assert_eq!(e.status.merkle_root, "0xabc");
}

#[test]
fn set_merkle_root_updates_on_matching_identity() {
    let mut store = initialized_store();
    let owner = addr(1);
    let wallet = addr(4);
    let nft_mint = addr(20);
    verify(
        &mut store,
        &owner,
        &"alice.rns".to_string(),
        &wallet,
        &wallet,
        &nft_mint,
        &addr(21),
        &addr(10),
        &"0xabc".to_string(),
        &"0".to_string(),
    )
    .unwrap();
    set_merkle_root(
        &mut store,
        &owner,
        &"alice.rns".to_string(),
        &"0xdef".to_string(),
        &nft_mint,
    )
    .unwrap();
    let e = &store.nft_statuses[0];
    assert_eq!(e.status.rns_id, "alice.rns");
    assert_eq!(e.status.merkle_root, "0xdef");
}

#[test]
fn burn_rejects_stranger_and_missing_records() {
    let mut store = initialized_store();
    let r = burn(&mut store, &addr(9), &"alice.rns".to_string(), &addr(4), &addr(20));
    assert_eq!(r.unwrap_err(), ErrorCode::InvalidAuthority);
}

/// End-to-end: initialize, authorize (pays the mint price), airdrop
/// (mint + freeze), verify (metadata + gates + count), burn (thaw + burn
/// + reset), then the full cycle again as if fresh.
#[test]
fn end_to_end_lifecycle_and_burn_reset() {
    let mut store = RecordStore::new();
    let owner = addr(1);
    let fee_recipient = addr(2);
    let wallet = addr(4);
    let nft_mint = addr(20);
    let project_address = addr(21);
    let project_mint = addr(10);
    let id = "alice.rns".to_string();

    initialize(&mut store, &owner, &args(), &project_mint, &addr(11), 254, 253).unwrap();
    set_fee_recipient(&mut store, &owner, &fee_recipient).unwrap();

    // authorize_mint pays mint_price to fee_recipient.
    let (actions, _) =
        authorize_mint(&mut store, &wallet, &id, &wallet, 1_000, &fee_recipient, 250).unwrap();
    match &actions[0] {
        TokenAction::TransferLamports { from, to, amount } => {
            assert_eq!(from.bytes, wallet.bytes);
            assert_eq!(to.bytes, fee_recipient.bytes);
            assert_eq!(*amount, 100);
        }
        other => panic!("unexpected action: {other:?}"),
    }

    // airdrop mints and freezes token T for W.
    let (actions, _) = airdrop(
        &mut store, &owner, &id, &wallet, &wallet, &nft_mint, &"0xabc".to_string(),
        &"0".to_string(),
    )
    .unwrap();
    assert!(matches!(&actions[0], TokenAction::MintTo { .. }));
    assert!(matches!(&actions[1], TokenAction::FreezeAccount { .. }));

    // verify sets is_minted, binds the token, counts the verification.
    let actions = verify(
        &mut store,
        &owner,
        &id,
        &wallet,
        &wallet,
        &nft_mint,
        &project_address,
        &project_mint,
        &"0xabc".to_string(),
        &"0".to_string(),
    )
    .unwrap();
    match &actions[0] {
        TokenAction::CreateMetadata { name, symbol, uri, creators, collection, .. } => {
            assert_eq!(name, "LDID");
            assert_eq!(symbol, "LD");
            assert_eq!(uri, "https://rns.example/alice.rns.json");
            let cs = creators.as_ref().unwrap();
            assert_eq!(cs.len(), 2);
            assert_eq!(cs[0].address.bytes, project_address.bytes);
            assert!(cs[0].verified);
            assert_eq!(cs[0].share, 0);
            assert_eq!(cs[1].address.bytes, owner.bytes);
            assert!(!cs[1].verified);
            assert_eq!(cs[1].share, 100);
            assert_eq!(collection.as_ref().unwrap().bytes, project_mint.bytes);
        }
        other => panic!("unexpected action: {other:?}"),
    }
    assert!(matches!(&actions[1], TokenAction::VerifyCollection { .. }));

    let user = &store.user_statuses[0];
    assert!(user.status.is_minted);
    assert!(user.status.is_authorized);
    assert_eq!(user.status.rns_id, "alice.rns");
    assert_eq!(store.rns_statuses[0].status.num, 1);
    assert_eq!(store.nft_statuses[0].status.rns_id, "alice.rns");
    assert_eq!(store.nft_statuses[0].status.merkle_root, "0xabc");
    assert_eq!(store.nft_statuses[0].status.mint.bytes, nft_mint.bytes);

    // burn thaws and burns T, clears the token record, resets the gates.
    let (actions, _) = burn(&mut store, &wallet, &id, &wallet, &nft_mint).unwrap();
    match (&actions[0], &actions[1]) {
        (
            TokenAction::ThawAccount { mint: m1, .. },
            TokenAction::BurnToken { mint: m2, amount, .. },
        ) => {
            assert_eq!(m1.bytes, nft_mint.bytes);
            assert_eq!(m2.bytes, nft_mint.bytes);
            assert_eq!(*amount, 1);
        }
        other => panic!("unexpected actions: {other:?}"),
    }
    let user = &store.user_statuses[0];
    assert!(!user.status.is_minted);
    assert!(!user.status.is_authorized);
    assert_eq!(store.nft_statuses[0].status.rns_id, "");
    assert_eq!(store.nft_statuses[0].status.merkle_root, "");

    // The cycle succeeds again exactly as if performed fresh.
    let r = authorize_mint(&mut store, &wallet, &id, &wallet, 1_000, &fee_recipient, 250);
    assert!(r.is_ok());
    let r = airdrop(
        &mut store, &owner, &id, &wallet, &wallet, &nft_mint, &"0xabc".to_string(),
        &"0".to_string(),
    );
    assert!(r.is_ok());
    let r = verify(
        &mut store,
        &owner,
        &id,
        &wallet,
        &wallet,
        &nft_mint,
        &project_address,
        &project_mint,
        &"0xabc".to_string(),
        &"0".to_string(),
    );
    assert!(r.is_ok());
    // Verification counts accumulate across cycles.
    assert_eq!(store.rns_statuses[0].status.num, 2);
}

#[test]
fn error_messages_match_their_codes() {
    assert_eq!(
        ErrorCode::LDIDHasAuthorized.message(),
        "Authorization is in process, please wait."
    );
    assert_eq!(
        ErrorCode::LDIDHasMinted.message(),
        "One LDID can only mint once to the same wallet."
    );
    assert_eq!(ErrorCode::WalletBlacklisted.message(), "The wallet is blacklisted.");
    assert_eq!(ErrorCode::LdidBlacklisted.message(), "The LDID is blacklisted.");
    assert_eq!(ErrorCode::RnsIsNotMatch.message(), "RnsIs doesn't matched.");
    assert_eq!(ErrorCode::InvalidFeeRecipient.message(), "Invalid recipient address");
    assert_eq!(
        ErrorCode::InsufficientBalance.message(),
        "You don't have enough SOL to mint this NFT"
    );
    assert_eq!(ErrorCode::InvalidAuthority.message(), "The authority provided is not valid");
    assert_eq!(
        ErrorCode::AlreadyInitialized.message(),
        "The project is already initialized."
    );
}

#[test]
fn rns_block_list_last_value_wins() {
    let mut store = initialized_store();
    let owner = addr(1);
    set_is_blocked_rns_id(&mut store, &owner, &"alice.rns".to_string(), false).unwrap();
    set_is_blocked_rns_id(&mut store, &owner, &"alice.rns".to_string(), true).unwrap();
    let p = store.project.as_ref().unwrap();
    assert_eq!(p.is_blocked_rns_id.len(), 1);
    assert!(p.is_blocked_rns_id(&"alice.rns".to_string()));
}

#[test]
fn initialize_twice_fails_and_keeps_the_record() {
    let mut store = RecordStore::new();
    let owner = addr(1);
    initialize(&mut store, &owner, &args(), &addr(10), &addr(11), 254, 253).unwrap();
    let other_args = InitializeNonTransferableProjectArgs {
        name: "OTHER".to_string(),
        symbol: "OT".to_string(),
        base_uri: "https://other.example/".to_string(),
        uri: "https://other.example/c.json".to_string(),
    };
    let r = initialize(&mut store, &addr(9), &other_args, &addr(10), &addr(11), 1, 2);
    assert_eq!(r.unwrap_err(), ErrorCode::AlreadyInitialized);
    let p = store.project.as_ref().unwrap();
    assert_eq!(p.authority.bytes, vec![1u8; 32]);
    assert_eq!(p.name, "LDID");
    assert_eq!(p.base_uri, "https://rns.example/");
}

#[test]
fn try_verify_refuses_a_count_at_the_limit() {
    let mut store = initialized_store();
    let owner = addr(1);
    store.rns_statuses.push(RnsIdStatusEntry {
        id_hash: hash_seed("alice.rns"),
        status: RnsIdStatusAccount { authority: addr(1), num: u64::MAX },
    });
    let r = try_verify(
        &mut store,
        &owner,
        &"alice.rns".to_string(),
        &addr(4),
        &addr(4),
        &addr(20),
        &addr(21),
        &addr(10),
        &"0xabc".to_string(),
        &"0".to_string(),
    );
    assert!(r.is_none());
    assert_eq!(store.rns_statuses.len(), 1);
    assert_eq!(store.rns_statuses[0].status.num, u64::MAX);
    assert!(store.user_statuses.is_empty());

    // An identity whose count is below the limit verifies as usual.
    let r = try_verify(
        &mut store,
        &owner,
        &"bob.rns".to_string(),
        &addr(4),
        &addr(4),
        &addr(22),
        &addr(21),
        &addr(10),
        &"0xdef".to_string(),
        &"1".to_string(),
    );
    assert!(r.unwrap().is_ok());
}
