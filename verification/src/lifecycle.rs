//! The guarded lifecycle operations over a collection's records.
//!
//! Each operation takes the record store, the signing authority, and the
//! operation's arguments; it either mutates the records and returns the
//! actions owed to the ledger runtime, or fails with a typed code and
//! leaves every record unchanged. Failure is all-or-nothing: no operation
//! mutates a record and then fails.

use vstd::prelude::*;
use vstd::string::StringExecFns;

use crate::address::Address;
use crate::actions::{AirdropEvent, AuthorizeMintEvent, BurnEvent, Creator, TokenAction};
use crate::addressing::sha256_of;
use crate::error::ErrorCode;
use crate::state::{
    clone_address, clone_bytes, find_nft, find_rns, find_user, has_nft, has_rns, has_user,
    nft_index, nft_record, rns_index, rns_record, user_index, user_record,
    NftStatusAccount, NftStatusEntry, ProjectAccount, RecordStore, RnsIdStatusAccount,
    RnsIdStatusEntry, UserStatusAccount, UserStatusEntry,
};

verus! {

/// The mint price a collection starts with, in the smallest currency unit.
pub const DEFAULT_MINT_PRICE: u64 = 100;

/// The signer is the recorded owner of the project record.
pub open spec fn admin_ok(pre: RecordStore, authority: Seq<u8>) -> bool {
    pre.project matches Some(p) && p.authority@ == authority
}

/// What `set_mint_price` does: owner-only; on success only the mint price
/// of the project record changes.
pub open spec fn set_mint_price_post(
    pre: RecordStore,
    post: RecordStore,
    authority: Seq<u8>,
    mint_price: u64,
    r: Result<(), ErrorCode>,
) -> bool {
    if !admin_ok(pre, authority) {
        r == Err::<(), ErrorCode>(ErrorCode::InvalidAuthority) && post == pre
    } else {
        &&& r == Ok::<(), ErrorCode>(())
        &&& pre.project matches Some(p) && post == (RecordStore {
            project: Some((ProjectAccount { mint_price, ..p })),
            ..pre
        })
    }
}

/// Sets the collection's mint price. Only the project owner may do so.
pub fn set_mint_price(store: &mut RecordStore, authority: &Address, mint_price: u64) -> (r: Result<
    (),
    ErrorCode,
>)
    requires
        old(store).wf(),
        old(store).project is Some,
    ensures
        final(store).wf(),
        set_mint_price_post(*old(store), *final(store), authority@, mint_price, r),
{
    match &mut store.project {
        Some(p) => {
            if !crate::address::addr_eq(&p.authority, authority) {
                return Err(ErrorCode::InvalidAuthority);
            }
            p.mint_price = mint_price;
            Ok(())
        },
        None => Err(ErrorCode::InvalidAuthority),
    }
}

/// What `set_base_uri` does: owner-only; on success only the base URI of
/// the project record changes.
pub open spec fn set_base_uri_post(
    pre: RecordStore,
    post: RecordStore,
    authority: Seq<u8>,
    uri: Seq<char>,
    r: Result<(), ErrorCode>,
) -> bool {
    if !admin_ok(pre, authority) {
        r == Err::<(), ErrorCode>(ErrorCode::InvalidAuthority) && post == pre
    } else {
        &&& r == Ok::<(), ErrorCode>(())
        &&& pre.project matches Some(p) && post.project matches Some(q) && q.base_uri@ == uri
            && q == (ProjectAccount { base_uri: q.base_uri, ..p })
        &&& post == (RecordStore { project: post.project, ..pre })
    }
}

/// Sets the collection's base URI. Only the project owner may do so.
pub fn set_base_uri(store: &mut RecordStore, authority: &Address, uri: String) -> (r: Result<
    (),
    ErrorCode,
>)
    requires
        old(store).wf(),
        old(store).project is Some,
    ensures
        final(store).wf(),
        set_base_uri_post(*old(store), *final(store), authority@, uri@, r),
{
    match &mut store.project {
        Some(p) => {
            if !crate::address::addr_eq(&p.authority, authority) {
                return Err(ErrorCode::InvalidAuthority);
            }
            p.base_uri = uri;
            Ok(())
        },
        None => Err(ErrorCode::InvalidAuthority),
    }
}

/// What `set_fee_recipient` does: owner-only; on success only the fee
/// recipient of the project record changes.
pub open spec fn set_fee_recipient_post(
    pre: RecordStore,
    post: RecordStore,
    authority: Seq<u8>,
    fee_recipient: Seq<u8>,
    r: Result<(), ErrorCode>,
) -> bool {
    if !admin_ok(pre, authority) {
        r == Err::<(), ErrorCode>(ErrorCode::InvalidAuthority) && post == pre
    } else {
        &&& r == Ok::<(), ErrorCode>(())
        &&& pre.project matches Some(p) && post.project matches Some(q) && q.fee_recipient@
            == fee_recipient && q == (ProjectAccount { fee_recipient: q.fee_recipient, ..p })
        &&& post == (RecordStore { project: post.project, ..pre })
    }
}

/// Sets the collection's fee recipient. Only the project owner may do so.
pub fn set_fee_recipient(store: &mut RecordStore, authority: &Address, fee_recipient: &Address) -> (r:
    Result<(), ErrorCode>)
    requires
        old(store).wf(),
        old(store).project is Some,
    ensures
        final(store).wf(),
        set_fee_recipient_post(*old(store), *final(store), authority@, fee_recipient@, r),
{
    match &mut store.project {
        Some(p) => {
            if !crate::address::addr_eq(&p.authority, authority) {
                return Err(ErrorCode::InvalidAuthority);
            }
            p.fee_recipient = clone_address(fee_recipient);
            Ok(())
        },
        None => Err(ErrorCode::InvalidAuthority),
    }
}

/// A scan-and-upsert on the wallet block-list: overwrite the flag of the
/// entry with this key in place, or append a new entry; never duplicate.
pub open spec fn blocked_addr_upsert(
    pre: Seq<crate::state::BlockedAddress>,
    post: Seq<crate::state::BlockedAddress>,
    key: Seq<u8>,
    value: bool,
) -> bool {
    if exists|i: int| 0 <= i < pre.len() && pre[i].key@ == key {
        let i = choose|i: int| 0 <= i < pre.len() && pre[i].key@ == key;
        &&& post.len() == pre.len()
        &&& post[i].key@ == key
        &&& post[i].value == value
        &&& forall|j: int| 0 <= j < pre.len() && j != i ==> post[j] == pre[j]
    } else {
        &&& post.len() == pre.len() + 1
        &&& post[pre.len() as int].key@ == key
        &&& post[pre.len() as int].value == value
        &&& forall|j: int| 0 <= j < pre.len() ==> post[j] == pre[j]
    }
}

/// A scan-and-upsert on the identity block-list.
pub open spec fn blocked_rns_upsert(
    pre: Seq<crate::state::BlockedRnsID>,
    post: Seq<crate::state::BlockedRnsID>,
    key: Seq<char>,
    value: bool,
) -> bool {
    if exists|i: int| 0 <= i < pre.len() && pre[i].key@ == key {
        let i = choose|i: int| 0 <= i < pre.len() && pre[i].key@ == key;
        &&& post.len() == pre.len()
        &&& post[i].key@ == key
        &&& post[i].value == value
        &&& forall|j: int| 0 <= j < pre.len() && j != i ==> post[j] == pre[j]
    } else {
        &&& post.len() == pre.len() + 1
        &&& post[pre.len() as int].key@ == key
        &&& post[pre.len() as int].value == value
        &&& forall|j: int| 0 <= j < pre.len() ==> post[j] == pre[j]
    }
}

/// What `set_is_blocked_address` does: owner-only; on success the wallet
/// block-list is upserted and nothing else changes.
pub open spec fn set_is_blocked_address_post(
    pre: RecordStore,
    post: RecordStore,
    authority: Seq<u8>,
    wallet: Seq<u8>,
    is_blocked: bool,
    r: Result<(), ErrorCode>,
) -> bool {
    if !admin_ok(pre, authority) {
        r == Err::<(), ErrorCode>(ErrorCode::InvalidAuthority) && post == pre
    } else {
        &&& r == Ok::<(), ErrorCode>(())
        &&& pre.project matches Some(p) && post.project matches Some(q) && blocked_addr_upsert(
            p.is_blocked_address@,
            q.is_blocked_address@,
            wallet,
            is_blocked,
        ) && q == (ProjectAccount { is_blocked_address: q.is_blocked_address, ..p })
        &&& post == (RecordStore { project: post.project, ..pre })
    }
}

/// Marks or unmarks a wallet on the block-list. Only the project owner may
/// do so. An entry already present is updated in place, never duplicated.
pub fn set_is_blocked_address(
    store: &mut RecordStore,
    authority: &Address,
    wallet: &Address,
    is_blocked: bool,
) -> (r: Result<(), ErrorCode>)
    requires
        old(store).wf(),
        old(store).project is Some,
    ensures
        final(store).wf(),
        set_is_blocked_address_post(*old(store), *final(store), authority@, wallet@, is_blocked, r),
{
    match &mut store.project {
        Some(p) => {
            if !crate::address::addr_eq(&p.authority, authority) {
                return Err(ErrorCode::InvalidAuthority);
            }
            let found = crate::state::find_blocked_addr(&p.is_blocked_address, wallet);
            let entry = crate::state::BlockedAddress {
                key: clone_address(wallet),
                value: is_blocked,
            };
            match found {
                Some(k) => {
                    proof {
                        let c = choose|j: int|
                            0 <= j < p.is_blocked_address@.len() && p.is_blocked_address@[j].key@
                                == wallet@;
                        assert(p.is_blocked_address@[k as int].key@ == wallet@);
                        assert(c == k as int);
                    }
                    p.is_blocked_address[k] = entry;
                },
                None => {
                    p.is_blocked_address.push(entry);
                },
            }
            Ok(())
        },
        None => Err(ErrorCode::InvalidAuthority),
    }
}

/// What `set_is_blocked_rns_id` does: owner-only; on success the identity
/// block-list is upserted and nothing else changes.
pub open spec fn set_is_blocked_rns_id_post(
    pre: RecordStore,
    post: RecordStore,
    authority: Seq<u8>,
    rns_id: Seq<char>,
    is_blocked: bool,
    r: Result<(), ErrorCode>,
) -> bool {
    if !admin_ok(pre, authority) {
        r == Err::<(), ErrorCode>(ErrorCode::InvalidAuthority) && post == pre
    } else {
        &&& r == Ok::<(), ErrorCode>(())
        &&& pre.project matches Some(p) && post.project matches Some(q) && blocked_rns_upsert(
            p.is_blocked_rns_id@,
            q.is_blocked_rns_id@,
            rns_id,
            is_blocked,
        ) && q == (ProjectAccount { is_blocked_rns_id: q.is_blocked_rns_id, ..p })
        &&& post == (RecordStore { project: post.project, ..pre })
    }
}

/// Marks or unmarks an identity on the block-list. Only the project owner
/// may do so. An entry already present is updated in place, never
/// duplicated.
pub fn set_is_blocked_rns_id(
    store: &mut RecordStore,
    authority: &Address,
    rns_id: &String,
    is_blocked: bool,
) -> (r: Result<(), ErrorCode>)
    requires
        old(store).wf(),
        old(store).project is Some,
    ensures
        final(store).wf(),
        set_is_blocked_rns_id_post(*old(store), *final(store), authority@, rns_id@, is_blocked, r),
{
    match &mut store.project {
        Some(p) => {
            if !crate::address::addr_eq(&p.authority, authority) {
                return Err(ErrorCode::InvalidAuthority);
            }
            let found = crate::state::find_blocked_rns(&p.is_blocked_rns_id, rns_id);
            let entry = crate::state::BlockedRnsID { key: rns_id.clone(), value: is_blocked };
            match found {
                Some(k) => {
                    proof {
                        let c = choose|j: int|
                            0 <= j < p.is_blocked_rns_id@.len() && p.is_blocked_rns_id@[j].key@
                                == rns_id@;
                        assert(p.is_blocked_rns_id@[k as int].key@ == rns_id@);
                        assert(c == k as int);
                    }
                    p.is_blocked_rns_id[k] = entry;
                },
                None => {
                    p.is_blocked_rns_id.push(entry);
                },
            }
            Ok(())
        },
        None => Err(ErrorCode::InvalidAuthority),
    }
}

/// What `set_merkle_root` does: owner-only; the supplied identity must
/// equal the one recorded for the token, else the call fails with a
/// mismatch error and the record keeps its fingerprint; on success only
/// the fingerprint of that token's record changes.
pub open spec fn set_merkle_root_post(
    pre: RecordStore,
    post: RecordStore,
    authority: Seq<u8>,
    rns_id: Seq<char>,
    merkle_root: Seq<char>,
    mint: Seq<u8>,
    r: Result<(), ErrorCode>,
) -> bool {
    if !admin_ok(pre, authority) {
        r == Err::<(), ErrorCode>(ErrorCode::InvalidAuthority) && post == pre
    } else if nft_record(pre.nft_statuses@, mint).rns_id@ != rns_id {
        r == Err::<(), ErrorCode>(ErrorCode::RnsIsNotMatch) && post == pre
    } else {
        &&& r == Ok::<(), ErrorCode>(())
        &&& post.nft_statuses@.len() == pre.nft_statuses@.len()
        &&& {
            let i = nft_index(pre.nft_statuses@, mint);
            let e = pre.nft_statuses@[i];
            let e2 = post.nft_statuses@[i];
            &&& e2.mint@ == e.mint@
            &&& e2.status.merkle_root@ == merkle_root
            &&& e2.status.rns_id@ == e.status.rns_id@
            &&& e2.status.authority@ == e.status.authority@
            &&& e2.status.mint@ == e.status.mint@
            &&& e2.status.bump == e.status.bump
            &&& forall|j: int|
                0 <= j < pre.nft_statuses@.len() && j != i ==> post.nft_statuses@[j]
                    == pre.nft_statuses@[j]
        }
        &&& post == (RecordStore { nft_statuses: post.nft_statuses, ..pre })
    }
}

/// Sets the content fingerprint recorded for a token. Only the project
/// owner may do so, and only when the supplied identity matches the
/// recorded one.
pub fn set_merkle_root(
    store: &mut RecordStore,
    authority: &Address,
    rns_id: &String,
    merkle_root: &String,
    mint: &Address,
) -> (r: Result<(), ErrorCode>)
    requires
        old(store).wf(),
        old(store).project is Some,
        has_nft(old(store).nft_statuses@, mint@),
    ensures
        final(store).wf(),
        set_merkle_root_post(
            *old(store),
            *final(store),
            authority@,
            rns_id@,
            merkle_root@,
            mint@,
            r,
        ),
{
    let admin_matches = match &store.project {
        Some(p) => crate::address::addr_eq(&p.authority, authority),
        None => false,
    };
    if !admin_matches {
        return Err(ErrorCode::InvalidAuthority);
    }
    let idx = match find_nft(&store.nft_statuses, mint) {
        Some(i) => i,
        None => {
            proof {
                assert(false);
            }
            return Err(ErrorCode::InvalidAuthority);
        },
    };
    let old_entry = &store.nft_statuses[idx];
    if !(old_entry.status.rns_id == *rns_id) {
        return Err(ErrorCode::RnsIsNotMatch);
    }
    let new_entry = NftStatusEntry {
        mint: clone_address(&old_entry.mint),
        status: NftStatusAccount {
            authority: clone_address(&old_entry.status.authority),
            bump: old_entry.status.bump,
            rns_id: old_entry.status.rns_id.clone(),
            merkle_root: merkle_root.clone(),
            mint: clone_address(&old_entry.status.mint),
        },
    };
    store.nft_statuses[idx] = new_entry;
    Ok(())
}

/// The user status update of a successful authorization: the record for
/// (digest, wallet) is created or updated with the authorization gate set,
/// the authorizing owner recorded, and everything else kept; no other
/// entry changes.
pub open spec fn authorize_user_update(
    pre: Seq<UserStatusEntry>,
    post: Seq<UserStatusEntry>,
    h: Seq<u8>,
    w: Seq<u8>,
    authority: Seq<u8>,
    bump: u8,
) -> bool {
    if has_user(pre, h, w) {
        let i = user_index(pre, h, w);
        &&& post.len() == pre.len()
        &&& forall|j: int| 0 <= j < pre.len() && j != i ==> post[j] == pre[j]
        &&& post[i].id_hash@ == h
        &&& post[i].wallet@ == w
        &&& post[i].status.is_authorized == true
        &&& post[i].status.is_minted == pre[i].status.is_minted
        &&& post[i].status.rns_id@ == pre[i].status.rns_id@
        &&& post[i].status.authority@ == authority
        &&& post[i].status.bump == bump
    } else {
        &&& post.len() == pre.len() + 1
        &&& forall|j: int| 0 <= j < pre.len() ==> post[j] == pre[j]
        &&& post[pre.len() as int].id_hash@ == h
        &&& post[pre.len() as int].wallet@ == w
        &&& post[pre.len() as int].status.is_authorized == true
        &&& post[pre.len() as int].status.is_minted == false
        &&& post[pre.len() as int].status.rns_id@ == Seq::<char>::empty()
        &&& post[pre.len() as int].status.authority@ == authority
        &&& post[pre.len() as int].status.bump == bump
    }
}

/// What `authorize_mint` does. The fee recipient handed in must match the
/// recorded one, the payer's balance must cover the mint price, and the
/// (identity, wallet) pair must not be authorized yet; then the fee
/// transfer is owed, the authorization gate is set, and nothing else
/// changes. Each failure leaves every record unchanged.
pub open spec fn authorize_mint_post(
    pre: RecordStore,
    post: RecordStore,
    authority: Seq<u8>,
    rns_id: Seq<char>,
    wallet: Seq<u8>,
    payer_balance: u64,
    fee_recipient: Seq<u8>,
    bump: u8,
    r: Result<(Vec<TokenAction>, AuthorizeMintEvent), ErrorCode>,
) -> bool {
    pre.project matches Some(p) && {
        let h = sha256_of(rns_id);
        if fee_recipient != p.fee_recipient@ {
            r == Err::<(Vec<TokenAction>, AuthorizeMintEvent), ErrorCode>(
                ErrorCode::InvalidFeeRecipient,
            ) && post == pre
        } else if payer_balance < p.mint_price {
            r == Err::<(Vec<TokenAction>, AuthorizeMintEvent), ErrorCode>(
                ErrorCode::InsufficientBalance,
            ) && post == pre
        } else if pre.authorized_gate(h, wallet) {
            r == Err::<(Vec<TokenAction>, AuthorizeMintEvent), ErrorCode>(
                ErrorCode::LDIDHasAuthorized,
            ) && post == pre
        } else {
            &&& r matches Ok(ok)
            &&& ok.0@.len() == 1
            &&& (ok.0@[0] matches TokenAction::TransferLamports { from, to, amount } && from@
                == authority && to@ == p.fee_recipient@ && amount == p.mint_price)
            &&& ok.1.rns_id@ == rns_id
            &&& ok.1.wallet@ == wallet
            &&& post.project == pre.project
            &&& post.rns_statuses == pre.rns_statuses
            &&& post.nft_statuses == pre.nft_statuses
            &&& authorize_user_update(
                pre.user_statuses@,
                post.user_statuses@,
                h,
                wallet,
                authority,
                bump,
            )
        }
    }
}

/// Authorizes one future mint for (identity, wallet) against a one-time
/// fee. The fee transfer from the signer to the recorded fee recipient is
/// returned as the action owed; a pair already authorized is rejected
/// until a burn resets its gate. `bump` is the disambiguation byte the
/// runtime derived alongside the record's address; it is recorded as is.
pub fn authorize_mint(
    store: &mut RecordStore,
    authority: &Address,
    rns_id: &String,
    wallet: &Address,
    payer_balance: u64,
    fee_recipient: &Address,
    bump: u8,
) -> (r: Result<(Vec<TokenAction>, AuthorizeMintEvent), ErrorCode>)
    requires
        old(store).wf(),
        old(store).project is Some,
    ensures
        final(store).wf(),
        authorize_mint_post(
            *old(store),
            *final(store),
            authority@,
            rns_id@,
            wallet@,
            payer_balance,
            fee_recipient@,
            bump,
            r,
        ),
{
    let (price, fee_ok) = match &store.project {
        Some(p) => (p.mint_price, crate::address::addr_eq(&p.fee_recipient, fee_recipient)),
        None => {
            proof {
                assert(false);
            }
            (0u64, false)
        },
    };
    if !fee_ok {
        return Err(ErrorCode::InvalidFeeRecipient);
    }
    if payer_balance < price {
        return Err(ErrorCode::InsufficientBalance);
    }
    let h = crate::addressing::hash_seed(rns_id.as_str());
    let ghost pre_users = store.user_statuses@;
    match find_user(&store.user_statuses, &h, wallet) {
        Some(i) => {
            if store.user_statuses[i].status.is_authorized {
                return Err(ErrorCode::LDIDHasAuthorized);
            }
            let e = &store.user_statuses[i];
            let new_entry = UserStatusEntry {
                id_hash: clone_bytes(&e.id_hash),
                wallet: clone_address(&e.wallet),
                status: UserStatusAccount {
                    authority: clone_address(authority),
                    rns_id: e.status.rns_id.clone(),
                    is_minted: e.status.is_minted,
                    is_authorized: true,
                    bump,
                },
            };
            store.user_statuses[i] = new_entry;
            proof {
                crate::state::lemma_user_unique_after_update(
                    pre_users,
                    store.user_statuses@,
                    i as int,
                );
            }
        },
        None => {
            store.user_statuses.push(
                UserStatusEntry {
                    id_hash: h,
                    wallet: clone_address(wallet),
                    status: UserStatusAccount {
                        authority: clone_address(authority),
                        rns_id: String::new(),
                        is_minted: false,
                        is_authorized: true,
                        bump,
                    },
                },
            );
            proof {
                crate::state::lemma_user_unique_after_push(
                    pre_users,
                    store.user_statuses@,
                    sha256_of(rns_id@),
                    wallet@,
                );
            }
        },
    }
    let mut actions: Vec<TokenAction> = Vec::new();
    actions.push(
        TokenAction::TransferLamports {
            from: clone_address(authority),
            to: clone_address(fee_recipient),
            amount: price,
        },
    );
    let event = AuthorizeMintEvent { rns_id: rns_id.clone(), wallet: clone_address(wallet) };
    Ok((actions, event))
}

/// The verification count recorded for this digest sits at the machine
/// limit, so one more cannot be counted.
pub open spec fn count_at_limit(s: Seq<RnsIdStatusEntry>, h: Seq<u8>) -> bool {
    has_rns(s, h) && rns_record(s, h).num == u64::MAX
}

/// The user status update of a successful verification: the record for
/// (digest, wallet) is created or updated with the mint gate set, the
/// token owner and identity recorded; no other entry changes.
pub open spec fn verify_user_update(
    pre: Seq<UserStatusEntry>,
    post: Seq<UserStatusEntry>,
    h: Seq<u8>,
    w: Seq<u8>,
    user_account: Seq<u8>,
    rns_id: Seq<char>,
) -> bool {
    if has_user(pre, h, w) {
        let i = user_index(pre, h, w);
        &&& post.len() == pre.len()
        &&& forall|j: int| 0 <= j < pre.len() && j != i ==> post[j] == pre[j]
        &&& post[i].id_hash@ == h
        &&& post[i].wallet@ == w
        &&& post[i].status.is_minted == true
        &&& post[i].status.is_authorized == pre[i].status.is_authorized
        &&& post[i].status.rns_id@ == rns_id
        &&& post[i].status.authority@ == user_account
        &&& post[i].status.bump == pre[i].status.bump
    } else {
        &&& post.len() == pre.len() + 1
        &&& forall|j: int| 0 <= j < pre.len() ==> post[j] == pre[j]
        &&& post[pre.len() as int].id_hash@ == h
        &&& post[pre.len() as int].wallet@ == w
        &&& post[pre.len() as int].status.is_minted == true
        &&& post[pre.len() as int].status.is_authorized == false
        &&& post[pre.len() as int].status.rns_id@ == rns_id
        &&& post[pre.len() as int].status.authority@ == user_account
        &&& post[pre.len() as int].status.bump == 0
    }
}

/// The token status update of a successful verification: the record for
/// the token is created or updated with the owner, identity, fingerprint
/// and token address; no other entry changes.
pub open spec fn verify_nft_update(
    pre: Seq<NftStatusEntry>,
    post: Seq<NftStatusEntry>,
    m: Seq<u8>,
    user_account: Seq<u8>,
    rns_id: Seq<char>,
    merkle_root: Seq<char>,
) -> bool {
    if has_nft(pre, m) {
        let i = nft_index(pre, m);
        &&& post.len() == pre.len()
        &&& forall|j: int| 0 <= j < pre.len() && j != i ==> post[j] == pre[j]
        &&& post[i].mint@ == m
        &&& post[i].status.authority@ == user_account
        &&& post[i].status.rns_id@ == rns_id
        &&& post[i].status.merkle_root@ == merkle_root
        &&& post[i].status.mint@ == m
        &&& post[i].status.bump == pre[i].status.bump
    } else {
        &&& post.len() == pre.len() + 1
        &&& forall|j: int| 0 <= j < pre.len() ==> post[j] == pre[j]
        &&& post[pre.len() as int].mint@ == m
        &&& post[pre.len() as int].status.authority@ == user_account
        &&& post[pre.len() as int].status.rns_id@ == rns_id
        &&& post[pre.len() as int].status.merkle_root@ == merkle_root
        &&& post[pre.len() as int].status.mint@ == m
        &&& post[pre.len() as int].status.bump == 0
    }
}

/// The identity status update of a successful verification: the count for
/// the digest rises by exactly one (a missing record counts as zero) and
/// the signer is recorded; no other entry changes.
pub open spec fn verify_rns_update(
    pre: Seq<RnsIdStatusEntry>,
    post: Seq<RnsIdStatusEntry>,
    h: Seq<u8>,
    authority: Seq<u8>,
) -> bool {
    if has_rns(pre, h) {
        let i = rns_index(pre, h);
        &&& post.len() == pre.len()
        &&& forall|j: int| 0 <= j < pre.len() && j != i ==> post[j] == pre[j]
        &&& post[i].id_hash@ == h
        &&& post[i].status.num == pre[i].status.num + 1
        &&& post[i].status.authority@ == authority
    } else {
        &&& post.len() == pre.len() + 1
        &&& forall|j: int| 0 <= j < pre.len() ==> post[j] == pre[j]
        &&& post[pre.len() as int].id_hash@ == h
        &&& post[pre.len() as int].status.num == 1
        &&& post[pre.len() as int].status.authority@ == authority
    }
}

/// What `verify` does. Owner-only; the mint gate for (identity, wallet)
/// must not be set yet. On success the metadata creation and collection
/// verification are owed — the metadata URI is the base URI, the identity
/// and ".json", with the project as verified creator of share 0 and the
/// signer as unverified creator of share 100 — the mint gate is set, the
/// token record binds identity and fingerprint, and the identity's count
/// rises by one. Each failure leaves every record unchanged.
pub open spec fn verify_post(
    pre: RecordStore,
    post: RecordStore,
    authority: Seq<u8>,
    rns_id: Seq<char>,
    wallet: Seq<u8>,
    user_account: Seq<u8>,
    nft_mint: Seq<u8>,
    project_address: Seq<u8>,
    project_mint: Seq<u8>,
    merkle_root: Seq<char>,
    r: Result<Vec<TokenAction>, ErrorCode>,
) -> bool {
    pre.project matches Some(p) && {
        let h = sha256_of(rns_id);
        if p.authority@ != authority {
            r == Err::<Vec<TokenAction>, ErrorCode>(ErrorCode::InvalidAuthority) && post == pre
        } else if pre.minted_gate(h, wallet) {
            r == Err::<Vec<TokenAction>, ErrorCode>(ErrorCode::LDIDHasMinted) && post == pre
        } else {
            &&& r matches Ok(actions)
            &&& actions@.len() == 2
            &&& (actions@[0] matches TokenAction::CreateMetadata {
                mint,
                name,
                symbol,
                uri,
                seller_fee_basis_points,
                creators,
                collection,
            } && mint@ == nft_mint && name@ == p.name@ && symbol@ == p.symbol@ && uri@
                == p.base_uri@ + rns_id + ".json"@ && seller_fee_basis_points == 0 && (
            creators matches Some(cs) && cs@.len() == 2 && cs@[0].address@ == project_address
                && cs@[0].verified == true && cs@[0].share == 0 && cs@[1].address@ == authority
                && cs@[1].verified == false && cs@[1].share == 100) && (collection matches Some(c)
                && c@ == project_mint))
            &&& (actions@[1] matches TokenAction::VerifyCollection { mint, collection_mint }
                && mint@ == nft_mint && collection_mint@ == project_mint)
            &&& post.project == pre.project
            &&& verify_user_update(
                pre.user_statuses@,
                post.user_statuses@,
                h,
                wallet,
                user_account,
                rns_id,
            )
            &&& verify_nft_update(
                pre.nft_statuses@,
                post.nft_statuses@,
                nft_mint,
                user_account,
                rns_id,
                merkle_root,
            )
            &&& verify_rns_update(pre.rns_statuses@, post.rns_statuses@, h, authority)
        }
    }
}

/// Completes a mint: delegates metadata creation and collection
/// verification, sets the one-shot mint gate for (identity, wallet),
/// binds the token to the identity and fingerprint, and counts the
/// verification for the identity.
pub fn verify(
    store: &mut RecordStore,
    authority: &Address,
    rns_id: &String,
    wallet: &Address,
    user_account: &Address,
    nft_mint: &Address,
    project_address: &Address,
    project_mint: &Address,
    merkle_root: &String,
    _index: &String,
) -> (r: Result<Vec<TokenAction>, ErrorCode>)
    requires
        old(store).wf(),
        old(store).project is Some,
        !count_at_limit(old(store).rns_statuses@, sha256_of(rns_id@)),
    ensures
        final(store).wf(),
        verify_post(
            *old(store),
            *final(store),
            authority@,
            rns_id@,
            wallet@,
            user_account@,
            nft_mint@,
            project_address@,
            project_mint@,
            merkle_root@,
            r,
        ),
{
    let (name, symbol, uri, admin_matches) = match &store.project {
        Some(p) => (
            p.name.clone(),
            p.symbol.clone(),
            p.base_uri.clone().concat(rns_id.as_str()).concat(".json"),
            crate::address::addr_eq(&p.authority, authority),
        ),
        None => {
            proof {
                assert(false);
            }
            (String::new(), String::new(), String::new(), false)
        },
    };
    if !admin_matches {
        return Err(ErrorCode::InvalidAuthority);
    }
    let h = crate::addressing::hash_seed(rns_id.as_str());
    let ghost pre_users = store.user_statuses@;
    let ghost pre_nfts = store.nft_statuses@;
    let ghost pre_rns = store.rns_statuses@;

    // The mint gate must be checked before any record is touched: failure
    // leaves every record unchanged.
    match find_user(&store.user_statuses, &h, wallet) {
        Some(i) => {
            if store.user_statuses[i].status.is_minted {
                return Err(ErrorCode::LDIDHasMinted);
            }
            let e = &store.user_statuses[i];
            let new_entry = UserStatusEntry {
                id_hash: clone_bytes(&e.id_hash),
                wallet: clone_address(&e.wallet),
                status: UserStatusAccount {
                    authority: clone_address(user_account),
                    rns_id: rns_id.clone(),
                    is_minted: true,
                    is_authorized: e.status.is_authorized,
                    bump: e.status.bump,
                },
            };
            store.user_statuses[i] = new_entry;
            proof {
                crate::state::lemma_user_unique_after_update(
                    pre_users,
                    store.user_statuses@,
                    i as int,
                );
            }
        },
        None => {
            store.user_statuses.push(
                UserStatusEntry {
                    id_hash: clone_bytes(&h),
                    wallet: clone_address(wallet),
                    status: UserStatusAccount {
                        authority: clone_address(user_account),
                        rns_id: rns_id.clone(),
                        is_minted: true,
                        is_authorized: false,
                        bump: 0,
                    },
                },
            );
            proof {
                crate::state::lemma_user_unique_after_push(
                    pre_users,
                    store.user_statuses@,
                    sha256_of(rns_id@),
                    wallet@,
                );
            }
        },
    }

    match find_nft(&store.nft_statuses, nft_mint) {
        Some(i) => {
            let e = &store.nft_statuses[i];
            let new_entry = NftStatusEntry {
                mint: clone_address(&e.mint),
                status: NftStatusAccount {
                    authority: clone_address(user_account),
                    bump: e.status.bump,
                    rns_id: rns_id.clone(),
                    merkle_root: merkle_root.clone(),
                    mint: clone_address(nft_mint),
                },
            };
            store.nft_statuses[i] = new_entry;
            proof {
                crate::state::lemma_nft_unique_after_update(pre_nfts, store.nft_statuses@, i as int);
            }
        },
        None => {
            store.nft_statuses.push(
                NftStatusEntry {
                    mint: clone_address(nft_mint),
                    status: NftStatusAccount {
                        authority: clone_address(user_account),
                        bump: 0,
                        rns_id: rns_id.clone(),
                        merkle_root: merkle_root.clone(),
                        mint: clone_address(nft_mint),
                    },
                },
            );
            proof {
                crate::state::lemma_nft_unique_after_push(pre_nfts, store.nft_statuses@, nft_mint@);
            }
        },
    }

    match find_rns(&store.rns_statuses, &h) {
        Some(i) => {
            let e = &store.rns_statuses[i];
            let new_entry = RnsIdStatusEntry {
                id_hash: clone_bytes(&e.id_hash),
                status: RnsIdStatusAccount {
                    authority: clone_address(authority),
                    num: e.status.num + 1,
                },
            };
            store.rns_statuses[i] = new_entry;
            proof {
                crate::state::lemma_rns_unique_after_update(pre_rns, store.rns_statuses@, i as int);
            }
        },
        None => {
            store.rns_statuses.push(
                RnsIdStatusEntry {
                    id_hash: clone_bytes(&h),
                    status: RnsIdStatusAccount { authority: clone_address(authority), num: 1 },
                },
            );
            proof {
                crate::state::lemma_rns_unique_after_push(
                    pre_rns,
                    store.rns_statuses@,
                    sha256_of(rns_id@),
                );
            }
        },
    }

    let mut creators: Vec<Creator> = Vec::new();
    creators.push(Creator { address: clone_address(project_address), verified: true, share: 0 });
    creators.push(Creator { address: clone_address(authority), verified: false, share: 100 });
    let mut actions: Vec<TokenAction> = Vec::new();
    actions.push(
        TokenAction::CreateMetadata {
            mint: clone_address(nft_mint),
            name,
            symbol,
            uri,
            seller_fee_basis_points: 0,
            creators: Some(creators),
            collection: Some(clone_address(project_mint)),
        },
    );
    actions.push(
        TokenAction::VerifyCollection {
            mint: clone_address(nft_mint),
            collection_mint: clone_address(project_mint),
        },
    );
    Ok(actions)
}

/// Like [`verify`], but for any store: where the identity's recorded
/// verification count sits at the machine limit, the call is refused as
/// `None` with every record unchanged; otherwise the verification runs
/// and its result is returned.
pub fn try_verify(
    store: &mut RecordStore,
    authority: &Address,
    rns_id: &String,
    wallet: &Address,
    user_account: &Address,
    nft_mint: &Address,
    project_address: &Address,
    project_mint: &Address,
    merkle_root: &String,
    index: &String,
) -> (r: Option<Result<Vec<TokenAction>, ErrorCode>>)
    requires
        old(store).wf(),
        old(store).project is Some,
    ensures
        final(store).wf(),
        match r {
            None => count_at_limit(old(store).rns_statuses@, sha256_of(rns_id@)) && *final(store)
                == *old(store),
            Some(res) => !count_at_limit(old(store).rns_statuses@, sha256_of(rns_id@))
                && verify_post(
                *old(store),
                *final(store),
                authority@,
                rns_id@,
                wallet@,
                user_account@,
                nft_mint@,
                project_address@,
                project_mint@,
                merkle_root@,
                res,
            ),
        },
{
    let h = crate::addressing::hash_seed(rns_id.as_str());
    match find_rns(&store.rns_statuses, &h) {
        Some(i) => {
            if store.rns_statuses[i].status.num == u64::MAX {
                return None;
            }
        },
        None => {},
    }
    Some(
        verify(
            store,
            authority,
            rns_id,
            wallet,
            user_account,
            nft_mint,
            project_address,
            project_mint,
            merkle_root,
            index,
        ),
    )
}

/// The user status update of a successful burn: both one-shot gates for
/// (digest, wallet) are reset; everything else in the record, and every
/// other entry, is kept.
pub open spec fn burn_user_update(
    pre: Seq<UserStatusEntry>,
    post: Seq<UserStatusEntry>,
    h: Seq<u8>,
    w: Seq<u8>,
) -> bool {
    let i = user_index(pre, h, w);
    &&& post.len() == pre.len()
    &&& forall|j: int| 0 <= j < pre.len() && j != i ==> post[j] == pre[j]
    &&& post[i].id_hash@ == h
    &&& post[i].wallet@ == w
    &&& post[i].status.is_authorized == false
    &&& post[i].status.is_minted == false
    &&& post[i].status.authority@ == pre[i].status.authority@
    &&& post[i].status.rns_id@ == pre[i].status.rns_id@
    &&& post[i].status.bump == pre[i].status.bump
}

/// The token status update of a successful burn: the identity and the
/// fingerprint recorded for the token are cleared; everything else in the
/// record, and every other entry, is kept.
pub open spec fn burn_nft_update(
    pre: Seq<NftStatusEntry>,
    post: Seq<NftStatusEntry>,
    m: Seq<u8>,
) -> bool {
    let i = nft_index(pre, m);
    &&& post.len() == pre.len()
    &&& forall|j: int| 0 <= j < pre.len() && j != i ==> post[j] == pre[j]
    &&& post[i].mint@ == m
    &&& post[i].status.rns_id@ == Seq::<char>::empty()
    &&& post[i].status.merkle_root@ == Seq::<char>::empty()
    &&& post[i].status.authority@ == pre[i].status.authority@
    &&& post[i].status.mint@ == pre[i].status.mint@
    &&& post[i].status.bump == pre[i].status.bump
}

/// The ownership links a burn demands: the signer owns the user status
/// record and the token status record, and the identity status record is
/// owned by the project owner.
pub open spec fn burn_links_ok(
    pre: RecordStore,
    authority: Seq<u8>,
    h: Seq<u8>,
    w: Seq<u8>,
    m: Seq<u8>,
) -> bool {
    pre.project matches Some(p) && {
        &&& has_user(pre.user_statuses@, h, w)
        &&& user_record(pre.user_statuses@, h, w).authority@ == authority
        &&& has_rns(pre.rns_statuses@, h)
        &&& rns_record(pre.rns_statuses@, h).authority@ == p.authority@
        &&& has_nft(pre.nft_statuses@, m)
        &&& nft_record(pre.nft_statuses@, m).authority@ == authority
    }
}

/// What `burn` does. The ownership links between the supplied accounts
/// and the recorded state must match; then the thaw and the burn of one
/// unit are owed, the token record's identity and fingerprint are
/// cleared, and both one-shot gates for (identity, wallet) are reset.
/// Each failure leaves every record unchanged.
pub open spec fn burn_post(
    pre: RecordStore,
    post: RecordStore,
    authority: Seq<u8>,
    rns_id: Seq<char>,
    wallet: Seq<u8>,
    nft_mint: Seq<u8>,
    r: Result<(Vec<TokenAction>, BurnEvent), ErrorCode>,
) -> bool {
    pre.project matches Some(p) && {
        let h = sha256_of(rns_id);
        if !burn_links_ok(pre, authority, h, wallet, nft_mint) {
            r == Err::<(Vec<TokenAction>, BurnEvent), ErrorCode>(ErrorCode::InvalidAuthority)
                && post == pre
        } else {
            &&& r matches Ok(ok)
            &&& ok.0@.len() == 2
            &&& (ok.0@[0] matches TokenAction::ThawAccount { mint, wallet: tw } && mint@
                == nft_mint && tw@ == authority)
            &&& (ok.0@[1] matches TokenAction::BurnToken { mint, wallet: tw, amount } && mint@
                == nft_mint && tw@ == authority && amount == 1)
            &&& ok.1.rns_id@ == rns_id
            &&& ok.1.wallet@ == wallet
            &&& ok.1.token_id@ == nft_mint
            &&& post.project == pre.project
            &&& post.rns_statuses == pre.rns_statuses
            &&& burn_user_update(pre.user_statuses@, post.user_statuses@, h, wallet)
            &&& burn_nft_update(pre.nft_statuses@, post.nft_statuses@, nft_mint)
        }
    }
}

/// Burns a minted token and re-opens the one-shot gates: the frozen token
/// account is thawed (a frozen account cannot be burned directly), one
/// unit is burned, the token record is cleared, and authorization and
/// mint gates for (identity, wallet) are reset.
pub fn burn(
    store: &mut RecordStore,
    authority: &Address,
    rns_id: &String,
    wallet: &Address,
    nft_mint: &Address,
) -> (r: Result<(Vec<TokenAction>, BurnEvent), ErrorCode>)
    requires
        old(store).wf(),
        old(store).project is Some,
    ensures
        final(store).wf(),
        burn_post(*old(store), *final(store), authority@, rns_id@, wallet@, nft_mint@, r),
{
    let h = crate::addressing::hash_seed(rns_id.as_str());
    let ghost pre_users = store.user_statuses@;
    let ghost pre_nfts = store.nft_statuses@;

    let user_idx = match find_user(&store.user_statuses, &h, wallet) {
        Some(i) => i,
        None => {
            return Err(ErrorCode::InvalidAuthority);
        },
    };
    if !crate::address::addr_eq(&store.user_statuses[user_idx].status.authority, authority) {
        return Err(ErrorCode::InvalidAuthority);
    }

    let project_authority_matches = match find_rns(&store.rns_statuses, &h) {
        Some(i) => {
            match &store.project {
                Some(p) => crate::address::addr_eq(
                    &store.rns_statuses[i].status.authority,
                    &p.authority,
                ),
                None => false,
            }
        },
        None => {
            return Err(ErrorCode::InvalidAuthority);
        },
    };
    if !project_authority_matches {
        return Err(ErrorCode::InvalidAuthority);
    }

    let nft_idx = match find_nft(&store.nft_statuses, nft_mint) {
        Some(i) => i,
        None => {
            return Err(ErrorCode::InvalidAuthority);
        },
    };
    if !crate::address::addr_eq(&store.nft_statuses[nft_idx].status.authority, authority) {
        return Err(ErrorCode::InvalidAuthority);
    }

    let e = &store.user_statuses[user_idx];
    let new_user = UserStatusEntry {
        id_hash: clone_bytes(&e.id_hash),
        wallet: clone_address(&e.wallet),
        status: UserStatusAccount {
            authority: clone_address(&e.status.authority),
            rns_id: e.status.rns_id.clone(),
            is_minted: false,
            is_authorized: false,
            bump: e.status.bump,
        },
    };
    store.user_statuses[user_idx] = new_user;
    proof {
        crate::state::lemma_user_unique_after_update(
            pre_users,
            store.user_statuses@,
            user_idx as int,
        );
    }

    let e = &store.nft_statuses[nft_idx];
    let new_nft = NftStatusEntry {
        mint: clone_address(&e.mint),
        status: NftStatusAccount {
            authority: clone_address(&e.status.authority),
            bump: e.status.bump,
            rns_id: String::new(),
            merkle_root: String::new(),
            mint: clone_address(&e.status.mint),
        },
    };
    store.nft_statuses[nft_idx] = new_nft;
    proof {
        crate::state::lemma_nft_unique_after_update(pre_nfts, store.nft_statuses@, nft_idx as int);
    }

    let mut actions: Vec<TokenAction> = Vec::new();
    actions.push(
        TokenAction::ThawAccount { mint: clone_address(nft_mint), wallet: clone_address(authority) },
    );
    actions.push(
        TokenAction::BurnToken {
            mint: clone_address(nft_mint),
            wallet: clone_address(authority),
            amount: 1,
        },
    );
    let event = BurnEvent {
        rns_id: rns_id.clone(),
        wallet: clone_address(wallet),
        token_id: clone_address(nft_mint),
    };
    Ok((actions, event))
}

/// A lazily created user status record: if one exists for (digest,
/// wallet) nothing changes, else a zero-initialized record is appended.
pub open spec fn ensure_user_default(
    pre: Seq<UserStatusEntry>,
    post: Seq<UserStatusEntry>,
    h: Seq<u8>,
    w: Seq<u8>,
) -> bool {
    if has_user(pre, h, w) {
        post == pre
    } else {
        &&& post.len() == pre.len() + 1
        &&& forall|j: int| 0 <= j < pre.len() ==> post[j] == pre[j]
        &&& post[pre.len() as int].id_hash@ == h
        &&& post[pre.len() as int].wallet@ == w
        &&& post[pre.len() as int].status.authority@ == crate::address::zero_address()
        &&& post[pre.len() as int].status.rns_id@ == Seq::<char>::empty()
        &&& post[pre.len() as int].status.is_minted == false
        &&& post[pre.len() as int].status.is_authorized == false
        &&& post[pre.len() as int].status.bump == 0
    }
}

/// A lazily created identity status record: if one exists for the digest
/// nothing changes, else a zero-initialized record is appended.
pub open spec fn ensure_rns_default(
    pre: Seq<RnsIdStatusEntry>,
    post: Seq<RnsIdStatusEntry>,
    h: Seq<u8>,
) -> bool {
    if has_rns(pre, h) {
        post == pre
    } else {
        &&& post.len() == pre.len() + 1
        &&& forall|j: int| 0 <= j < pre.len() ==> post[j] == pre[j]
        &&& post[pre.len() as int].id_hash@ == h
        &&& post[pre.len() as int].status.authority@ == crate::address::zero_address()
        &&& post[pre.len() as int].status.num == 0
    }
}

/// A lazily created token status record: if one exists for the token
/// nothing changes, else a zero-initialized record is appended.
pub open spec fn ensure_nft_default(
    pre: Seq<NftStatusEntry>,
    post: Seq<NftStatusEntry>,
    m: Seq<u8>,
) -> bool {
    if has_nft(pre, m) {
        post == pre
    } else {
        &&& post.len() == pre.len() + 1
        &&& forall|j: int| 0 <= j < pre.len() ==> post[j] == pre[j]
        &&& post[pre.len() as int].mint@ == m
        &&& post[pre.len() as int].status.authority@ == crate::address::zero_address()
        &&& post[pre.len() as int].status.rns_id@ == Seq::<char>::empty()
        &&& post[pre.len() as int].status.merkle_root@ == Seq::<char>::empty()
        &&& post[pre.len() as int].status.mint@ == crate::address::zero_address()
        &&& post[pre.len() as int].status.bump == 0
    }
}

/// What `airdrop` does. Owner-only; the wallet and the identity must not
/// be on the block-lists. On success the mint of one unit to the target
/// wallet and the freeze of that token account are owed, in that order —
/// the freeze after the mint is what makes the token non-transferable —
/// and the status records the addressing scheme touches exist afterwards,
/// created zero-initialized where they were absent. Each failure leaves
/// every record unchanged. Block-lists are checked before the mint, so a
/// rejected airdrop owes no custody action at all.
pub open spec fn airdrop_post(
    pre: RecordStore,
    post: RecordStore,
    authority: Seq<u8>,
    rns_id: Seq<char>,
    wallet: Seq<u8>,
    user_account: Seq<u8>,
    nft_mint: Seq<u8>,
    r: Result<(Vec<TokenAction>, AirdropEvent), ErrorCode>,
) -> bool {
    pre.project matches Some(p) && {
        let h = sha256_of(rns_id);
        if p.authority@ != authority {
            r == Err::<(Vec<TokenAction>, AirdropEvent), ErrorCode>(ErrorCode::InvalidAuthority)
                && post == pre
        } else if p.blocked_address_spec(wallet) {
            r == Err::<(Vec<TokenAction>, AirdropEvent), ErrorCode>(ErrorCode::WalletBlacklisted)
                && post == pre
        } else if p.blocked_rns_id_spec(rns_id) {
            r == Err::<(Vec<TokenAction>, AirdropEvent), ErrorCode>(ErrorCode::LdidBlacklisted)
                && post == pre
        } else {
            &&& r matches Ok(ok)
            &&& ok.0@.len() == 2
            &&& (ok.0@[0] matches TokenAction::MintTo { mint, to_wallet, amount } && mint@
                == nft_mint && to_wallet@ == user_account && amount == 1)
            &&& (ok.0@[1] matches TokenAction::FreezeAccount { mint, wallet: fw } && mint@
                == nft_mint && fw@ == user_account)
            &&& ok.1.rns_id@ == rns_id
            &&& ok.1.wallet@ == wallet
            &&& ok.1.token_id@ == nft_mint
            &&& post.project == pre.project
            &&& ensure_user_default(pre.user_statuses@, post.user_statuses@, h, wallet)
            &&& ensure_rns_default(pre.rns_statuses@, post.rns_statuses@, h)
            &&& ensure_nft_default(pre.nft_statuses@, post.nft_statuses@, nft_mint)
        }
    }
}

/// Mints one unit of a non-transferable token to the target wallet's
/// token account and freezes that account immediately afterwards.
pub fn airdrop(
    store: &mut RecordStore,
    authority: &Address,
    rns_id: &String,
    wallet: &Address,
    user_account: &Address,
    nft_mint: &Address,
    _merkle_root: &String,
    _index: &String,
) -> (r: Result<(Vec<TokenAction>, AirdropEvent), ErrorCode>)
    requires
        old(store).wf(),
        old(store).project is Some,
    ensures
        final(store).wf(),
        airdrop_post(
            *old(store),
            *final(store),
            authority@,
            rns_id@,
            wallet@,
            user_account@,
            nft_mint@,
            r,
        ),
{
    let (admin_matches, wallet_blocked, id_blocked) = match &store.project {
        Some(p) => (
            crate::address::addr_eq(&p.authority, authority),
            p.is_blocked_address(wallet),
            p.is_blocked_rns_id(rns_id),
        ),
        None => {
            proof {
                assert(false);
            }
            (false, false, false)
        },
    };
    if !admin_matches {
        return Err(ErrorCode::InvalidAuthority);
    }
    if wallet_blocked {
        return Err(ErrorCode::WalletBlacklisted);
    }
    if id_blocked {
        return Err(ErrorCode::LdidBlacklisted);
    }

    let h = crate::addressing::hash_seed(rns_id.as_str());
    let ghost pre_users = store.user_statuses@;
    let ghost pre_rns = store.rns_statuses@;
    let ghost pre_nfts = store.nft_statuses@;

    if find_user(&store.user_statuses, &h, wallet).is_none() {
        store.user_statuses.push(
            UserStatusEntry {
                id_hash: clone_bytes(&h),
                wallet: clone_address(wallet),
                status: UserStatusAccount {
                    authority: Address::zero(),
                    rns_id: String::new(),
                    is_minted: false,
                    is_authorized: false,
                    bump: 0,
                },
            },
        );
        proof {
            crate::state::lemma_user_unique_after_push(
                pre_users,
                store.user_statuses@,
                sha256_of(rns_id@),
                wallet@,
            );
        }
    }

    if find_rns(&store.rns_statuses, &h).is_none() {
        store.rns_statuses.push(
            RnsIdStatusEntry {
                id_hash: clone_bytes(&h),
                status: RnsIdStatusAccount { authority: Address::zero(), num: 0 },
            },
        );
        proof {
            crate::state::lemma_rns_unique_after_push(
                pre_rns,
                store.rns_statuses@,
                sha256_of(rns_id@),
            );
        }
    }

    if find_nft(&store.nft_statuses, nft_mint).is_none() {
        store.nft_statuses.push(
            NftStatusEntry {
                mint: clone_address(nft_mint),
                status: NftStatusAccount {
                    authority: Address::zero(),
                    bump: 0,
                    rns_id: String::new(),
                    merkle_root: String::new(),
                    mint: Address::zero(),
                },
            },
        );
        proof {
            crate::state::lemma_nft_unique_after_push(pre_nfts, store.nft_statuses@, nft_mint@);
        }
    }

    let mut actions: Vec<TokenAction> = Vec::new();
    actions.push(
        TokenAction::MintTo {
            mint: clone_address(nft_mint),
            to_wallet: clone_address(user_account),
            amount: 1,
        },
    );
    actions.push(
        TokenAction::FreezeAccount {
            mint: clone_address(nft_mint),
            wallet: clone_address(user_account),
        },
    );
    let event = AirdropEvent {
        rns_id: rns_id.clone(),
        wallet: clone_address(wallet),
        token_id: clone_address(nft_mint),
    };
    Ok((actions, event))
}

/// Arguments of collection initialization.
#[derive(Clone, Debug)]
pub struct InitializeNonTransferableProjectArgs {
    pub name: String,
    pub symbol: String,
    pub base_uri: String,
    pub uri: String,
}

/// What `initialize` does: a collection whose project record already
/// exists is rejected unchanged; else the project record is created with
/// the caller as owner, the default mint price, a zero fee recipient and
/// empty block-lists, and one unit of the collection-marker token is owed
/// to the project vault, followed by the collection metadata and the
/// master-edition marker.
pub open spec fn initialize_post(
    pre: RecordStore,
    post: RecordStore,
    authority: Seq<u8>,
    args: InitializeNonTransferableProjectArgs,
    project_mint: Seq<u8>,
    vault: Seq<u8>,
    bump: u8,
    mint_bump: u8,
    result: Result<Vec<TokenAction>, ErrorCode>,
) -> bool {
    if pre.project is Some {
        result == Err::<Vec<TokenAction>, ErrorCode>(ErrorCode::AlreadyInitialized) && post == pre
    } else {
        result matches Ok(r) && initialize_effect(pre, post, authority, args, project_mint, vault, bump, mint_bump, r)
    }
}

/// The record and the owed actions of a fresh initialization.
pub open spec fn initialize_effect(
    pre: RecordStore,
    post: RecordStore,
    authority: Seq<u8>,
    args: InitializeNonTransferableProjectArgs,
    project_mint: Seq<u8>,
    vault: Seq<u8>,
    bump: u8,
    mint_bump: u8,
    r: Vec<TokenAction>,
) -> bool {
    &&& post.project matches Some(q) && {
        &&& q.authority@ == authority
        &&& q.mint_price == DEFAULT_MINT_PRICE
        &&& q.fee_recipient@ == crate::address::zero_address()
        &&& q.bump == bump
        &&& q.mint_bump == mint_bump
        &&& q.name@ == args.name@
        &&& q.symbol@ == args.symbol@
        &&& q.base_uri@ == args.base_uri@
        &&& q.is_blocked_address@.len() == 0
        &&& q.is_blocked_rns_id@.len() == 0
    }
    &&& post == (RecordStore { project: post.project, ..pre })
    &&& r@.len() == 3
    &&& (r@[0] matches TokenAction::MintTo { mint, to_wallet, amount } && mint@ == project_mint
        && to_wallet@ == vault && amount == 1)
    &&& (r@[1] matches TokenAction::CreateMetadata {
        mint,
        name,
        symbol,
        uri,
        seller_fee_basis_points,
        creators,
        collection,
    } && mint@ == project_mint && name@ == args.name@ && symbol@ == args.symbol@ && uri@
        == args.uri@ && seller_fee_basis_points == 0 && creators is None && collection is None)
    &&& (r@[2] matches TokenAction::CreateMasterEdition { mint, max_supply } && mint@
        == project_mint && max_supply == 0)
}

/// Creates the project record for a collection, establishing the caller
/// as owner, and delegates the creation of the collection-marker token,
/// its metadata and its master-edition marker. A collection that is
/// already initialized is rejected and left unchanged: re-initialization
/// is not supported, and the recorded owner is never reassigned.
pub fn initialize(
    store: &mut RecordStore,
    authority: &Address,
    args: &InitializeNonTransferableProjectArgs,
    project_mint: &Address,
    vault: &Address,
    bump: u8,
    mint_bump: u8,
) -> (r: Result<Vec<TokenAction>, ErrorCode>)
    requires
        old(store).wf(),
    ensures
        final(store).wf(),
        initialize_post(
            *old(store),
            *final(store),
            authority@,
            *args,
            project_mint@,
            vault@,
            bump,
            mint_bump,
            r,
        ),
{
    if store.project.is_some() {
        return Err(ErrorCode::AlreadyInitialized);
    }
    store.project = Some(
        ProjectAccount {
            authority: clone_address(authority),
            mint_price: DEFAULT_MINT_PRICE,
            fee_recipient: Address::zero(),
            bump,
            mint_bump,
            name: args.name.clone(),
            symbol: args.symbol.clone(),
            base_uri: args.base_uri.clone(),
            is_blocked_address: Vec::new(),
            is_blocked_rns_id: Vec::new(),
        },
    );
    let mut actions: Vec<TokenAction> = Vec::new();
    actions.push(
        TokenAction::MintTo {
            mint: clone_address(project_mint),
            to_wallet: clone_address(vault),
            amount: 1,
        },
    );
    actions.push(
        TokenAction::CreateMetadata {
            mint: clone_address(project_mint),
            name: args.name.clone(),
            symbol: args.symbol.clone(),
            uri: args.uri.clone(),
            seller_fee_basis_points: 0,
            creators: None,
            collection: None,
        },
    );
    actions.push(TokenAction::CreateMasterEdition { mint: clone_address(project_mint), max_supply: 0 });
    Ok(actions)
}

} // verus!
