//! The one-shot and reset laws of the lifecycle, proved from the
//! operations' contracts alone.

use vstd::prelude::*;

use crate::actions::{AirdropEvent, AuthorizeMintEvent, BurnEvent, TokenAction};
use crate::addressing::sha256_of;
use crate::error::ErrorCode;
use crate::lifecycle::{
    airdrop_post, authorize_mint_post, burn_post, set_is_blocked_address_post,
    set_is_blocked_rns_id_post, verify_post,
};
use crate::state::{has_user, lemma_user_lookup_at, user_index, RecordStore};

verus! {

/// After a successful authorization, the authorization gate for the same
/// (identity, wallet) pair is set.
pub proof fn lemma_authorize_sets_gate(
    s0: RecordStore,
    s1: RecordStore,
    authority: Seq<u8>,
    rns_id: Seq<char>,
    wallet: Seq<u8>,
    payer_balance: u64,
    fee_recipient: Seq<u8>,
    bump: u8,
    r: Result<(Vec<TokenAction>, AuthorizeMintEvent), ErrorCode>,
)
    requires
        s1.wf(),
        authorize_mint_post(
            s0,
            s1,
            authority,
            rns_id,
            wallet,
            payer_balance,
            fee_recipient,
            bump,
            r,
        ),
        r is Ok,
    ensures
        s1.authorized_gate(sha256_of(rns_id), wallet),
        s1.minted_gate(sha256_of(rns_id), wallet) == s0.minted_gate(sha256_of(rns_id), wallet),
{
    let h = sha256_of(rns_id);
    if has_user(s0.user_statuses@, h, wallet) {
        let i = user_index(s0.user_statuses@, h, wallet);
        assert(0 <= i < s0.user_statuses@.len() && crate::state::user_key_matches(
            s0.user_statuses@[i],
            h,
            wallet,
        ));
        lemma_user_lookup_at(s1.user_statuses@, h, wallet, i);
    } else {
        let i = s0.user_statuses@.len() as int;
        lemma_user_lookup_at(s1.user_statuses@, h, wallet, i);
    }
}

/// Authorizing the same (identity, wallet) pair twice in a row fails the
/// second call with "already authorized" and changes nothing, whatever
/// signer, balance and bump the second call carries, as long as its fee
/// recipient and balance pass the preceding checks.
pub proof fn lemma_authorize_mint_is_one_shot(
    s0: RecordStore,
    s1: RecordStore,
    s2: RecordStore,
    authority1: Seq<u8>,
    rns_id: Seq<char>,
    wallet: Seq<u8>,
    payer_balance1: u64,
    fee_recipient1: Seq<u8>,
    bump1: u8,
    r1: Result<(Vec<TokenAction>, AuthorizeMintEvent), ErrorCode>,
    authority2: Seq<u8>,
    payer_balance2: u64,
    fee_recipient2: Seq<u8>,
    bump2: u8,
    r2: Result<(Vec<TokenAction>, AuthorizeMintEvent), ErrorCode>,
)
    requires
        s1.wf(),
        authorize_mint_post(
            s0,
            s1,
            authority1,
            rns_id,
            wallet,
            payer_balance1,
            fee_recipient1,
            bump1,
            r1,
        ),
        r1 is Ok,
        authorize_mint_post(
            s1,
            s2,
            authority2,
            rns_id,
            wallet,
            payer_balance2,
            fee_recipient2,
            bump2,
            r2,
        ),
        s1.project matches Some(p) && fee_recipient2 == p.fee_recipient@ && payer_balance2
            >= p.mint_price,
    ensures
        r2 == Err::<(Vec<TokenAction>, AuthorizeMintEvent), ErrorCode>(
            ErrorCode::LDIDHasAuthorized,
        ),
        s2 == s1,
{
    lemma_authorize_sets_gate(
        s0,
        s1,
        authority1,
        rns_id,
        wallet,
        payer_balance1,
        fee_recipient1,
        bump1,
        r1,
    );
}

/// After a successful verification, the mint gate for the same
/// (identity, wallet) pair is set.
pub proof fn lemma_verify_sets_gate(
    s0: RecordStore,
    s1: RecordStore,
    authority: Seq<u8>,
    rns_id: Seq<char>,
    wallet: Seq<u8>,
    user_account: Seq<u8>,
    nft_mint: Seq<u8>,
    project_address: Seq<u8>,
    project_mint: Seq<u8>,
    merkle_root: Seq<char>,
    r: Result<Vec<TokenAction>, ErrorCode>,
)
    requires
        s1.wf(),
        verify_post(
            s0,
            s1,
            authority,
            rns_id,
            wallet,
            user_account,
            nft_mint,
            project_address,
            project_mint,
            merkle_root,
            r,
        ),
        r is Ok,
    ensures
        s1.minted_gate(sha256_of(rns_id), wallet),
{
    let h = sha256_of(rns_id);
    if has_user(s0.user_statuses@, h, wallet) {
        let i = user_index(s0.user_statuses@, h, wallet);
        assert(0 <= i < s0.user_statuses@.len() && crate::state::user_key_matches(
            s0.user_statuses@[i],
            h,
            wallet,
        ));
        lemma_user_lookup_at(s1.user_statuses@, h, wallet, i);
    } else {
        let i = s0.user_statuses@.len() as int;
        lemma_user_lookup_at(s1.user_statuses@, h, wallet, i);
    }
}

/// Verifying the same (identity, wallet) pair twice in a row fails the
/// second call with "already minted" and changes nothing, as long as the
/// second call carries the project owner as signer.
pub proof fn lemma_verify_is_one_shot(
    s0: RecordStore,
    s1: RecordStore,
    s2: RecordStore,
    authority1: Seq<u8>,
    rns_id: Seq<char>,
    wallet: Seq<u8>,
    user_account1: Seq<u8>,
    nft_mint1: Seq<u8>,
    project_address1: Seq<u8>,
    project_mint1: Seq<u8>,
    merkle_root1: Seq<char>,
    r1: Result<Vec<TokenAction>, ErrorCode>,
    authority2: Seq<u8>,
    user_account2: Seq<u8>,
    nft_mint2: Seq<u8>,
    project_address2: Seq<u8>,
    project_mint2: Seq<u8>,
    merkle_root2: Seq<char>,
    r2: Result<Vec<TokenAction>, ErrorCode>,
)
    requires
        s1.wf(),
        verify_post(
            s0,
            s1,
            authority1,
            rns_id,
            wallet,
            user_account1,
            nft_mint1,
            project_address1,
            project_mint1,
            merkle_root1,
            r1,
        ),
        r1 is Ok,
        verify_post(
            s1,
            s2,
            authority2,
            rns_id,
            wallet,
            user_account2,
            nft_mint2,
            project_address2,
            project_mint2,
            merkle_root2,
            r2,
        ),
        s1.project matches Some(p) && p.authority@ == authority2,
    ensures
        r2 == Err::<Vec<TokenAction>, ErrorCode>(ErrorCode::LDIDHasMinted),
        s2 == s1,
{
    lemma_verify_sets_gate(
        s0,
        s1,
        authority1,
        rns_id,
        wallet,
        user_account1,
        nft_mint1,
        project_address1,
        project_mint1,
        merkle_root1,
        r1,
    );
}

/// A successful burn re-opens both one-shot gates for its
/// (identity, wallet) pair.
pub proof fn lemma_burn_reopens_gates(
    s0: RecordStore,
    s1: RecordStore,
    authority: Seq<u8>,
    rns_id: Seq<char>,
    wallet: Seq<u8>,
    nft_mint: Seq<u8>,
    r: Result<(Vec<TokenAction>, BurnEvent), ErrorCode>,
)
    requires
        s1.wf(),
        burn_post(s0, s1, authority, rns_id, wallet, nft_mint, r),
        r is Ok,
    ensures
        !s1.authorized_gate(sha256_of(rns_id), wallet),
        !s1.minted_gate(sha256_of(rns_id), wallet),
{
    let h = sha256_of(rns_id);
    let i = user_index(s0.user_statuses@, h, wallet);
    assert(0 <= i < s0.user_statuses@.len() && crate::state::user_key_matches(
        s0.user_statuses@[i],
        h,
        wallet,
    ));
    lemma_user_lookup_at(s1.user_statuses@, h, wallet, i);
}

/// Burn fully resets the one-shot gates: after a successful burn for
/// (identity, wallet), an authorization whose fee recipient and balance
/// pass, an owner-signed airdrop of an unblocked pair, and an
/// owner-signed verification succeed exactly as on a fresh pair.
pub proof fn lemma_burn_then_fresh_cycle_succeeds(
    s0: RecordStore,
    s1: RecordStore,
    s2: RecordStore,
    s3: RecordStore,
    s4: RecordStore,
    rns_id: Seq<char>,
    wallet: Seq<u8>,
    burn_authority: Seq<u8>,
    burn_mint: Seq<u8>,
    r_burn: Result<(Vec<TokenAction>, BurnEvent), ErrorCode>,
    auth_authority: Seq<u8>,
    payer_balance: u64,
    fee_recipient: Seq<u8>,
    bump: u8,
    r_auth: Result<(Vec<TokenAction>, AuthorizeMintEvent), ErrorCode>,
    air_authority: Seq<u8>,
    air_user_account: Seq<u8>,
    air_mint: Seq<u8>,
    r_air: Result<(Vec<TokenAction>, AirdropEvent), ErrorCode>,
    ver_authority: Seq<u8>,
    ver_user_account: Seq<u8>,
    ver_mint: Seq<u8>,
    project_address: Seq<u8>,
    project_mint: Seq<u8>,
    merkle_root: Seq<char>,
    r_ver: Result<Vec<TokenAction>, ErrorCode>,
)
    requires
        s1.wf(),
        s2.wf(),
        s3.wf(),
        burn_post(s0, s1, burn_authority, rns_id, wallet, burn_mint, r_burn),
        r_burn is Ok,
        authorize_mint_post(
            s1,
            s2,
            auth_authority,
            rns_id,
            wallet,
            payer_balance,
            fee_recipient,
            bump,
            r_auth,
        ),
        s1.project matches Some(p1) && fee_recipient == p1.fee_recipient@ && payer_balance
            >= p1.mint_price,
        airdrop_post(s2, s3, air_authority, rns_id, wallet, air_user_account, air_mint, r_air),
        s2.project matches Some(p2) && p2.authority@ == air_authority
            && !p2.blocked_address_spec(wallet) && !p2.blocked_rns_id_spec(rns_id),
        verify_post(
            s3,
            s4,
            ver_authority,
            rns_id,
            wallet,
            ver_user_account,
            ver_mint,
            project_address,
            project_mint,
            merkle_root,
            r_ver,
        ),
        s3.project matches Some(p3) && p3.authority@ == ver_authority,
    ensures
        r_auth is Ok,
        r_air is Ok,
        r_ver is Ok,
{
    let h = sha256_of(rns_id);
    lemma_burn_reopens_gates(s0, s1, burn_authority, rns_id, wallet, burn_mint, r_burn);
    assert(r_auth is Ok);
    lemma_authorize_sets_gate(
        s1,
        s2,
        auth_authority,
        rns_id,
        wallet,
        payer_balance,
        fee_recipient,
        bump,
        r_auth,
    );
    assert(!s2.minted_gate(h, wallet));
    assert(r_air is Ok);
    // The airdrop touches no existing user record, so the mint gate is
    // still open when the verification checks it.
    assert(has_user(s2.user_statuses@, h, wallet)) by {
        lemma_authorize_sets_gate(
            s1,
            s2,
            auth_authority,
            rns_id,
            wallet,
            payer_balance,
            fee_recipient,
            bump,
            r_auth,
        );
    }
    assert(s3.user_statuses@ == s2.user_statuses@);
    assert(!s3.minted_gate(h, wallet));
    assert(r_ver is Ok);
}

/// Upserting the same wallet key twice leaves exactly one entry for that
/// key, carrying the last value, and the second upsert adds no entry.
pub proof fn lemma_block_list_upsert_in_place(
    s0: RecordStore,
    s1: RecordStore,
    s2: RecordStore,
    authority1: Seq<u8>,
    authority2: Seq<u8>,
    wallet: Seq<u8>,
    value1: bool,
    value2: bool,
    r1: Result<(), ErrorCode>,
    r2: Result<(), ErrorCode>,
)
    requires
        s2.wf(),
        set_is_blocked_address_post(s0, s1, authority1, wallet, value1, r1),
        r1 is Ok,
        set_is_blocked_address_post(s1, s2, authority2, wallet, value2, r2),
        r2 is Ok,
    ensures
        s1.project matches Some(q1) && s2.project matches Some(q2) && q2.is_blocked_address@.len()
            == q1.is_blocked_address@.len() && exists|i: int|
            0 <= i < q2.is_blocked_address@.len() && q2.is_blocked_address@[i].key@ == wallet
                && q2.is_blocked_address@[i].value == value2 && (forall|j: int|
                0 <= j < q2.is_blocked_address@.len() && j != i
                    ==> q2.is_blocked_address@[j].key@ != wallet),
{
    let q1 = s1.project->Some_0;
    let q2 = s2.project->Some_0;
    let pre = q1.is_blocked_address@;
    let post = q2.is_blocked_address@;
    // The first upsert leaves an entry for the key, so the second one
    // overwrites in place.
    assert(exists|i: int| 0 <= i < pre.len() && pre[i].key@ == wallet) by {
        let p0 = s0.project->Some_0;
        let base = p0.is_blocked_address@;
        if exists|i: int| 0 <= i < base.len() && base[i].key@ == wallet {
            let c = choose|i: int| 0 <= i < base.len() && base[i].key@ == wallet;
            assert(pre[c].key@ == wallet);
        } else {
            assert(pre[base.len() as int].key@ == wallet);
        }
    }
    let c = choose|i: int| 0 <= i < pre.len() && pre[i].key@ == wallet;
    assert(post[c].key@ == wallet && post[c].value == value2);
    assert forall|j: int|
        0 <= j < post.len() && j != c implies post[j].key@ != wallet by {
        assert(crate::state::blocked_addresses_unique(post));
        if post[j].key@ == wallet {
            assert(false);
        }
    }
}

/// Upserting the same identity key twice leaves exactly one entry for
/// that key, carrying the last value, and the second upsert adds no
/// entry.
pub proof fn lemma_rns_block_list_upsert_in_place(
    s0: RecordStore,
    s1: RecordStore,
    s2: RecordStore,
    authority1: Seq<u8>,
    authority2: Seq<u8>,
    rns_id: Seq<char>,
    value1: bool,
    value2: bool,
    r1: Result<(), ErrorCode>,
    r2: Result<(), ErrorCode>,
)
    requires
        s2.wf(),
        set_is_blocked_rns_id_post(s0, s1, authority1, rns_id, value1, r1),
        r1 is Ok,
        set_is_blocked_rns_id_post(s1, s2, authority2, rns_id, value2, r2),
        r2 is Ok,
    ensures
        s1.project matches Some(q1) && s2.project matches Some(q2) && q2.is_blocked_rns_id@.len()
            == q1.is_blocked_rns_id@.len() && exists|i: int|
            0 <= i < q2.is_blocked_rns_id@.len() && q2.is_blocked_rns_id@[i].key@ == rns_id
                && q2.is_blocked_rns_id@[i].value == value2 && (forall|j: int|
                0 <= j < q2.is_blocked_rns_id@.len() && j != i
                    ==> q2.is_blocked_rns_id@[j].key@ != rns_id),
{
    let q1 = s1.project->Some_0;
    let q2 = s2.project->Some_0;
    let pre = q1.is_blocked_rns_id@;
    let post = q2.is_blocked_rns_id@;
    assert(exists|i: int| 0 <= i < pre.len() && pre[i].key@ == rns_id) by {
        let p0 = s0.project->Some_0;
        let base = p0.is_blocked_rns_id@;
        if exists|i: int| 0 <= i < base.len() && base[i].key@ == rns_id {
            let c = choose|i: int| 0 <= i < base.len() && base[i].key@ == rns_id;
            assert(pre[c].key@ == rns_id);
        } else {
            assert(pre[base.len() as int].key@ == rns_id);
        }
    }
    let c = choose|i: int| 0 <= i < pre.len() && pre[i].key@ == rns_id;
    assert(post[c].key@ == rns_id && post[c].value == value2);
    assert forall|j: int|
        0 <= j < post.len() && j != c implies post[j].key@ != rns_id by {
        assert(crate::state::blocked_rns_ids_unique(post));
        if post[j].key@ == rns_id {
            assert(false);
        }
    }
}

} // verus!
