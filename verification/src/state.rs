//! Records of a collection and the keyed store that holds them.
//!
//! The store models the ledger runtime's account space for one collection:
//! at most one project record, and status records keyed by the digest of the
//! identity string (and, where applicable, the wallet or the token address).
//! "Record absent" and "record present with state X" are the only observable
//! states for any key; the lifecycle operations create records lazily,
//! keyed as the addressing scheme keys them.

use vstd::prelude::*;

use crate::address::Address;

verus! {

/// A block-list entry for a wallet address.
#[derive(Clone, Debug)]
pub struct BlockedAddress {
    pub key: Address,
    pub value: bool,
}

/// A block-list entry for an identity string.
#[derive(Clone, Debug)]
pub struct BlockedRnsID {
    pub key: String,
    pub value: bool,
}

/// A mapping entry from a token id to a content fingerprint.
#[derive(Clone, Debug)]
pub struct TokenIdToMerkle {
    pub key: String,
    pub value: String,
}

/// The singleton configuration record of a collection.
#[derive(Clone, Debug)]
pub struct ProjectAccount {
    pub authority: Address,
    pub mint_price: u64,
    pub fee_recipient: Address,
    pub bump: u8,
    pub mint_bump: u8,
    pub name: String,
    pub symbol: String,
    pub base_uri: String,
    pub is_blocked_address: Vec<BlockedAddress>,
    pub is_blocked_rns_id: Vec<BlockedRnsID>,
}

/// Per-(identity, wallet) record of the one-shot authorization and mint gates.
#[derive(Clone, Debug)]
pub struct UserStatusAccount {
    pub authority: Address,
    pub rns_id: String,
    pub is_minted: bool,
    pub is_authorized: bool,
    pub bump: u8,
}

/// Per-token record binding the token to an identity and a fingerprint.
#[derive(Clone, Debug)]
pub struct NftStatusAccount {
    pub authority: Address,
    pub bump: u8,
    pub rns_id: String,
    pub merkle_root: String,
    pub mint: Address,
}

/// Per-identity record counting completed verifications across wallets.
#[derive(Clone, Debug)]
pub struct RnsIdStatusAccount {
    pub authority: Address,
    pub num: u64,
}

/// No two block-list entries share a wallet key.
pub open spec fn blocked_addresses_unique(s: Seq<BlockedAddress>) -> bool {
    forall|i: int, j: int| 0 <= i < j < s.len() ==> s[i].key@ != s[j].key@
}

/// No two block-list entries share an identity key.
pub open spec fn blocked_rns_ids_unique(s: Seq<BlockedRnsID>) -> bool {
    forall|i: int, j: int| 0 <= i < j < s.len() ==> s[i].key@ != s[j].key@
}

impl ProjectAccount {
    /// Both block-lists are free of duplicate keys.
    pub open spec fn wf(&self) -> bool {
        &&& blocked_addresses_unique(self.is_blocked_address@)
        &&& blocked_rns_ids_unique(self.is_blocked_rns_id@)
    }

    /// Some block-list entry marks this wallet as blocked.
    pub open spec fn blocked_address_spec(&self, address: Seq<u8>) -> bool {
        exists|i: int|
            0 <= i < self.is_blocked_address@.len() && self.is_blocked_address@[i].key@ == address
                && self.is_blocked_address@[i].value
    }

    /// Some block-list entry marks this identity as blocked.
    pub open spec fn blocked_rns_id_spec(&self, rns_id: Seq<char>) -> bool {
        exists|i: int|
            0 <= i < self.is_blocked_rns_id@.len() && self.is_blocked_rns_id@[i].key@ == rns_id
                && self.is_blocked_rns_id@[i].value
    }

    /// Whether this wallet is on the block-list.
    pub fn is_blocked_address(&self, address: &Address) -> (r: bool)
        ensures
            r == self.blocked_address_spec(address@),
    {
        let n = self.is_blocked_address.len();
        let mut i: usize = 0;
        while i < n
            invariant
                n == self.is_blocked_address@.len(),
                i <= n,
                forall|j: int|
                    0 <= j < i ==> !(self.is_blocked_address@[j].key@ == address@
                        && self.is_blocked_address@[j].value),
            decreases n - i,
        {
            let entry = &self.is_blocked_address[i];
            if entry.value && crate::address::addr_eq(&entry.key, address) {
                return true;
            }
            i = i + 1;
        }
        false
    }

    /// Whether this identity is on the block-list.
    pub fn is_blocked_rns_id(&self, rns_id: &String) -> (r: bool)
        ensures
            r == self.blocked_rns_id_spec(rns_id@),
    {
        let n = self.is_blocked_rns_id.len();
        let mut i: usize = 0;
        while i < n
            invariant
                n == self.is_blocked_rns_id@.len(),
                i <= n,
                forall|j: int|
                    0 <= j < i ==> !(self.is_blocked_rns_id@[j].key@ == rns_id@
                        && self.is_blocked_rns_id@[j].value),
            decreases n - i,
        {
            let entry = &self.is_blocked_rns_id[i];
            if entry.value && entry.key == *rns_id {
                return true;
            }
            i = i + 1;
        }
        false
    }
}

/// A user status record stored under (digest of identity, wallet).
#[derive(Clone, Debug)]
pub struct UserStatusEntry {
    pub id_hash: Vec<u8>,
    pub wallet: Address,
    pub status: UserStatusAccount,
}

/// An identity status record stored under the digest of the identity.
#[derive(Clone, Debug)]
pub struct RnsIdStatusEntry {
    pub id_hash: Vec<u8>,
    pub status: RnsIdStatusAccount,
}

/// A token status record stored under the token's own address.
#[derive(Clone, Debug)]
pub struct NftStatusEntry {
    pub mint: Address,
    pub status: NftStatusAccount,
}

/// Whether this entry is keyed by the given digest and wallet.
pub open spec fn user_key_matches(e: UserStatusEntry, h: Seq<u8>, w: Seq<u8>) -> bool {
    e.id_hash@ == h && e.wallet@ == w
}

/// A user status record exists for this key.
pub open spec fn has_user(s: Seq<UserStatusEntry>, h: Seq<u8>, w: Seq<u8>) -> bool {
    exists|i: int| 0 <= i < s.len() && user_key_matches(s[i], h, w)
}

/// The index of the user status record for this key.
pub open spec fn user_index(s: Seq<UserStatusEntry>, h: Seq<u8>, w: Seq<u8>) -> int {
    choose|i: int| 0 <= i < s.len() && user_key_matches(s[i], h, w)
}

/// The user status record for this key.
pub open spec fn user_record(s: Seq<UserStatusEntry>, h: Seq<u8>, w: Seq<u8>) -> UserStatusAccount {
    s[user_index(s, h, w)].status
}

/// An identity status record exists for this digest.
pub open spec fn has_rns(s: Seq<RnsIdStatusEntry>, h: Seq<u8>) -> bool {
    exists|i: int| 0 <= i < s.len() && s[i].id_hash@ == h
}

/// The index of the identity status record for this digest.
pub open spec fn rns_index(s: Seq<RnsIdStatusEntry>, h: Seq<u8>) -> int {
    choose|i: int| 0 <= i < s.len() && s[i].id_hash@ == h
}

/// The identity status record for this digest.
pub open spec fn rns_record(s: Seq<RnsIdStatusEntry>, h: Seq<u8>) -> RnsIdStatusAccount {
    s[rns_index(s, h)].status
}

/// A token status record exists for this token address.
pub open spec fn has_nft(s: Seq<NftStatusEntry>, m: Seq<u8>) -> bool {
    exists|i: int| 0 <= i < s.len() && s[i].mint@ == m
}

/// The index of the token status record for this token address.
pub open spec fn nft_index(s: Seq<NftStatusEntry>, m: Seq<u8>) -> int {
    choose|i: int| 0 <= i < s.len() && s[i].mint@ == m
}

/// The token status record for this token address.
pub open spec fn nft_record(s: Seq<NftStatusEntry>, m: Seq<u8>) -> NftStatusAccount {
    s[nft_index(s, m)].status
}

/// No two user status entries share a key.
pub open spec fn user_keys_unique(s: Seq<UserStatusEntry>) -> bool {
    forall|i: int, j: int|
        0 <= i < j < s.len() ==> !(s[i].id_hash@ == s[j].id_hash@ && s[i].wallet@ == s[j].wallet@)
}

/// No two identity status entries share a digest.
pub open spec fn rns_keys_unique(s: Seq<RnsIdStatusEntry>) -> bool {
    forall|i: int, j: int| 0 <= i < j < s.len() ==> s[i].id_hash@ != s[j].id_hash@
}

/// No two token status entries share a token address.
pub open spec fn nft_keys_unique(s: Seq<NftStatusEntry>) -> bool {
    forall|i: int, j: int| 0 <= i < j < s.len() ==> s[i].mint@ != s[j].mint@
}

/// The account space of one collection.
pub struct RecordStore {
    pub project: Option<ProjectAccount>,
    pub user_statuses: Vec<UserStatusEntry>,
    pub rns_statuses: Vec<RnsIdStatusEntry>,
    pub nft_statuses: Vec<NftStatusEntry>,
}

impl RecordStore {
    /// Every keyed collection is free of duplicate keys, and the project
    /// record, if present, is well formed.
    pub open spec fn wf(&self) -> bool {
        &&& match self.project {
            Some(p) => p.wf(),
            None => true,
        }
        &&& user_keys_unique(self.user_statuses@)
        &&& rns_keys_unique(self.rns_statuses@)
        &&& nft_keys_unique(self.nft_statuses@)
    }

    /// The authorization gate for this key: false while no record exists.
    pub open spec fn authorized_gate(&self, h: Seq<u8>, w: Seq<u8>) -> bool {
        has_user(self.user_statuses@, h, w) && user_record(self.user_statuses@, h, w).is_authorized
    }

    /// The mint gate for this key: false while no record exists.
    pub open spec fn minted_gate(&self, h: Seq<u8>, w: Seq<u8>) -> bool {
        has_user(self.user_statuses@, h, w) && user_record(self.user_statuses@, h, w).is_minted
    }

    /// An empty store: no project record, no status records.
    pub fn new() -> (r: RecordStore)
        ensures
            r.wf(),
            r.project is None,
            r.user_statuses@.len() == 0,
            r.rns_statuses@.len() == 0,
            r.nft_statuses@.len() == 0,
    {
        RecordStore {
            project: None,
            user_statuses: Vec::new(),
            rns_statuses: Vec::new(),
            nft_statuses: Vec::new(),
        }
    }
}

/// With unique keys, an entry that matches (digest, wallet) at index `i`
/// is the entry every lookup for that key finds.
pub proof fn lemma_user_lookup_at(s: Seq<UserStatusEntry>, h: Seq<u8>, w: Seq<u8>, i: int)
    requires
        user_keys_unique(s),
        0 <= i < s.len(),
        user_key_matches(s[i], h, w),
    ensures
        has_user(s, h, w),
        user_index(s, h, w) == i,
        user_record(s, h, w) == s[i].status,
{
    assert(has_user(s, h, w));
    let k = user_index(s, h, w);
    assert(0 <= k < s.len() && user_key_matches(s[k], h, w));
    if k != i {
        assert(false);
    }
}

/// A key-preserving update of one entry keeps user keys unique.
pub proof fn lemma_user_unique_after_update(
    pre: Seq<UserStatusEntry>,
    post: Seq<UserStatusEntry>,
    i: int,
)
    requires
        user_keys_unique(pre),
        0 <= i < pre.len(),
        post.len() == pre.len(),
        forall|j: int| 0 <= j < pre.len() && j != i ==> post[j] == pre[j],
        post[i].id_hash@ == pre[i].id_hash@,
        post[i].wallet@ == pre[i].wallet@,
    ensures
        user_keys_unique(post),
{
    assert forall|a: int, b: int|
        0 <= a < b < post.len() implies !(post[a].id_hash@ == post[b].id_hash@ && post[a].wallet@
        == post[b].wallet@) by {
        assert(post[a].id_hash@ == pre[a].id_hash@ && post[a].wallet@ == pre[a].wallet@);
        assert(post[b].id_hash@ == pre[b].id_hash@ && post[b].wallet@ == pre[b].wallet@);
    }
}

/// Appending an entry under a key not yet present keeps user keys unique.
pub proof fn lemma_user_unique_after_push(
    pre: Seq<UserStatusEntry>,
    post: Seq<UserStatusEntry>,
    h: Seq<u8>,
    w: Seq<u8>,
)
    requires
        user_keys_unique(pre),
        !has_user(pre, h, w),
        post.len() == pre.len() + 1,
        forall|j: int| 0 <= j < pre.len() ==> post[j] == pre[j],
        post[pre.len() as int].id_hash@ == h,
        post[pre.len() as int].wallet@ == w,
    ensures
        user_keys_unique(post),
{
    assert forall|a: int, b: int|
        0 <= a < b < post.len() implies !(post[a].id_hash@ == post[b].id_hash@ && post[a].wallet@
        == post[b].wallet@) by {
        if b < pre.len() {
            assert(post[a] == pre[a]);
            assert(post[b] == pre[b]);
        } else {
            assert(!user_key_matches(pre[a], h, w));
        }
    }
}

/// A key-preserving update of one entry keeps identity digests unique.
pub proof fn lemma_rns_unique_after_update(
    pre: Seq<RnsIdStatusEntry>,
    post: Seq<RnsIdStatusEntry>,
    i: int,
)
    requires
        rns_keys_unique(pre),
        0 <= i < pre.len(),
        post.len() == pre.len(),
        forall|j: int| 0 <= j < pre.len() && j != i ==> post[j] == pre[j],
        post[i].id_hash@ == pre[i].id_hash@,
    ensures
        rns_keys_unique(post),
{
    assert forall|a: int, b: int|
        0 <= a < b < post.len() implies post[a].id_hash@ != post[b].id_hash@ by {
        assert(post[a].id_hash@ == pre[a].id_hash@);
        assert(post[b].id_hash@ == pre[b].id_hash@);
    }
}

/// Appending an entry under a digest not yet present keeps identity
/// digests unique.
pub proof fn lemma_rns_unique_after_push(
    pre: Seq<RnsIdStatusEntry>,
    post: Seq<RnsIdStatusEntry>,
    h: Seq<u8>,
)
    requires
        rns_keys_unique(pre),
        !has_rns(pre, h),
        post.len() == pre.len() + 1,
        forall|j: int| 0 <= j < pre.len() ==> post[j] == pre[j],
        post[pre.len() as int].id_hash@ == h,
    ensures
        rns_keys_unique(post),
{
    assert forall|a: int, b: int|
        0 <= a < b < post.len() implies post[a].id_hash@ != post[b].id_hash@ by {
        if b < pre.len() {
            assert(post[a] == pre[a]);
            assert(post[b] == pre[b]);
        } else {
            assert(pre[a].id_hash@ != h);
        }
    }
}

/// A key-preserving update of one entry keeps token addresses unique.
pub proof fn lemma_nft_unique_after_update(
    pre: Seq<NftStatusEntry>,
    post: Seq<NftStatusEntry>,
    i: int,
)
    requires
        nft_keys_unique(pre),
        0 <= i < pre.len(),
        post.len() == pre.len(),
        forall|j: int| 0 <= j < pre.len() && j != i ==> post[j] == pre[j],
        post[i].mint@ == pre[i].mint@,
    ensures
        nft_keys_unique(post),
{
    assert forall|a: int, b: int|
        0 <= a < b < post.len() implies post[a].mint@ != post[b].mint@ by {
        assert(post[a].mint@ == pre[a].mint@);
        assert(post[b].mint@ == pre[b].mint@);
    }
}

/// Appending an entry under a token address not yet present keeps token
/// addresses unique.
pub proof fn lemma_nft_unique_after_push(
    pre: Seq<NftStatusEntry>,
    post: Seq<NftStatusEntry>,
    m: Seq<u8>,
)
    requires
        nft_keys_unique(pre),
        !has_nft(pre, m),
        post.len() == pre.len() + 1,
        forall|j: int| 0 <= j < pre.len() ==> post[j] == pre[j],
        post[pre.len() as int].mint@ == m,
    ensures
        nft_keys_unique(post),
{
    assert forall|a: int, b: int|
        0 <= a < b < post.len() implies post[a].mint@ != post[b].mint@ by {
        if b < pre.len() {
            assert(post[a] == pre[a]);
            assert(post[b] == pre[b]);
        } else {
            assert(pre[a].mint@ != m);
        }
    }
}

/// Copies a byte vector.
pub fn clone_bytes(v: &Vec<u8>) -> (r: Vec<u8>)
    ensures
        r@ == v@,
{
    let r = v.clone();
    proof {
        assert forall|i: int| 0 <= i < v@.len() implies r@[i] == v@[i] by {
            assert(cloned::<u8>(v@[i], r@[i]));
        }
        assert(r@ =~= v@);
    }
    r
}

/// Copies an address.
pub fn clone_address(a: &Address) -> (r: Address)
    ensures
        r@ == a@,
{
    Address { bytes: clone_bytes(&a.bytes) }
}

/// Finds the first wallet block-list entry with this key, if one exists.
pub(crate) fn find_blocked_addr(s: &Vec<BlockedAddress>, key: &Address) -> (r: Option<usize>)
    ensures
        match r {
            Some(i) => i < s@.len() && s@[i as int].key@ == key@ && (forall|j: int|
                0 <= j < i ==> s@[j].key@ != key@),
            None => forall|j: int| 0 <= j < s@.len() ==> s@[j].key@ != key@,
        },
{
    let n = s.len();
    let mut i: usize = 0;
    while i < n
        invariant
            n == s@.len(),
            i <= n,
            forall|j: int| 0 <= j < i ==> s@[j].key@ != key@,
        decreases n - i,
    {
        if crate::address::addr_eq(&s[i].key, key) {
            return Some(i);
        }
        i = i + 1;
    }
    None
}

/// Finds the first identity block-list entry with this key, if one exists.
pub(crate) fn find_blocked_rns(s: &Vec<BlockedRnsID>, key: &String) -> (r: Option<usize>)
    ensures
        match r {
            Some(i) => i < s@.len() && s@[i as int].key@ == key@ && (forall|j: int|
                0 <= j < i ==> s@[j].key@ != key@),
            None => forall|j: int| 0 <= j < s@.len() ==> s@[j].key@ != key@,
        },
{
    let n = s.len();
    let mut i: usize = 0;
    while i < n
        invariant
            n == s@.len(),
            i <= n,
            forall|j: int| 0 <= j < i ==> s@[j].key@ != key@,
        decreases n - i,
    {
        if s[i].key == *key {
            return Some(i);
        }
        i = i + 1;
    }
    None
}

/// Finds the user status entry for (digest, wallet), if one exists.
pub(crate) fn find_user(s: &Vec<UserStatusEntry>, h: &Vec<u8>, w: &Address) -> (r: Option<usize>)
    requires
        user_keys_unique(s@),
    ensures
        match r {
            Some(i) => has_user(s@, h@, w@) && i == user_index(s@, h@, w@) && i < s@.len()
                && user_key_matches(s@[i as int], h@, w@),
            None => !has_user(s@, h@, w@),
        },
{
    let n = s.len();
    let mut i: usize = 0;
    while i < n
        invariant
            user_keys_unique(s@),
            n == s@.len(),
            i <= n,
            forall|j: int| 0 <= j < i ==> !user_key_matches(s@[j], h@, w@),
        decreases n - i,
    {
        let entry = &s[i];
        if entry.id_hash == *h && crate::address::addr_eq(&entry.wallet, w) {
            proof {
                assert(entry.id_hash@ =~= h@);
                assert(user_key_matches(s@[i as int], h@, w@));
                assert(has_user(s@, h@, w@));
                let k = user_index(s@, h@, w@);
                assert(user_key_matches(s@[k], h@, w@));
                if k != i as int {
                    assert(false);
                }
            }
            return Some(i);
        }
        i = i + 1;
    }
    None
}

/// Finds the identity status entry for a digest, if one exists.
pub(crate) fn find_rns(s: &Vec<RnsIdStatusEntry>, h: &Vec<u8>) -> (r: Option<usize>)
    requires
        rns_keys_unique(s@),
    ensures
        match r {
            Some(i) => has_rns(s@, h@) && i == rns_index(s@, h@) && i < s@.len()
                && s@[i as int].id_hash@ == h@,
            None => !has_rns(s@, h@),
        },
{
    let n = s.len();
    let mut i: usize = 0;
    while i < n
        invariant
            rns_keys_unique(s@),
            n == s@.len(),
            i <= n,
            forall|j: int| 0 <= j < i ==> s@[j].id_hash@ != h@,
        decreases n - i,
    {
        let entry = &s[i];
        if entry.id_hash == *h {
            proof {
                assert(entry.id_hash@ =~= h@);
                assert(has_rns(s@, h@));
                let k = rns_index(s@, h@);
                assert(s@[k].id_hash@ == h@);
                if k != i as int {
                    assert(false);
                }
            }
            return Some(i);
        }
        i = i + 1;
    }
    None
}

/// Finds the token status entry for a token address, if one exists.
pub(crate) fn find_nft(s: &Vec<NftStatusEntry>, m: &Address) -> (r: Option<usize>)
    requires
        nft_keys_unique(s@),
    ensures
        match r {
            Some(i) => has_nft(s@, m@) && i == nft_index(s@, m@) && i < s@.len()
                && s@[i as int].mint@ == m@,
            None => !has_nft(s@, m@),
        },
{
    let n = s.len();
    let mut i: usize = 0;
    while i < n
        invariant
            nft_keys_unique(s@),
            n == s@.len(),
            i <= n,
            forall|j: int| 0 <= j < i ==> s@[j].mint@ != m@,
        decreases n - i,
    {
        let entry = &s[i];
        if crate::address::addr_eq(&entry.mint, m) {
            proof {
                assert(has_nft(s@, m@));
                let k = nft_index(s@, m@);
                assert(s@[k].mint@ == m@);
                if k != i as int {
                    assert(false);
                }
            }
            return Some(i);
        }
        i = i + 1;
    }
    None
}

} // verus!
