//! Deterministic storage-address derivation.
//!
//! Every record lives at an address derived from a fixed prefix, the
//! SHA-256 digest of the identity string where one is involved, and the
//! wallet or token address. The digest keeps arbitrarily long identity
//! strings within the derivation input-length limit of the host; the
//! derivation itself is the host's program-derived-address scheme, a pure
//! function of the seed bytes and the program id.

use vstd::prelude::*;
use vstd::string::StrSliceExecFns;
use vstd::utf8::encode_utf8;

use crate::address::Address;

verus! {

/// Prefix of the project record's address.
pub const NON_TRANSFERABLE_PROJECT_PREFIX: &'static str = "nt-proj-v2";

/// Prefix of the collection-marker token's address.
pub const NON_TRANSFERABLE_PROJECT_MINT_PREFIX: &'static str = "nt-project-mint";

/// Prefix of the project vault's address.
pub const NON_TRANSFERABLE_PROJECT_VAULT_PREFIX: &'static str = "nt-project-mint-vault";

/// Prefix of a minted token's address.
pub const NON_TRANSFERABLE_NFT_MINT_PREFIX: &'static str = "nt-nft-mint";

/// Prefix of a user status record's address (identity digest + wallet).
pub const NON_TRANSFERABLE_NFT_USERSTATUS_PREFIX: &'static str = "nt-nft-user-status";

/// Prefix of a token status record's address.
pub const NON_TRANSFERABLE_NFT_STATUS_PREFIX: &'static str = "nt-nft-status";

/// Prefix of an identity status record's address.
pub const NON_TRANSFERABLE_NFT_RNSID_PREFIX: &'static str = "nt-nft-rnsid-status";

/// Prefix of a descriptive-metadata record's address.
pub const METADATA: &'static str = "metadata";

/// The SHA-256 digest of a string's UTF-8 bytes: a fixed function of the
/// string alone.
pub uninterp spec fn sha256_of(s: Seq<char>) -> Seq<u8>;

/// Digest of an identity string, used as key material in address derivation.
///
/// Relies on sha2's Sha256: the digest is 32 bytes and depends on the
/// hashed bytes alone.
#[verifier::external_body]
pub fn hash_seed(seed: &str) -> (r: Vec<u8>)
    ensures
        r@ == sha256_of(seed@),
        r@.len() == 32,
{
    let mut hasher = <sha2::Sha256 as sha2::Digest>::new();
    sha2::Digest::update(&mut hasher, seed.as_bytes());
    sha2::Digest::finalize(hasher).to_vec()
}

/// The host's program-derived-address function: a fixed function of the
/// seed byte strings and the program id; `None` where no bump seed works.
pub uninterp spec fn pda_of(seeds: Seq<Seq<u8>>, program_id: Seq<u8>) -> Option<(Seq<u8>, u8)>;

/// Whether a derived (address, bump) pair carries exactly the named result.
pub open spec fn pda_match(r: Option<(Address, u8)>, s: Option<(Seq<u8>, u8)>) -> bool {
    match r {
        Some(p) => s matches Some(q) && p.0@ == q.0 && p.1 == q.1 && p.0.wf(),
        None => s is None,
    }
}

/// Derives the program address for the given seeds.
///
/// Relies on solana_program's Pubkey::try_find_program_address: the result
/// is a 32-byte address and a bump byte, computed off-chain as a pure
/// function of the seeds and the program id. It is `None` where the seeds
/// break the scheme's limits (too many, or one longer than 32 bytes), and
/// in the statistically improbable event that no bump seed yields a valid
/// address.
#[verifier::external_body]
fn try_find_pda(seeds: &Vec<Vec<u8>>, program_id: &Address) -> (r: Option<(Address, u8)>)
    requires
        program_id@.len() == 32,
    ensures
        pda_match(r, pda_of(seeds.deep_view(), program_id@)),
{
    let pid = solana_program::pubkey::Pubkey::new_from_array(
        program_id.bytes.as_slice().try_into().unwrap(),
    );
    let refs: Vec<&[u8]> = seeds.iter().map(|s| s.as_slice()).collect();
    match solana_program::pubkey::Pubkey::try_find_program_address(&refs, &pid) {
        Some((a, bump)) => Some((Address { bytes: a.to_bytes().to_vec() }, bump)),
        None => None,
    }
}

/// The project record's derived address.
pub open spec fn project_pda(program_id: Seq<u8>) -> Option<(Seq<u8>, u8)> {
    pda_of(seq![encode_utf8("nt-proj-v2"@)], program_id)
}

/// The collection-marker token's derived address.
pub open spec fn project_mint_pda(program_id: Seq<u8>) -> Option<(Seq<u8>, u8)> {
    pda_of(seq![encode_utf8("nt-project-mint"@)], program_id)
}

/// The project vault's derived address.
pub open spec fn project_vault_pda(program_id: Seq<u8>) -> Option<(Seq<u8>, u8)> {
    pda_of(seq![encode_utf8("nt-project-mint-vault"@)], program_id)
}

/// A minted token's derived address for a given index string.
pub open spec fn nft_mint_pda(index: Seq<char>, program_id: Seq<u8>) -> Option<(Seq<u8>, u8)> {
    pda_of(seq![encode_utf8("nt-nft-mint"@), encode_utf8(index)], program_id)
}

/// The user status record's derived address for (identity, wallet).
pub open spec fn user_status_pda(rns_id: Seq<char>, wallet: Seq<u8>, program_id: Seq<u8>) -> Option<
    (Seq<u8>, u8),
> {
    pda_of(seq![encode_utf8("nt-nft-user-status"@), sha256_of(rns_id), wallet], program_id)
}

/// The identity status record's derived address.
pub open spec fn rns_id_status_pda(rns_id: Seq<char>, program_id: Seq<u8>) -> Option<
    (Seq<u8>, u8),
> {
    pda_of(seq![encode_utf8("nt-nft-rnsid-status"@), sha256_of(rns_id)], program_id)
}

/// The token status record's derived address for a token.
pub open spec fn nft_status_pda(mint: Seq<u8>, program_id: Seq<u8>) -> Option<(Seq<u8>, u8)> {
    pda_of(seq![encode_utf8("nt-nft-status"@), mint], program_id)
}

/// A token's descriptive-metadata address, derived under the metadata
/// program from its fixed prefix, the metadata program id and the token.
pub open spec fn metadata_pda(mint: Seq<u8>, metadata_program: Seq<u8>) -> Option<(Seq<u8>, u8)> {
    pda_of(seq![encode_utf8("metadata"@), metadata_program, mint], metadata_program)
}

/// A token's master-edition address, derived under the metadata program.
pub open spec fn master_edition_pda(mint: Seq<u8>, metadata_program: Seq<u8>) -> Option<
    (Seq<u8>, u8),
> {
    pda_of(
        seq![encode_utf8("metadata"@), metadata_program, mint, encode_utf8("edition"@)],
        metadata_program,
    )
}

/// Address derivation is deterministic: two derivations of the user
/// status record's address for the same (identity, wallet) and program id
/// yield the same address and the same bump.
pub proof fn lemma_user_status_address_deterministic(
    rns_id: Seq<char>,
    wallet: Seq<u8>,
    program_id: Seq<u8>,
    r1: Option<(Address, u8)>,
    r2: Option<(Address, u8)>,
)
    requires
        pda_match(r1, user_status_pda(rns_id, wallet, program_id)),
        pda_match(r2, user_status_pda(rns_id, wallet, program_id)),
    ensures
        r1 is Some <==> r2 is Some,
        r1 matches Some(a) ==> (r2 matches Some(b) && a.0@ == b.0@ && a.1 == b.1),
{
}

/// Derives the project record's address and bump.
pub fn derive_project_address(program_id: &Address) -> (r: Option<(Address, u8)>)
    requires
        program_id.wf(),
    ensures
        pda_match(r, project_pda(program_id@)),
{
    let mut seeds: Vec<Vec<u8>> = Vec::new();
    seeds.push(NON_TRANSFERABLE_PROJECT_PREFIX.as_bytes_vec());
    proof {
        assert(seeds.deep_view() =~~= seq![encode_utf8("nt-proj-v2"@)]);
    }
    try_find_pda(&seeds, program_id)
}

/// Derives the collection-marker token's address and bump.
pub fn derive_project_mint_address(program_id: &Address) -> (r: Option<(Address, u8)>)
    requires
        program_id.wf(),
    ensures
        pda_match(r, project_mint_pda(program_id@)),
{
    let mut seeds: Vec<Vec<u8>> = Vec::new();
    seeds.push(NON_TRANSFERABLE_PROJECT_MINT_PREFIX.as_bytes_vec());
    proof {
        assert(seeds.deep_view() =~~= seq![encode_utf8("nt-project-mint"@)]);
    }
    try_find_pda(&seeds, program_id)
}

/// Derives the project vault's address and bump.
pub fn derive_project_vault_address(program_id: &Address) -> (r: Option<(Address, u8)>)
    requires
        program_id.wf(),
    ensures
        pda_match(r, project_vault_pda(program_id@)),
{
    let mut seeds: Vec<Vec<u8>> = Vec::new();
    seeds.push(NON_TRANSFERABLE_PROJECT_VAULT_PREFIX.as_bytes_vec());
    proof {
        assert(seeds.deep_view() =~~= seq![encode_utf8("nt-project-mint-vault"@)]);
    }
    try_find_pda(&seeds, program_id)
}

/// Derives a minted token's address and bump for an index string.
pub fn derive_nft_mint_address(index: &str, program_id: &Address) -> (r: Option<(Address, u8)>)
    requires
        program_id.wf(),
    ensures
        pda_match(r, nft_mint_pda(index@, program_id@)),
{
    let mut seeds: Vec<Vec<u8>> = Vec::new();
    seeds.push(NON_TRANSFERABLE_NFT_MINT_PREFIX.as_bytes_vec());
    seeds.push(index.as_bytes_vec());
    proof {
        assert(seeds.deep_view() =~~= seq![encode_utf8("nt-nft-mint"@), encode_utf8(index@)]);
    }
    try_find_pda(&seeds, program_id)
}

/// Derives the user status record's address and bump for (identity, wallet).
pub fn derive_user_status_address(rns_id: &str, wallet: &Address, program_id: &Address) -> (r:
    Option<(Address, u8)>)
    requires
        wallet.wf(),
        program_id.wf(),
    ensures
        pda_match(r, user_status_pda(rns_id@, wallet@, program_id@)),
{
    let mut seeds: Vec<Vec<u8>> = Vec::new();
    seeds.push(NON_TRANSFERABLE_NFT_USERSTATUS_PREFIX.as_bytes_vec());
    seeds.push(hash_seed(rns_id));
    seeds.push(crate::state::clone_bytes(&wallet.bytes));
    proof {
        assert(seeds.deep_view() =~~= seq![
            encode_utf8("nt-nft-user-status"@),
            sha256_of(rns_id@),
            wallet@,
        ]);
    }
    try_find_pda(&seeds, program_id)
}

/// Derives the identity status record's address and bump.
pub fn derive_rns_id_status_address(rns_id: &str, program_id: &Address) -> (r: Option<
    (Address, u8),
>)
    requires
        program_id.wf(),
    ensures
        pda_match(r, rns_id_status_pda(rns_id@, program_id@)),
{
    let mut seeds: Vec<Vec<u8>> = Vec::new();
    seeds.push(NON_TRANSFERABLE_NFT_RNSID_PREFIX.as_bytes_vec());
    seeds.push(hash_seed(rns_id));
    proof {
        assert(seeds.deep_view() =~~= seq![
            encode_utf8("nt-nft-rnsid-status"@),
            sha256_of(rns_id@),
        ]);
    }
    try_find_pda(&seeds, program_id)
}

/// Derives the token status record's address and bump for a token.
pub fn derive_nft_status_address(mint: &Address, program_id: &Address) -> (r: Option<
    (Address, u8),
>)
    requires
        mint.wf(),
        program_id.wf(),
    ensures
        pda_match(r, nft_status_pda(mint@, program_id@)),
{
    let mut seeds: Vec<Vec<u8>> = Vec::new();
    seeds.push(NON_TRANSFERABLE_NFT_STATUS_PREFIX.as_bytes_vec());
    seeds.push(crate::state::clone_bytes(&mint.bytes));
    proof {
        assert(seeds.deep_view() =~~= seq![encode_utf8("nt-nft-status"@), mint@]);
    }
    try_find_pda(&seeds, program_id)
}

/// Derives a token's descriptive-metadata address and bump.
pub fn derive_metadata_address(mint: &Address, metadata_program: &Address) -> (r: Option<
    (Address, u8),
>)
    requires
        mint.wf(),
        metadata_program.wf(),
    ensures
        pda_match(r, metadata_pda(mint@, metadata_program@)),
{
    let mut seeds: Vec<Vec<u8>> = Vec::new();
    seeds.push(METADATA.as_bytes_vec());
    seeds.push(crate::state::clone_bytes(&metadata_program.bytes));
    seeds.push(crate::state::clone_bytes(&mint.bytes));
    proof {
        assert(seeds.deep_view() =~~= seq![
            encode_utf8("metadata"@),
            metadata_program@,
            mint@,
        ]);
    }
    try_find_pda(&seeds, metadata_program)
}

/// Derives a token's master-edition address and bump.
pub fn derive_master_edition_address(mint: &Address, metadata_program: &Address) -> (r: Option<
    (Address, u8),
>)
    requires
        mint.wf(),
        metadata_program.wf(),
    ensures
        pda_match(r, master_edition_pda(mint@, metadata_program@)),
{
    let mut seeds: Vec<Vec<u8>> = Vec::new();
    seeds.push(METADATA.as_bytes_vec());
    seeds.push(crate::state::clone_bytes(&metadata_program.bytes));
    seeds.push(crate::state::clone_bytes(&mint.bytes));
    seeds.push("edition".as_bytes_vec());
    proof {
        assert(seeds.deep_view() =~~= seq![
            encode_utf8("metadata"@),
            metadata_program@,
            mint@,
            encode_utf8("edition"@),
        ]);
    }
    try_find_pda(&seeds, metadata_program)
}

} // verus!
