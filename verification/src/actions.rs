//! Token-custody and metadata actions, and the events of the operations.
//!
//! A lifecycle operation validates and mutates records, then hands back the
//! actions the ledger runtime must delegate to its token and metadata
//! subsystems, in order. The operations themselves perform no custody
//! change: success of an operation means "these records changed and these
//! actions are owed".

use vstd::prelude::*;

use crate::address::Address;

verus! {

/// A creator listed in a token's descriptive metadata.
#[derive(Clone, Debug)]
pub struct Creator {
    pub address: Address,
    pub verified: bool,
    pub share: u8,
}

/// One delegated call to the ledger's token or metadata subsystem.
#[derive(Clone, Debug)]
pub enum TokenAction {
    /// Move native value from `from` to `to`.
    TransferLamports { from: Address, to: Address, amount: u64 },
    /// Mint `amount` units of `mint` to the token account of `to_wallet`.
    MintTo { mint: Address, to_wallet: Address, amount: u64 },
    /// Freeze the token account of `wallet` for `mint`.
    FreezeAccount { mint: Address, wallet: Address },
    /// Thaw the token account of `wallet` for `mint`.
    ThawAccount { mint: Address, wallet: Address },
    /// Burn `amount` units of `mint` from the token account of `wallet`.
    BurnToken { mint: Address, wallet: Address, amount: u64 },
    /// Create or overwrite the descriptive metadata of `mint`.
    CreateMetadata {
        mint: Address,
        name: String,
        symbol: String,
        uri: String,
        seller_fee_basis_points: u16,
        creators: Option<Vec<Creator>>,
        collection: Option<Address>,
    },
    /// Create the master-edition marker of `mint`.
    CreateMasterEdition { mint: Address, max_supply: u64 },
    /// Verify that `mint` belongs to the collection of `collection_mint`.
    VerifyCollection { mint: Address, collection_mint: Address },
}

/// Event of a successful authorization: the identity and the target
/// wallet of the authorized pair, for off-chain indexers.
#[derive(Clone, Debug)]
pub struct AuthorizeMintEvent {
    pub rns_id: String,
    pub wallet: Address,
}

/// Event of a successful airdrop: the identity, the target wallet, and
/// the address of the minted token.
#[derive(Clone, Debug)]
pub struct AirdropEvent {
    pub rns_id: String,
    pub wallet: Address,
    pub token_id: Address,
}

/// Event of a successful burn: the identity, the target wallet, and the
/// address of the burned token.
#[derive(Clone, Debug)]
pub struct BurnEvent {
    pub rns_id: String,
    pub wallet: Address,
    pub token_id: Address,
}

} // verus!
