//! Typed failure codes surfaced to callers.
//!
//! Every lifecycle operation aborts with one of these codes; none is retried
//! internally.

use vstd::prelude::*;

verus! {

/// Failure codes of the lifecycle operations.
#[derive(Clone, Copy, Debug, PartialEq, Eq, Structural)]
pub enum ErrorCode {
    /// Signature-check input had the wrong program or length.
    InvalidDataProvided,
    /// The signature data provided to validate the metadata is incorrect.
    SignatureVerificationFailed,
    /// The payer's balance does not cover the mint price.
    InsufficientBalance,
    /// The fee recipient handed in does not match the project record.
    InvalidFeeRecipient,
    /// There are no more tokens to mint in this collection.
    CandyMachineEmpty,
    /// The signer is not the recorded owner, or an ownership link between
    /// the supplied accounts and the recorded state does not match.
    InvalidAuthority,
    /// The authorization mint provided is not valid.
    InvalidAuthMint,
    /// The token was already minted for this wallet.
    AlreadyMinted,
    /// The wallet is on the block-list.
    WalletBlacklisted,
    /// The identity is on the block-list.
    LdidBlacklisted,
    /// One identity can only mint once to the same wallet.
    LDIDHasMinted,
    /// The (identity, wallet) pair was already authorized.
    LDIDHasAuthorized,
    /// The supplied identity does not match the recorded one.
    RnsIsNotMatch,
    /// The collection's project record already exists; re-initialization
    /// is not supported.
    AlreadyInitialized,
}

impl ErrorCode {
    /// The human-readable message of this code.
    pub open spec fn message_spec(&self) -> Seq<char> {
        match *self {
            ErrorCode::InvalidDataProvided => "SECP256K1 program or length doesn't match"@,
            ErrorCode::SignatureVerificationFailed => "The signature data provided to validate the metadata is incorrect"@,
            ErrorCode::InsufficientBalance => "You don't have enough SOL to mint this NFT"@,
            ErrorCode::InvalidFeeRecipient => "Invalid recipient address"@,
            ErrorCode::CandyMachineEmpty => "There are no more NFTs to mint in this collection"@,
            ErrorCode::InvalidAuthority => "The authority provided is not valid"@,
            ErrorCode::InvalidAuthMint => "The authMint provided is not valid"@,
            ErrorCode::AlreadyMinted => "One LDID can only mint once to the same wallet."@,
            ErrorCode::WalletBlacklisted => "The wallet is blacklisted."@,
            ErrorCode::LdidBlacklisted => "The LDID is blacklisted."@,
            ErrorCode::LDIDHasMinted => "One LDID can only mint once to the same wallet."@,
            ErrorCode::LDIDHasAuthorized => "Authorization is in process, please wait."@,
            ErrorCode::RnsIsNotMatch => "RnsIs doesn't matched."@,
            ErrorCode::AlreadyInitialized => "The project is already initialized."@,
        }
    }

    /// The human-readable message of this code.
    pub fn message(&self) -> (r: &'static str)
        ensures
            r@ == self.message_spec(),
    {
        match *self {
            ErrorCode::InvalidDataProvided => "SECP256K1 program or length doesn't match",
            ErrorCode::SignatureVerificationFailed => "The signature data provided to validate the metadata is incorrect",
            ErrorCode::InsufficientBalance => "You don't have enough SOL to mint this NFT",
            ErrorCode::InvalidFeeRecipient => "Invalid recipient address",
            ErrorCode::CandyMachineEmpty => "There are no more NFTs to mint in this collection",
            ErrorCode::InvalidAuthority => "The authority provided is not valid",
            ErrorCode::InvalidAuthMint => "The authMint provided is not valid",
            ErrorCode::AlreadyMinted => "One LDID can only mint once to the same wallet.",
            ErrorCode::WalletBlacklisted => "The wallet is blacklisted.",
            ErrorCode::LdidBlacklisted => "The LDID is blacklisted.",
            ErrorCode::LDIDHasMinted => "One LDID can only mint once to the same wallet.",
            ErrorCode::LDIDHasAuthorized => "Authorization is in process, please wait.",
            ErrorCode::RnsIsNotMatch => "RnsIs doesn't matched.",
            ErrorCode::AlreadyInitialized => "The project is already initialized.",
        }
    }
}

} // verus!
