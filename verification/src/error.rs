//! The error taxonomy of the bridge, the commission engine and the upgrade
//! admin, flattened into one enum. Every failing operation aborts with one of
//! these values; the numeric code of each is what the chain reports.

use vstd::prelude::*;

verus! {

/// Errors returned by the bridge core. The numeric code of a variant is its
/// position in this list, from 0 to 30.
#[derive(Clone, Copy, Debug, PartialEq, Eq, Structural)]
pub enum BridgeError {
    /// The account cannot be initialized because it is already in use.
    AlreadyInUse,
    /// Lamport balance below the rent-exempt threshold.
    NotRentExempt,
    /// The account has not been initialized.
    NotInitialized,
    /// Admin signature was not provided.
    UnsignedAdmin,
    /// Wrong admin account.
    WrongAdmin,
    /// Created account data length is wrong.
    WrongDataLen,
    /// Wrong seeds for the admin account.
    WrongSeeds,
    /// Wrong receipt account for the withdrawal origin.
    WrongNonce,
    /// Wrong token account.
    WrongTokenAccount,
    /// Wrong token metadata account.
    WrongMetadataAccount,
    /// Wrong arguments size.
    WrongArgsSize,
    /// Wrong mint account key.
    WrongMint,
    /// Wrong Merkle path array.
    WrongMerklePath,
    /// Wrong Merkle root.
    WrongMerkleRoot,
    /// Wrong content hash.
    WrongContentHash,
    /// The recovered signature key differs from the stored one.
    WrongSignature,
    /// The signature could not be recovered from.
    InvalidSignature,
    /// Wrong message for signing.
    InvalidMessage,
    /// Invalid key.
    InvalidKey,
    /// Wrong token type in the content.
    WrongTokenType,
    /// Wrong balance.
    WrongBalance,
    /// Uninitialized metadata account.
    UninitializedMetadata,
    /// Wrong token standard.
    WrongTokenStandard,
    /// Wrong token seed.
    WrongTokenSeed,
    /// No token metadata provided.
    NoTokenMeta,
    /// Uninitialized mint account.
    UninitializedMint,
    /// Wrong commission program.
    WrongCommissionProgram,
    /// Wrong commission deposit arguments.
    WrongCommissionArguments,
    /// Wrong commission account.
    WrongCommissionAccount,
    /// Token is not acceptable to charge a commission in.
    NotAcceptable,
    /// Token kind is not supported yet.
    NotSupported,
}

impl BridgeError {
    /// The numeric program-error code of this error: its position in the list.
    pub open spec fn code_spec(self) -> u32 {
        match self {
            BridgeError::AlreadyInUse => 0,
            BridgeError::NotRentExempt => 1,
            BridgeError::NotInitialized => 2,
            BridgeError::UnsignedAdmin => 3,
            BridgeError::WrongAdmin => 4,
            BridgeError::WrongDataLen => 5,
            BridgeError::WrongSeeds => 6,
            BridgeError::WrongNonce => 7,
            BridgeError::WrongTokenAccount => 8,
            BridgeError::WrongMetadataAccount => 9,
            BridgeError::WrongArgsSize => 10,
            BridgeError::WrongMint => 11,
            BridgeError::WrongMerklePath => 12,
            BridgeError::WrongMerkleRoot => 13,
            BridgeError::WrongContentHash => 14,
            BridgeError::WrongSignature => 15,
            BridgeError::InvalidSignature => 16,
            BridgeError::InvalidMessage => 17,
            BridgeError::InvalidKey => 18,
            BridgeError::WrongTokenType => 19,
            BridgeError::WrongBalance => 20,
            BridgeError::UninitializedMetadata => 21,
            BridgeError::WrongTokenStandard => 22,
            BridgeError::WrongTokenSeed => 23,
            BridgeError::NoTokenMeta => 24,
            BridgeError::UninitializedMint => 25,
            BridgeError::WrongCommissionProgram => 26,
            BridgeError::WrongCommissionArguments => 27,
            BridgeError::WrongCommissionAccount => 28,
            BridgeError::NotAcceptable => 29,
            BridgeError::NotSupported => 30,
        }
    }

    /// The numeric program-error code of this error.
    pub fn code(&self) -> (r: u32)
        ensures
            r == self.code_spec(),
    {
        match self {
            BridgeError::AlreadyInUse => 0,
            BridgeError::NotRentExempt => 1,
            BridgeError::NotInitialized => 2,
            BridgeError::UnsignedAdmin => 3,
            BridgeError::WrongAdmin => 4,
            BridgeError::WrongDataLen => 5,
            BridgeError::WrongSeeds => 6,
            BridgeError::WrongNonce => 7,
            BridgeError::WrongTokenAccount => 8,
            BridgeError::WrongMetadataAccount => 9,
            BridgeError::WrongArgsSize => 10,
            BridgeError::WrongMint => 11,
            BridgeError::WrongMerklePath => 12,
            BridgeError::WrongMerkleRoot => 13,
            BridgeError::WrongContentHash => 14,
            BridgeError::WrongSignature => 15,
            BridgeError::InvalidSignature => 16,
            BridgeError::InvalidMessage => 17,
            BridgeError::InvalidKey => 18,
            BridgeError::WrongTokenType => 19,
            BridgeError::WrongBalance => 20,
            BridgeError::UninitializedMetadata => 21,
            BridgeError::WrongTokenStandard => 22,
            BridgeError::WrongTokenSeed => 23,
            BridgeError::NoTokenMeta => 24,
            BridgeError::UninitializedMint => 25,
            BridgeError::WrongCommissionProgram => 26,
            BridgeError::WrongCommissionArguments => 27,
            BridgeError::WrongCommissionAccount => 28,
            BridgeError::NotAcceptable => 29,
            BridgeError::NotSupported => 30,
        }
    }
}

} // verus!
