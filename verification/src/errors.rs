use vstd::prelude::*;

verus! {

/// The error raised by the collection-creation path when the metadata
/// record's address does not match its deterministic derivation from the
/// collection's mint.
#[derive(Clone, Copy, PartialEq, Eq, Structural, Debug)]
pub enum ErrorCode {
    MetadatapdaMismatch,
}

/// Every way a ticketing operation can fail.  An operation that fails
/// leaves the ledger exactly as it was: no error here is ever paired with
/// a partial effect.
#[derive(Clone, Copy, PartialEq, Eq, Structural, Debug)]
pub enum NftError {
    /// A metadata address does not match its derivation from the mint.
    BadMetadataPda,
    /// A master-edition address does not match its derivation from the mint.
    BadEditionPda,
    /// The collection path's metadata address check failed.
    MetadatapdaMismatch,
    /// The metadata record is absent or cannot be read.
    InvalidMetadata,
    /// The metadata record's recorded mint is not the mint presented.
    MetadataMintMismatch,
    /// The ticket has no use counter configured.
    NoUsesConfigured,
    /// The ticket's use counter is exhausted.
    NoRemainingUses,
    /// A registry or ledger primitive refused the operation
    /// (a counter would leave its bounds).
    Failed,
    /// The account to be created already exists.
    AlreadyInitialized,
    /// The item is already a verified member of its collection.
    AlreadyVerified,
    /// An account the operation needs does not exist.
    AccountNotFound,
    /// The payer cannot cover the treasury's price.
    InsufficientFunds,
    /// The presented authority is not the authority the record demands.
    AuthorityMismatch,
    /// The item's recorded collection is not the collection presented.
    CollectionMismatch,
}

} // verus!
