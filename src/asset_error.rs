use vstd::prelude::*;

verus! {

/// Custom error codes are numbered from this offset, in declaration order.
pub const ERROR_CODE_OFFSET: u32 = 6000;

/// Failures of the asset-metadata instructions: minting, freezing and
/// updating assets of a collection.
#[derive(Clone, Copy, Debug, PartialEq, Eq, Structural)]
pub enum MPLXCoreError {
    /// The creator list is full.
    CreatorListFull,
    /// The creator is already in the list.
    CreatorAlreadyWhitelisted,
    /// The payer is not the program's upgrade authority.
    NotAuthorized,
    /// The collection has already been initialized.
    CollectionAlreadyInitialized,
    /// The asset has already been initialized.
    AssetAlreadyInitialized,
    /// The collection is not initialized.
    CollectionNotInitialized,
    /// The collection is invalid.
    InvalidCollection,
    /// Invalid asset account.
    InvalidAsset,
    /// Asset not initialized.
    AssetNotInitialized,
    /// Collection mismatch.
    CollectionMismatch,
    /// Freeze failed.
    FreezeFailed,
    /// Thaw failed.
    ThawFailed,
    /// Invalid name.
    InvalidName,
    /// Name too long.
    NameTooLong,
    /// Update failed.
    UpdateFailed,
    /// Mint failed.
    MintFailed,
}

/// The position of each variant in the declaration.
pub open spec fn mplx_index(e: MPLXCoreError) -> u32 {
    match e {
        MPLXCoreError::CreatorListFull => 0,
        MPLXCoreError::CreatorAlreadyWhitelisted => 1,
        MPLXCoreError::NotAuthorized => 2,
        MPLXCoreError::CollectionAlreadyInitialized => 3,
        MPLXCoreError::AssetAlreadyInitialized => 4,
        MPLXCoreError::CollectionNotInitialized => 5,
        MPLXCoreError::InvalidCollection => 6,
        MPLXCoreError::InvalidAsset => 7,
        MPLXCoreError::AssetNotInitialized => 8,
        MPLXCoreError::CollectionMismatch => 9,
        MPLXCoreError::FreezeFailed => 10,
        MPLXCoreError::ThawFailed => 11,
        MPLXCoreError::InvalidName => 12,
        MPLXCoreError::NameTooLong => 13,
        MPLXCoreError::UpdateFailed => 14,
        MPLXCoreError::MintFailed => 15,
    }
}

/// The message that goes with each variant.
pub open spec fn mplx_message(e: MPLXCoreError) -> Seq<char> {
    match e {
        MPLXCoreError::CreatorListFull => "The creator list is full."@,
        MPLXCoreError::CreatorAlreadyWhitelisted => "The creator is already in the list."@,
        MPLXCoreError::NotAuthorized => "The payer is not the program's upgrade authority."@,
        MPLXCoreError::CollectionAlreadyInitialized => "The collection has already been initialized."@,
        MPLXCoreError::AssetAlreadyInitialized => "The asset has already been initialized."@,
        MPLXCoreError::CollectionNotInitialized => "The collection is not initialized."@,
        MPLXCoreError::InvalidCollection => "The collection is invalid."@,
        MPLXCoreError::InvalidAsset => "Invalid asset account."@,
        MPLXCoreError::AssetNotInitialized => "Asset not initialized."@,
        MPLXCoreError::CollectionMismatch => "Collection mismatch."@,
        MPLXCoreError::FreezeFailed => "Freeze failed."@,
        MPLXCoreError::ThawFailed => "Thaw failed."@,
        MPLXCoreError::InvalidName => "Invalid name."@,
        MPLXCoreError::NameTooLong => "Name too long."@,
        MPLXCoreError::UpdateFailed => "Update failed."@,
        MPLXCoreError::MintFailed => "Mint failed."@,
    }
}

impl MPLXCoreError {
    /// The numeric code reported for this error.
    pub fn code(&self) -> (r: u32)
        ensures
            r == ERROR_CODE_OFFSET + mplx_index(*self),
    {
        let index: u32 = match self {
            MPLXCoreError::CreatorListFull => 0,
            MPLXCoreError::CreatorAlreadyWhitelisted => 1,
            MPLXCoreError::NotAuthorized => 2,
            MPLXCoreError::CollectionAlreadyInitialized => 3,
            MPLXCoreError::AssetAlreadyInitialized => 4,
            MPLXCoreError::CollectionNotInitialized => 5,
            MPLXCoreError::InvalidCollection => 6,
            MPLXCoreError::InvalidAsset => 7,
            MPLXCoreError::AssetNotInitialized => 8,
            MPLXCoreError::CollectionMismatch => 9,
            MPLXCoreError::FreezeFailed => 10,
            MPLXCoreError::ThawFailed => 11,
            MPLXCoreError::InvalidName => 12,
            MPLXCoreError::NameTooLong => 13,
            MPLXCoreError::UpdateFailed => 14,
            MPLXCoreError::MintFailed => 15,
        };
        ERROR_CODE_OFFSET + index
    }

    /// The human-readable message for this error.
    pub fn message(&self) -> (r: &'static str)
        ensures
            r@ == mplx_message(*self),
    {
        match self {
            MPLXCoreError::CreatorListFull => "The creator list is full.",
            MPLXCoreError::CreatorAlreadyWhitelisted => "The creator is already in the list.",
            MPLXCoreError::NotAuthorized => "The payer is not the program's upgrade authority.",
            MPLXCoreError::CollectionAlreadyInitialized => "The collection has already been initialized.",
            MPLXCoreError::AssetAlreadyInitialized => "The asset has already been initialized.",
            MPLXCoreError::CollectionNotInitialized => "The collection is not initialized.",
            MPLXCoreError::InvalidCollection => "The collection is invalid.",
            MPLXCoreError::InvalidAsset => "Invalid asset account.",
            MPLXCoreError::AssetNotInitialized => "Asset not initialized.",
            MPLXCoreError::CollectionMismatch => "Collection mismatch.",
            MPLXCoreError::FreezeFailed => "Freeze failed.",
            MPLXCoreError::ThawFailed => "Thaw failed.",
            MPLXCoreError::InvalidName => "Invalid name.",
            MPLXCoreError::NameTooLong => "Name too long.",
            MPLXCoreError::UpdateFailed => "Update failed.",
            MPLXCoreError::MintFailed => "Mint failed.",
        }
    }
}

} // verus!
