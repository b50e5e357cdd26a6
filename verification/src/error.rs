use vstd::prelude::*;

verus! {

/// Errors of the wider voter plugin, numbered and described as the host
/// program reports them.
#[derive(Clone, Copy, Debug, PartialEq, Eq, Structural)]
pub enum NftLockerError {
    InvalidRealmAuthority,
    DecodeMetadataFailed,
    InvalidCollection,
    UnverifiedCollection,
    InsufficientAmountOnNFTAccount,
}

impl NftLockerError {
    /// The numeric code the host assigns: custom program errors are numbered
    /// upward from 6000 in declaration order.
    pub fn code(&self) -> (r: u32)
        ensures
            r == match *self {
                NftLockerError::InvalidRealmAuthority => 6000u32,
                NftLockerError::DecodeMetadataFailed => 6001u32,
                NftLockerError::InvalidCollection => 6002u32,
                NftLockerError::UnverifiedCollection => 6003u32,
                NftLockerError::InsufficientAmountOnNFTAccount => 6004u32,
            },
    {
        match self {
            NftLockerError::InvalidRealmAuthority => 6000,
            NftLockerError::DecodeMetadataFailed => 6001,
            NftLockerError::InvalidCollection => 6002,
            NftLockerError::UnverifiedCollection => 6003,
            NftLockerError::InsufficientAmountOnNFTAccount => 6004,
        }
    }

    /// The human-readable message attached to each error.
    pub fn message(&self) -> (r: &'static str)
        ensures
            r@ == match *self {
                NftLockerError::InvalidRealmAuthority => "Invalid Realm Authority"@,
                NftLockerError::DecodeMetadataFailed => "Failed to decode metadata"@,
                NftLockerError::InvalidCollection => "Collection is invalid"@,
                NftLockerError::UnverifiedCollection => "Collection is not verified"@,
                NftLockerError::InsufficientAmountOnNFTAccount => "There is no NFT in the account"@,
            },
    {
        match self {
            NftLockerError::InvalidRealmAuthority => "Invalid Realm Authority",
            NftLockerError::DecodeMetadataFailed => "Failed to decode metadata",
            NftLockerError::InvalidCollection => "Collection is invalid",
            NftLockerError::UnverifiedCollection => "Collection is not verified",
            NftLockerError::InsufficientAmountOnNFTAccount => "There is no NFT in the account",
        }
    }
}

/// Why a `create_registrar` request was refused, one variant per failed
/// validation; the first failing check in validation order decides.
#[derive(Clone, Copy, Debug, PartialEq, Eq, Structural)]
pub enum RegistrarError {
    /// A registrar for the (realm, governing token mint) pair already exists.
    DuplicateRegistrar,
    /// The governance program account is not marked executable by the host.
    ProgramNotExecutable,
    /// The realm account is not owned by the given governance program.
    InvalidRealmOwner,
    /// The realm account data does not decode as a realm of that program.
    RealmDataInvalid,
    /// The governing token mint is neither the realm's community mint nor its
    /// council mint.
    InvalidGoverningTokenMint,
    /// The signer is not the realm's recorded authority.
    InvalidRealmAuthority,
}

} // verus!
