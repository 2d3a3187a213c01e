//! The collateral-custody extension's error vocabulary.
//!
//! The custody service that mints, transfers and burns collateral assets
//! lives in the host runtime and answers every call with a numeric status
//! code. Decoding that code into a typed error is the ledger's own logic and
//! is verified here; the calls themselves are host I/O and stay outside the
//! library.

use vstd::prelude::*;

verus! {

/// Marker for the host's custody extension. The extension's operations are
/// host calls; the library only owns their status-code vocabulary.
pub struct UniquesExtension;

/// Errors reported by the custody service, one per documented status code.
#[derive(Clone, Copy, PartialEq, Eq, Structural, Debug)]
pub enum UniquesError {
    /// Account balance must be greater than or equal to the transfer amount.
    BalanceLow,
    /// The account to alter does not exist.
    NoAccount,
    /// The signing account has no permission to do the operation.
    NoPermission,
    /// The given asset ID is unknown.
    Unknown,
    /// The origin account is frozen.
    Frozen,
    /// The asset ID is already taken.
    InUse,
    /// Invalid witness data given.
    BadWitness,
    /// Minimum balance should be non-zero.
    MinBalanceZero,
    /// Unable to increment the consumer reference counters on the account.
    NoProvider,
    /// Invalid metadata given.
    BadMetadata,
    /// No approval exists that would allow the transfer.
    Unapproved,
    /// The source account would not survive the transfer.
    WouldDie,
    /// The asset-account already exists.
    AlreadyExists,
    /// The asset-account doesn't have an associated deposit.
    NoDeposit,
    /// The operation would result in funds being burned.
    WouldBurn,
    /// The asset is live and actively being used.
    LiveAsset,
    /// The asset is not live, and likely being destroyed.
    AssetNotLive,
    /// The asset status is not the expected status.
    IncorrectStatus,
    /// The asset should be frozen before the given operation.
    NotFrozen,
    /// Origin caller is not supported.
    OriginCannotBeCaller,
    /// Unknown runtime error.
    RuntimeError,
    /// A status code outside the documented vocabulary.
    UnknownStatusCode,
    /// The answer carried an invalid wire encoding.
    InvalidScaleEncoding,
}

/// The meaning of each status code the custody service can answer with:
/// zero is success, each documented code names its error, and anything else
/// is an unknown code.
pub open spec fn spec_status(status_code: u32) -> Result<(), UniquesError> {
    if status_code == 0 {
        Ok(())
    } else if status_code == 1 {
        Err(UniquesError::BalanceLow)
    } else if status_code == 2 {
        Err(UniquesError::NoAccount)
    } else if status_code == 3 {
        Err(UniquesError::NoPermission)
    } else if status_code == 4 {
        Err(UniquesError::Unknown)
    } else if status_code == 5 {
        Err(UniquesError::Frozen)
    } else if status_code == 6 {
        Err(UniquesError::InUse)
    } else if status_code == 7 {
        Err(UniquesError::BadWitness)
    } else if status_code == 8 {
        Err(UniquesError::MinBalanceZero)
    } else if status_code == 9 {
        Err(UniquesError::NoProvider)
    } else if status_code == 10 {
        Err(UniquesError::BadMetadata)
    } else if status_code == 11 {
        Err(UniquesError::Unapproved)
    } else if status_code == 12 {
        Err(UniquesError::WouldDie)
    } else if status_code == 13 {
        Err(UniquesError::AlreadyExists)
    } else if status_code == 14 {
        Err(UniquesError::NoDeposit)
    } else if status_code == 15 {
        Err(UniquesError::WouldBurn)
    } else if status_code == 16 {
        Err(UniquesError::LiveAsset)
    } else if status_code == 17 {
        Err(UniquesError::AssetNotLive)
    } else if status_code == 18 {
        Err(UniquesError::IncorrectStatus)
    } else if status_code == 19 {
        Err(UniquesError::NotFrozen)
    } else if status_code == 98 {
        Err(UniquesError::OriginCannotBeCaller)
    } else if status_code == 99 {
        Err(UniquesError::RuntimeError)
    } else {
        Err(UniquesError::UnknownStatusCode)
    }
}

impl UniquesError {
    /// Decodes the status code of a custody-extension answer.
    pub fn from_status_code(status_code: u32) -> (r: Result<(), Self>)
        ensures
            r == spec_status(status_code),
    {
        match status_code {
            0 => Ok(()),
            1 => Err(Self::BalanceLow),
            2 => Err(Self::NoAccount),
            3 => Err(Self::NoPermission),
            4 => Err(Self::Unknown),
            5 => Err(Self::Frozen),
            6 => Err(Self::InUse),
            7 => Err(Self::BadWitness),
            8 => Err(Self::MinBalanceZero),
            9 => Err(Self::NoProvider),
            10 => Err(Self::BadMetadata),
            11 => Err(Self::Unapproved),
            12 => Err(Self::WouldDie),
            13 => Err(Self::AlreadyExists),
            14 => Err(Self::NoDeposit),
            15 => Err(Self::WouldBurn),
            16 => Err(Self::LiveAsset),
            17 => Err(Self::AssetNotLive),
            18 => Err(Self::IncorrectStatus),
            19 => Err(Self::NotFrozen),
            98 => Err(Self::OriginCannotBeCaller),
            99 => Err(Self::RuntimeError),
            _ => Err(Self::UnknownStatusCode),
        }
    }
}

/// Whose authority a custody call is made under.
#[derive(Clone, Copy, PartialEq, Eq, Structural, Debug)]
pub enum Origin {
    /// The caller of the contract.
    Caller,
    /// The contract's own address.
    Address,
}

impl Default for Origin {
    /// Custody calls are made under the contract's own address unless a
    /// caller origin is asked for explicitly.
    fn default() -> (r: Self)
        ensures
            r == Origin::Address,
    {
        Origin::Address
    }
}

} // verus!
