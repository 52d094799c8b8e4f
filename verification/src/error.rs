//! The registry's error taxonomy.
use vstd::prelude::*;

verus! {

/// Every way a registry operation can fail. Each kind has a stable numeric
/// code, given by [`Error::code`].
#[derive(Clone, Copy, Debug, PartialEq, Eq, PartialOrd, Ord, Structural)]
pub enum Error {
    /// An admin is already stored.
    AlreadyInitialized,
    /// No admin has been stored yet.
    AdminNotFound,
    /// An asset with this id is already registered.
    AssetAlreadyExists,
    /// No asset with this id is registered.
    AssetNotFound,
    /// A branch with this id already exists.
    BranchAlreadyExists,
    /// No branch with this id exists.
    BranchNotFound,
    /// A subscription with this id already exists.
    SubscriptionAlreadyExists,
    /// The call was not authorized by the required principal.
    Unauthorized,
    /// The payment is not valid.
    InvalidPayment,
    /// A required name was empty.
    EmptyName,
}

impl Error {
    /// The numeric code of each error kind.
    pub open spec fn code_of(self) -> u32 {
        match self {
            Error::AlreadyInitialized => 1,
            Error::AdminNotFound => 2,
            Error::AssetAlreadyExists => 3,
            Error::AssetNotFound => 4,
            Error::BranchAlreadyExists => 5,
            Error::BranchNotFound => 6,
            Error::SubscriptionAlreadyExists => 7,
            Error::Unauthorized => 8,
            Error::InvalidPayment => 9,
            Error::EmptyName => 10,
        }
    }

    /// Returns the numeric code under which this error is reported.
    pub fn code(&self) -> (c: u32)
        ensures
            c == self.code_of(),
            1 <= c <= 10,
    {
        match self {
            Error::AlreadyInitialized => 1,
            Error::AdminNotFound => 2,
            Error::AssetAlreadyExists => 3,
            Error::AssetNotFound => 4,
            Error::BranchAlreadyExists => 5,
            Error::BranchNotFound => 6,
            Error::SubscriptionAlreadyExists => 7,
            Error::Unauthorized => 8,
            Error::InvalidPayment => 9,
            Error::EmptyName => 10,
        }
    }
}

/// Rejects the creation of a record that is already present: fails with
/// `AssetAlreadyExists` exactly when `asset_exists` holds.
pub fn dummy_function(asset_exists: bool) -> (res: Result<(), Error>)
    ensures
        asset_exists ==> res == Err::<(), Error>(Error::AssetAlreadyExists),
        !asset_exists ==> res == Ok::<(), Error>(()),
{
    if asset_exists {
        Err(Error::AssetAlreadyExists)
    } else {
        Ok(())
    }
}

} // verus!
