//! The compact error set reported across the contract boundary.
use vstd::prelude::*;

verus! {

/// The failures of asset and branch operations, without the bootstrap ones.
#[derive(Clone, Copy, Debug, PartialEq, Eq, Structural)]
pub enum ContractError {
    AssetAlreadyExists,
    AssetNotFound,
    BranchAlreadyExists,
    BranchNotFound,
    Unauthorized,
}

impl ContractError {
    /// The numeric code of each error kind.
    pub open spec fn code_of(self) -> u32 {
        match self {
            ContractError::AssetAlreadyExists => 1,
            ContractError::AssetNotFound => 2,
            ContractError::BranchAlreadyExists => 3,
            ContractError::BranchNotFound => 4,
            ContractError::Unauthorized => 5,
        }
    }

    /// Returns the numeric code under which this error is reported.
    pub fn code(&self) -> (c: u32)
        ensures
            c == self.code_of(),
    {
        match self {
            ContractError::AssetAlreadyExists => 1,
            ContractError::AssetNotFound => 2,
            ContractError::BranchAlreadyExists => 3,
            ContractError::BranchNotFound => 4,
            ContractError::Unauthorized => 5,
        }
    }
}

} // verus!
