//! An admin-governed asset registry: asset and branch records in a key-value
//! store, with authorization-gated mutation and idempotent branch links.
pub mod asset;
pub mod auth;
pub mod branch;
pub mod contract;
pub mod error;
pub mod errors;
pub mod laws;
pub mod memory;
pub mod principal;
pub mod rules;
pub mod store;
pub mod types;

pub use asset::Asset;
pub use auth::{AllowAll, Authorizer, Signers};
pub use branch::Branch;
pub use contract::AssetUpContract;
pub use error::{dummy_function, Error};
pub use errors::ContractError;
pub use memory::MemoryStore;
pub use principal::{copy_ids, holds_id, same_id, Principal};
pub use rules::LinkPolicy;
pub use store::{DataKey, Store, Value};
pub use types::{ActionType, AssetStatus, AssetType, PlanType, SubscriptionStatus};
