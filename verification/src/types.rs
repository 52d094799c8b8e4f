//! Closed sets of tags carried by registry records.
use vstd::prelude::*;

verus! {

/// The fundamental kind of an asset.
#[derive(Clone, Copy, Debug, PartialEq, Eq, Structural)]
pub enum AssetType {
    Physical,
    Digital,
    IT,
    Furniture,
    Vehicle,
}

/// Where an asset stands in its lifecycle.
#[derive(Clone, Copy, Debug, PartialEq, Eq, Structural)]
pub enum AssetStatus {
    Active,
    InMaintenance,
    Disposed,
}

/// The kinds of action that can be recorded against an asset.
#[derive(Clone, Copy, Debug, PartialEq, Eq, Structural)]
pub enum ActionType {
    Procured,
    Transferred,
    Maintained,
    Disposed,
    CheckedIn,
    CheckedOut,
}

/// Subscription plan tiers.
#[derive(Clone, Copy, Debug, PartialEq, Eq, Structural)]
pub enum PlanType {
    Basic,
    Pro,
    Enterprise,
}

/// The state of a subscription.
#[derive(Clone, Copy, Debug, PartialEq, Eq, Structural)]
pub enum SubscriptionStatus {
    Active,
    Expired,
    Cancelled,
}

} // verus!
