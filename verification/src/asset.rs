//! Asset records.
use vstd::prelude::*;
use crate::principal::Principal;
use crate::types::{AssetStatus, AssetType};

verus! {

/// A registered asset. `id` names it across the registry; `stellar_token_id`
/// is the one attribute that can change after registration.
#[derive(Debug, PartialEq, Eq)]
pub struct Asset {
    pub id: [u8; 32],
    pub name: String,
    pub asset_type: AssetType,
    pub category: String,
    pub branch_id: u64,
    pub department_id: u64,
    pub status: AssetStatus,
    pub purchase_date: u64,
    pub purchase_cost: i128,
    pub current_value: i128,
    pub warranty_expiry: u64,
    pub stellar_token_id: [u8; 32],
    pub owner: Principal,
}

/// What an asset record holds, as mathematical values.
pub struct AssetView {
    pub id: Seq<u8>,
    pub name: Seq<char>,
    pub asset_type: AssetType,
    pub category: Seq<char>,
    pub branch_id: u64,
    pub department_id: u64,
    pub status: AssetStatus,
    pub purchase_date: u64,
    pub purchase_cost: i128,
    pub current_value: i128,
    pub warranty_expiry: u64,
    pub stellar_token_id: Seq<u8>,
    pub owner: Seq<char>,
}

impl AssetView {
    /// The same record with `token` as its token reference.
    pub open spec fn with_token(self, token: Seq<u8>) -> AssetView {
        AssetView { stellar_token_id: token, ..self }
    }
}

impl View for Asset {
    type V = AssetView;

    open spec fn view(&self) -> AssetView {
        AssetView {
            id: self.id@,
            name: self.name@,
            asset_type: self.asset_type,
            category: self.category@,
            branch_id: self.branch_id,
            department_id: self.department_id,
            status: self.status,
            purchase_date: self.purchase_date,
            purchase_cost: self.purchase_cost,
            current_value: self.current_value,
            warranty_expiry: self.warranty_expiry,
            stellar_token_id: self.stellar_token_id@,
            owner: self.owner@,
        }
    }
}

impl Clone for Asset {
    fn clone(&self) -> (res: Self)
        ensures
            res == *self,
    {
        Asset {
            id: self.id,
            name: self.name.clone(),
            asset_type: self.asset_type,
            category: self.category.clone(),
            branch_id: self.branch_id,
            department_id: self.department_id,
            status: self.status,
            purchase_date: self.purchase_date,
            purchase_cost: self.purchase_cost,
            current_value: self.current_value,
            warranty_expiry: self.warranty_expiry,
            stellar_token_id: self.stellar_token_id,
            owner: self.owner.clone(),
        }
    }
}

impl Asset {
    /// Replaces the token reference and leaves every other field as it was.
    pub fn with_token(self, token: [u8; 32]) -> (res: Asset)
        ensures
            res@ == self@.with_token(token@),
    {
        Asset { stellar_token_id: token, ..self }
    }
}

} // verus!
