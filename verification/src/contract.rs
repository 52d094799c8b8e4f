//! The registry: its operations over a store and an authorizer.
use vstd::prelude::*;
use crate::asset::{Asset, AssetView};
use crate::auth::Authorizer;
use crate::branch::{Branch, BranchView};
use crate::error::Error;
use crate::principal::{holds_id, id_views, Principal};
use crate::rules::{
    add_asset_to_branch_effect, add_asset_to_branch_outcome, admin_gate, consistent,
    create_branch_effect, create_branch_outcome, get_admin_outcome, get_asset_outcome,
    get_branch_assets_outcome, get_branch_outcome, initialize_effect, initialize_outcome, link_gate,
    links_at, register_asset_effect, register_asset_outcome, tokenize_asset_effect,
    tokenize_asset_outcome, LinkPolicy,
};
use crate::store::{DataKey, Store, Value};

verus! {

/// The registry. It keeps every record in `store`, asks `auth` who
/// authorized the call that it is serving, and lets link whom `policy` says.
pub struct AssetUpContract<S: Store, A: Authorizer> {
    pub store: S,
    pub auth: A,
    pub policy: LinkPolicy,
}

impl<S: Store, A: Authorizer> AssetUpContract<S, A> {
    /// Makes a registry over `store`, serving a call authorized as `auth`
    /// says. Linking is open to anyone.
    pub fn new(store: S, auth: A) -> (contract: Self)
        ensures
            contract.store == store,
            contract.auth == auth,
            contract.policy == LinkPolicy::Open,
    {
        AssetUpContract { store, auth, policy: LinkPolicy::Open }
    }

    /// The same registry, letting link whom `policy` says.
    pub fn with_link_policy(self, policy: LinkPolicy) -> (contract: Self)
        ensures
            contract.store == self.store,
            contract.auth == self.auth,
            contract.policy == policy,
    {
        AssetUpContract { store: self.store, auth: self.auth, policy }
    }

    /// Fails as every admin-authorized operation does before it looks at its
    /// arguments.
    fn require_admin(&self) -> (res: Result<(), Error>)
        ensures
            match res {
                Ok(_) => admin_gate(self.store@, self.auth@) is None,
                Err(e) => admin_gate(self.store@, self.auth@) == Some(e),
            },
    {
        match self.store.get(&DataKey::Admin) {
            Some(Value::Admin(admin)) => {
                if self.auth.is_authorized(&admin) {
                    Ok(())
                } else {
                    Err(Error::Unauthorized)
                }
            },
            _ => Err(Error::AdminNotFound),
        }
    }

    /// Stores `admin` as the registry's admin. The call must be authorized by
    /// `admin` itself, and no admin may be stored yet.
    pub fn initialize(&mut self, admin: Principal) -> (res: Result<(), Error>)
        ensures
            res == initialize_outcome(old(self).store@, old(self).auth@, admin@),
            final(self).store@ == initialize_effect(
                old(self).store@,
                old(self).auth@,
                admin@,
            ),
            final(self).auth == old(self).auth,
            final(self).policy == old(self).policy,
            consistent(old(self).store@) ==> consistent(final(self).store@),
    {
        proof {
            if consistent(self.store@) {
                crate::laws::law_initialize_keeps_consistency(self.store@, self.auth@, admin@);
            }
        }
        if !self.auth.is_authorized(&admin) {
            return Err(Error::Unauthorized);
        }
        if self.store.has(&DataKey::Admin) {
            return Err(Error::AlreadyInitialized);
        }
        self.store.set(DataKey::Admin, Value::Admin(admin));
        Ok(())
    }

    /// Returns the stored admin, or `AdminNotFound` where none is stored.
    pub fn get_admin(&self) -> (res: Result<Principal, Error>)
        ensures
            match res {
                Ok(admin) => get_admin_outcome(self.store@) == Ok::<
                    Seq<char>,
                    Error,
                >(admin@),
                Err(e) => get_admin_outcome(self.store@) == Err::<Seq<char>, Error>(
                    e,
                ),
            },
    {
        match self.store.get(&DataKey::Admin) {
            Some(Value::Admin(admin)) => Ok(admin),
            _ => Err(Error::AdminNotFound),
        }
    }

    /// Registers `asset` under its id. The call must be authorized by the
    /// asset's owner, the name must not be empty, and the id must be new.
    pub fn register_asset(&mut self, asset: Asset) -> (res: Result<(), Error>)
        ensures
            res == register_asset_outcome(old(self).store@, old(self).auth@, asset@),
            final(self).store@ == register_asset_effect(
                old(self).store@,
                old(self).auth@,
                asset@,
            ),
            final(self).auth == old(self).auth,
            final(self).policy == old(self).policy,
            consistent(old(self).store@) ==> consistent(final(self).store@),
    {
        proof {
            if consistent(self.store@) {
                crate::laws::law_register_asset_keeps_consistency(
                    self.store@,
                    self.auth@,
                    asset@,
                );
            }
        }
        if !self.auth.is_authorized(&asset.owner) {
            return Err(Error::Unauthorized);
        }
        if asset.name.as_str().is_empty() {
            return Err(Error::EmptyName);
        }
        let key = DataKey::Asset(asset.id);
        if self.store.has(&key) {
            return Err(Error::AssetAlreadyExists);
        }
        self.store.set(key, Value::Asset(asset));
        Ok(())
    }

    /// Returns the asset stored under `asset_id`, or `AssetNotFound`.
    pub fn get_asset(&self, asset_id: [u8; 32]) -> (res: Result<Asset, Error>)
        ensures
            match res {
                Ok(asset) => get_asset_outcome(self.store@, asset_id@) == Ok::<
                    AssetView,
                    Error,
                >(asset@),
                Err(e) => get_asset_outcome(self.store@, asset_id@) == Err::<
                    AssetView,
                    Error,
                >(e),
            },
    {
        match self.store.get(&DataKey::Asset(asset_id)) {
            Some(Value::Asset(asset)) => Ok(asset),
            _ => Err(Error::AssetNotFound),
        }
    }

    /// Creates a branch with an empty link list. The call must be authorized
    /// by the registry's admin, the name must not be empty, and the id must
    /// be new.
    pub fn create_branch(
        &mut self,
        id: [u8; 32],
        name: String,
        location: String,
        admin: Principal,
    ) -> (res: Result<(), Error>)
        ensures
            res == create_branch_outcome(
                old(self).store@,
                old(self).auth@,
                (BranchView { id: id@, name: name@, location: location@, admin: admin@ }),
            ),
            final(self).store@ == create_branch_effect(
                old(self).store@,
                old(self).auth@,
                (BranchView { id: id@, name: name@, location: location@, admin: admin@ }),
            ),
            final(self).auth == old(self).auth,
            final(self).policy == old(self).policy,
            consistent(old(self).store@) ==> consistent(final(self).store@),
    {
        proof {
            if consistent(self.store@) {
                crate::laws::law_create_branch_keeps_consistency(
                    self.store@,
                    self.auth@,
                    BranchView { id: id@, name: name@, location: location@, admin: admin@ },
                );
            }
        }
        match self.require_admin() {
            Err(e) => {
                return Err(e);
            },
            Ok(_) => {},
        }
        if name.as_str().is_empty() {
            return Err(Error::EmptyName);
        }
        let key = DataKey::Branch(id);
        if self.store.has(&key) {
            return Err(Error::BranchAlreadyExists);
        }
        let branch = Branch { id, name, location, admin };
        self.store.set(key, Value::Branch(branch));
        let links: Vec<[u8; 32]> = Vec::new();
        assert(id_views(links@) =~= Seq::<Seq<u8>>::empty());
        self.store.set(DataKey::AssetList(id), Value::AssetList(links));
        Ok(())
    }

    /// Fails as a link does before the registry looks for its two ends.
    fn require_link_rights(&self, branch_id: [u8; 32]) -> (res: Result<(), Error>)
        ensures
            match res {
                Ok(_) => link_gate(self.store@, self.auth@, self.policy, branch_id@) is None,
                Err(e) => link_gate(self.store@, self.auth@, self.policy, branch_id@) == Some(e),
            },
    {
        match self.policy {
            LinkPolicy::Open => Ok(()),
            LinkPolicy::RegistryAdmin => self.require_admin(),
            LinkPolicy::BranchAdmin => match self.store.get(&DataKey::Branch(branch_id)) {
                Some(Value::Branch(branch)) => {
                    if self.auth.is_authorized(&branch.admin) {
                        Ok(())
                    } else {
                        Err(Error::Unauthorized)
                    }
                },
                _ => Err(Error::BranchNotFound),
            },
        }
    }

    /// Links asset `asset_id` to branch `branch_id`. The caller must be one
    /// whom the link policy lets link, and both must exist. Where the link is
    /// there already nothing changes; else the asset's id is appended to the
    /// branch's link list.
    pub fn add_asset_to_branch(&mut self, branch_id: [u8; 32], asset_id: [u8; 32]) -> (res: Result<
        (),
        Error,
    >)
        ensures
            res == add_asset_to_branch_outcome(
                old(self).store@,
                old(self).auth@,
                old(self).policy,
                branch_id@,
                asset_id@,
            ),
            final(self).store@ == add_asset_to_branch_effect(
                old(self).store@,
                old(self).auth@,
                old(self).policy,
                branch_id@,
                asset_id@,
            ),
            final(self).auth == old(self).auth,
            final(self).policy == old(self).policy,
            consistent(old(self).store@) ==> consistent(final(self).store@),
    {
        proof {
            if consistent(self.store@) {
                crate::laws::law_add_asset_to_branch_keeps_consistency(
                    self.store@,
                    self.auth@,
                    self.policy,
                    branch_id@,
                    asset_id@,
                );
            }
        }
        match self.require_link_rights(branch_id) {
            Err(e) => {
                return Err(e);
            },
            Ok(_) => {},
        }
        if !self.store.has(&DataKey::Branch(branch_id)) {
            return Err(Error::BranchNotFound);
        }
        if !self.store.has(&DataKey::Asset(asset_id)) {
            return Err(Error::AssetNotFound);
        }
        let list_key = DataKey::AssetList(branch_id);
        let mut links: Vec<[u8; 32]> = match self.store.get(&list_key) {
            Some(Value::AssetList(ids)) => ids,
            _ => Vec::new(),
        };
        assert(id_views(links@) =~= links_at(self.store@, branch_id@));
        if holds_id(&links, &asset_id) {
            return Ok(());
        }
        let ghost before = links@;
        links.push(asset_id);
        assert(id_views(links@) =~= id_views(before).push(asset_id@));
        self.store.set(list_key, Value::AssetList(links));
        Ok(())
    }

    /// Returns the link list of branch `branch_id`, in the order in which the
    /// links were made, or `BranchNotFound`.
    pub fn get_branch_assets(&self, branch_id: [u8; 32]) -> (res: Result<Vec<[u8; 32]>, Error>)
        ensures
            match res {
                Ok(ids) => get_branch_assets_outcome(self.store@, branch_id@) == Ok::<
                    Seq<Seq<u8>>,
                    Error,
                >(id_views(ids@)),
                Err(e) => get_branch_assets_outcome(self.store@, branch_id@) == Err::<
                    Seq<Seq<u8>>,
                    Error,
                >(e),
            },
    {
        if !self.store.has(&DataKey::Branch(branch_id)) {
            return Err(Error::BranchNotFound);
        }
        match self.store.get(&DataKey::AssetList(branch_id)) {
            Some(Value::AssetList(ids)) => Ok(ids),
            _ => {
                let ids: Vec<[u8; 32]> = Vec::new();
                assert(id_views(ids@) =~= Seq::<Seq<u8>>::empty());
                Ok(ids)
            },
        }
    }

    /// Returns the branch stored under `branch_id`, or `BranchNotFound`.
    pub fn get_branch(&self, branch_id: [u8; 32]) -> (res: Result<Branch, Error>)
        ensures
            match res {
                Ok(branch) => get_branch_outcome(self.store@, branch_id@) == Ok::<
                    BranchView,
                    Error,
                >(branch@),
                Err(e) => get_branch_outcome(self.store@, branch_id@) == Err::<
                    BranchView,
                    Error,
                >(e),
            },
    {
        match self.store.get(&DataKey::Branch(branch_id)) {
            Some(Value::Branch(branch)) => Ok(branch),
            _ => Err(Error::BranchNotFound),
        }
    }

    /// Replaces the token reference of asset `asset_id` by `token_id` and
    /// leaves its other fields as they were. The call must be authorized by
    /// the registry's admin.
    pub fn tokenize_asset(&mut self, asset_id: [u8; 32], token_id: [u8; 32]) -> (res: Result<
        (),
        Error,
    >)
        ensures
            res == tokenize_asset_outcome(old(self).store@, old(self).auth@, asset_id@),
            final(self).store@ == tokenize_asset_effect(
                old(self).store@,
                old(self).auth@,
                asset_id@,
                token_id@,
            ),
            final(self).auth == old(self).auth,
            final(self).policy == old(self).policy,
            consistent(old(self).store@) ==> consistent(final(self).store@),
    {
        proof {
            if consistent(self.store@) {
                crate::laws::law_tokenize_asset_keeps_consistency(
                    self.store@,
                    self.auth@,
                    asset_id@,
                    token_id@,
                );
            }
        }
        match self.require_admin() {
            Err(e) => {
                return Err(e);
            },
            Ok(_) => {},
        }
        let key = DataKey::Asset(asset_id);
        match self.store.get(&key) {
            Some(Value::Asset(asset)) => {
                self.store.set(key, Value::Asset(asset.with_token(token_id)));
                Ok(())
            },
            _ => Err(Error::AssetNotFound),
        }
    }
}

} // verus!
