//! The registry's rules, as mathematical functions on the contents of the
//! store. Each operation has an outcome (what it returns) and an effect (what
//! the store holds afterwards); a failed operation leaves the store as it was.
use vstd::prelude::*;
use crate::asset::AssetView;
use crate::branch::BranchView;
use crate::error::Error;
use crate::store::{Contents, KeyView, ValueView};

verus! {

/// Who may link an asset to a branch.
#[derive(Clone, Copy, Debug, PartialEq, Eq, Structural)]
pub enum LinkPolicy {
    /// Anyone: linking asks for no authorization.
    Open,
    /// The registry's admin.
    RegistryAdmin,
    /// The admin recorded on the branch.
    BranchAdmin,
}

/// The stored admin, if there is one.
pub open spec fn admin_of(c: Contents) -> Option<Seq<char>> {
    if c.contains_key(KeyView::Admin) && c[KeyView::Admin] is Admin {
        Some(c[KeyView::Admin]->Admin_0)
    } else {
        None
    }
}

/// The asset record stored under `id`, if there is one.
pub open spec fn asset_at(c: Contents, id: Seq<u8>) -> Option<AssetView> {
    if c.contains_key(KeyView::Asset(id)) && c[KeyView::Asset(id)] is Asset {
        Some(c[KeyView::Asset(id)]->Asset_0)
    } else {
        None
    }
}

/// The branch record stored under `id`, if there is one.
pub open spec fn branch_at(c: Contents, id: Seq<u8>) -> Option<BranchView> {
    if c.contains_key(KeyView::Branch(id)) && c[KeyView::Branch(id)] is Branch {
        Some(c[KeyView::Branch(id)]->Branch_0)
    } else {
        None
    }
}

/// The link list of branch `id`: the stored one, or the empty list where none
/// is stored.
pub open spec fn links_at(c: Contents, id: Seq<u8>) -> Seq<Seq<u8>> {
    if c.contains_key(KeyView::AssetList(id)) && c[KeyView::AssetList(id)] is AssetList {
        c[KeyView::AssetList(id)]->AssetList_0
    } else {
        Seq::empty()
    }
}

/// Every link of the list of branch `id` is a registered asset, and none
/// occurs twice.
pub open spec fn links_are_sound(c: Contents, id: Seq<u8>) -> bool {
    &&& links_at(c, id).no_duplicates()
    &&& forall|i: int|
        0 <= i < links_at(c, id).len() ==> c.contains_key(
            KeyView::Asset(#[trigger] links_at(c, id)[i]),
        )
}

/// What holds of a store that only the registry has written to: every entry
/// is of the kind of its key; a record is stored under its own id and has a
/// name; every branch has a link list; and every link list is sound.
pub open spec fn consistent(c: Contents) -> bool {
    &&& crate::store::well_typed(c)
    &&& forall|id: Seq<u8>| #[trigger]
        c.contains_key(KeyView::Asset(id)) ==> c[KeyView::Asset(id)]->Asset_0.id == id
            && c[KeyView::Asset(id)]->Asset_0.name.len() > 0
    &&& forall|id: Seq<u8>| #[trigger]
        c.contains_key(KeyView::Branch(id)) ==> c[KeyView::Branch(id)]->Branch_0.id == id
            && c[KeyView::Branch(id)]->Branch_0.name.len() > 0 && c.contains_key(
            KeyView::AssetList(id),
        )
    &&& forall|id: Seq<u8>| #[trigger] links_are_sound(c, id)
}

/// What an admin-authorized operation fails with before it looks at its
/// arguments: `AdminNotFound` where no admin is stored, `Unauthorized` where
/// the stored admin did not authorize the call.
pub open spec fn admin_gate(c: Contents, auth: Set<Seq<char>>) -> Option<Error> {
    match admin_of(c) {
        None => Some(Error::AdminNotFound),
        Some(admin) => if auth.contains(admin) {
            None
        } else {
            Some(Error::Unauthorized)
        },
    }
}

/// What `initialize` returns: `Unauthorized` where `admin` did not authorize
/// the call, else `AlreadyInitialized` where an admin entry is present.
pub open spec fn initialize_outcome(c: Contents, auth: Set<Seq<char>>, admin: Seq<char>) -> Result<
    (),
    Error,
> {
    if !auth.contains(admin) {
        Err(Error::Unauthorized)
    } else if c.contains_key(KeyView::Admin) {
        Err(Error::AlreadyInitialized)
    } else {
        Ok(())
    }
}

/// What the store holds after `initialize`: `admin` under the admin key
/// where the call succeeds.
pub open spec fn initialize_effect(c: Contents, auth: Set<Seq<char>>, admin: Seq<char>) -> Contents {
    if initialize_outcome(c, auth, admin) is Ok {
        c.insert(KeyView::Admin, ValueView::Admin(admin))
    } else {
        c
    }
}

/// What `get_admin` returns: the stored admin, or `AdminNotFound`.
pub open spec fn get_admin_outcome(c: Contents) -> Result<Seq<char>, Error> {
    match admin_of(c) {
        Some(admin) => Ok(admin),
        None => Err(Error::AdminNotFound),
    }
}

/// What `register_asset` returns: `Unauthorized` where the asset's owner did
/// not authorize the call, else `EmptyName` where the name is empty, else
/// `AssetAlreadyExists` where the id is taken.
pub open spec fn register_asset_outcome(c: Contents, auth: Set<Seq<char>>, asset: AssetView) -> Result<
    (),
    Error,
> {
    if !auth.contains(asset.owner) {
        Err(Error::Unauthorized)
    } else if asset.name.len() == 0 {
        Err(Error::EmptyName)
    } else if c.contains_key(KeyView::Asset(asset.id)) {
        Err(Error::AssetAlreadyExists)
    } else {
        Ok(())
    }
}

/// What the store holds after `register_asset`: the record under its id
/// where the call succeeds.
pub open spec fn register_asset_effect(c: Contents, auth: Set<Seq<char>>, asset: AssetView) -> Contents {
    if register_asset_outcome(c, auth, asset) is Ok {
        c.insert(KeyView::Asset(asset.id), ValueView::Asset(asset))
    } else {
        c
    }
}

/// What `get_asset` returns: the record under `id`, or `AssetNotFound`.
pub open spec fn get_asset_outcome(c: Contents, id: Seq<u8>) -> Result<AssetView, Error> {
    match asset_at(c, id) {
        Some(asset) => Ok(asset),
        None => Err(Error::AssetNotFound),
    }
}

/// What `tokenize_asset` returns: what stands against the caller, else
/// `AssetNotFound` where no asset is stored under `id`.
pub open spec fn tokenize_asset_outcome(c: Contents, auth: Set<Seq<char>>, id: Seq<u8>) -> Result<
    (),
    Error,
> {
    match admin_gate(c, auth) {
        Some(e) => Err(e),
        None => if asset_at(c, id) is None {
            Err(Error::AssetNotFound)
        } else {
            Ok(())
        },
    }
}

/// What the store holds after `tokenize_asset`: where the call succeeds, the
/// record under `id` with `token` as its token reference.
pub open spec fn tokenize_asset_effect(
    c: Contents,
    auth: Set<Seq<char>>,
    id: Seq<u8>,
    token: Seq<u8>,
) -> Contents {
    if tokenize_asset_outcome(c, auth, id) is Ok {
        c.insert(KeyView::Asset(id), ValueView::Asset(asset_at(c, id)->Some_0.with_token(token)))
    } else {
        c
    }
}

/// What `create_branch` returns: what stands against the caller, else
/// `EmptyName` where the name is empty, else `BranchAlreadyExists` where the
/// id is taken.
pub open spec fn create_branch_outcome(c: Contents, auth: Set<Seq<char>>, branch: BranchView) -> Result<
    (),
    Error,
> {
    match admin_gate(c, auth) {
        Some(e) => Err(e),
        None => if branch.name.len() == 0 {
            Err(Error::EmptyName)
        } else if c.contains_key(KeyView::Branch(branch.id)) {
            Err(Error::BranchAlreadyExists)
        } else {
            Ok(())
        },
    }
}

/// What the store holds after `create_branch`: where the call succeeds, the
/// branch under its id and an empty link list for it.
pub open spec fn create_branch_effect(c: Contents, auth: Set<Seq<char>>, branch: BranchView) -> Contents {
    if create_branch_outcome(c, auth, branch) is Ok {
        c.insert(KeyView::Branch(branch.id), ValueView::Branch(branch)).insert(
            KeyView::AssetList(branch.id),
            ValueView::AssetList(Seq::empty()),
        )
    } else {
        c
    }
}

/// What a link fails with before the registry looks for its two ends, under
/// each policy: nothing where linking is open; as an admin-authorized
/// operation does where the registry's admin must authorize it; and where the
/// branch's admin must, `BranchNotFound` where there is no such branch and
/// `Unauthorized` where its admin did not authorize the call.
pub open spec fn link_gate(
    c: Contents,
    auth: Set<Seq<char>>,
    policy: LinkPolicy,
    branch_id: Seq<u8>,
) -> Option<Error> {
    match policy {
        LinkPolicy::Open => None,
        LinkPolicy::RegistryAdmin => admin_gate(c, auth),
        LinkPolicy::BranchAdmin => match branch_at(c, branch_id) {
            None => Some(Error::BranchNotFound),
            Some(branch) => if auth.contains(branch.admin) {
                None
            } else {
                Some(Error::Unauthorized)
            },
        },
    }
}

/// What `add_asset_to_branch` returns: what stands against the caller, else
/// `BranchNotFound` where the branch is absent, else `AssetNotFound` where
/// the asset is.
pub open spec fn add_asset_to_branch_outcome(
    c: Contents,
    auth: Set<Seq<char>>,
    policy: LinkPolicy,
    branch_id: Seq<u8>,
    asset_id: Seq<u8>,
) -> Result<(), Error> {
    match link_gate(c, auth, policy, branch_id) {
        Some(e) => Err(e),
        None => if !c.contains_key(KeyView::Branch(branch_id)) {
            Err(Error::BranchNotFound)
        } else if !c.contains_key(KeyView::Asset(asset_id)) {
            Err(Error::AssetNotFound)
        } else {
            Ok(())
        },
    }
}

/// What the store holds after `add_asset_to_branch`: where the call succeeds
/// and the list does not hold the asset yet, the list with the asset
/// appended.
pub open spec fn add_asset_to_branch_effect(
    c: Contents,
    auth: Set<Seq<char>>,
    policy: LinkPolicy,
    branch_id: Seq<u8>,
    asset_id: Seq<u8>,
) -> Contents {
    if add_asset_to_branch_outcome(c, auth, policy, branch_id, asset_id) is Ok && !links_at(
        c,
        branch_id,
    ).contains(asset_id) {
        c.insert(
            KeyView::AssetList(branch_id),
            ValueView::AssetList(links_at(c, branch_id).push(asset_id)),
        )
    } else {
        c
    }
}

/// What `get_branch_assets` returns: the branch's link list, or
/// `BranchNotFound`.
pub open spec fn get_branch_assets_outcome(c: Contents, branch_id: Seq<u8>) -> Result<
    Seq<Seq<u8>>,
    Error,
> {
    if !c.contains_key(KeyView::Branch(branch_id)) {
        Err(Error::BranchNotFound)
    } else {
        Ok(links_at(c, branch_id))
    }
}

/// What `get_branch` returns: the record under `branch_id`, or
/// `BranchNotFound`.
pub open spec fn get_branch_outcome(c: Contents, branch_id: Seq<u8>) -> Result<BranchView, Error> {
    match branch_at(c, branch_id) {
        Some(branch) => Ok(branch),
        None => Err(Error::BranchNotFound),
    }
}

} // verus!
