//! What holds of the registry's operations, proved from its rules.
use vstd::prelude::*;
use crate::asset::AssetView;
use crate::branch::BranchView;
use crate::error::Error;
use crate::rules::{
    add_asset_to_branch_effect, add_asset_to_branch_outcome, admin_gate, admin_of, asset_at,
    branch_at, consistent, create_branch_effect, create_branch_outcome, get_admin_outcome,
    get_asset_outcome, get_branch_assets_outcome, get_branch_outcome, initialize_effect,
    initialize_outcome, link_gate, links_are_sound, links_at, register_asset_effect,
    register_asset_outcome, tokenize_asset_effect, tokenize_asset_outcome, LinkPolicy,
};
use crate::store::{Contents, KeyView, ValueView};

verus! {

/// The admin is set once. After a first `initialize` has succeeded with
/// `admin`, `get_admin` returns `admin`; every later `initialize`, whoever it
/// names and whoever authorized it, fails and leaves the store as it was, so
/// that `get_admin` still returns `admin`; and one that its own principal
/// authorized fails with `AlreadyInitialized`.
pub proof fn law_admin_is_set_once(
    c: Contents,
    auth: Set<Seq<char>>,
    admin: Seq<char>,
    later_auth: Set<Seq<char>>,
    later_admin: Seq<char>,
)
    requires
        initialize_outcome(c, auth, admin) is Ok,
    ensures
        get_admin_outcome(initialize_effect(c, auth, admin)) == Ok::<Seq<char>, Error>(admin),
        initialize_outcome(initialize_effect(c, auth, admin), later_auth, later_admin) is Err,
        later_auth.contains(later_admin) ==> initialize_outcome(
            initialize_effect(c, auth, admin),
            later_auth,
            later_admin,
        ) == Err::<(), Error>(Error::AlreadyInitialized),
        initialize_effect(initialize_effect(c, auth, admin), later_auth, later_admin)
            == initialize_effect(c, auth, admin),
{
}

/// An asset id is registered once. After `asset` has been registered,
/// registering any asset with the same id fails and leaves the store as it
/// was, so that `get_asset` still returns the first record; where the second
/// call is authorized by its owner and has a name, it fails with
/// `AssetAlreadyExists`.
pub proof fn law_asset_id_is_unique(
    c: Contents,
    auth: Set<Seq<char>>,
    asset: AssetView,
    later_auth: Set<Seq<char>>,
    later: AssetView,
)
    requires
        register_asset_outcome(c, auth, asset) is Ok,
        later.id == asset.id,
    ensures
        get_asset_outcome(register_asset_effect(c, auth, asset), asset.id) == Ok::<
            AssetView,
            Error,
        >(asset),
        register_asset_outcome(register_asset_effect(c, auth, asset), later_auth, later) is Err,
        later_auth.contains(later.owner) && later.name.len() > 0 ==> register_asset_outcome(
            register_asset_effect(c, auth, asset),
            later_auth,
            later,
        ) == Err::<(), Error>(Error::AssetAlreadyExists),
        register_asset_effect(register_asset_effect(c, auth, asset), later_auth, later)
            == register_asset_effect(c, auth, asset),
{
}

/// Looking up an id that the store does not hold fails with the error of its
/// kind: `AssetNotFound` for an asset, `BranchNotFound` for a branch and for a
/// branch's link list.
pub proof fn law_unknown_lookups_fail(c: Contents, id: Seq<u8>)
    ensures
        !c.contains_key(KeyView::Asset(id)) ==> get_asset_outcome(c, id) == Err::<
            AssetView,
            Error,
        >(Error::AssetNotFound),
        !c.contains_key(KeyView::Branch(id)) ==> get_branch_outcome(c, id) == Err::<
            BranchView,
            Error,
        >(Error::BranchNotFound),
        !c.contains_key(KeyView::Branch(id)) ==> get_branch_assets_outcome(c, id) == Err::<
            Seq<Seq<u8>>,
            Error,
        >(Error::BranchNotFound),
{
}

/// A link changes no more than the link list of its branch, so what a link
/// fails with before the registry looks for its two ends is the same before
/// and after it, for every branch and every caller.
pub proof fn lemma_link_keeps_gates(
    c: Contents,
    auth: Set<Seq<char>>,
    policy: LinkPolicy,
    branch_id: Seq<u8>,
    asset_id: Seq<u8>,
    later_auth: Set<Seq<char>>,
    later_policy: LinkPolicy,
    later_branch: Seq<u8>,
)
    ensures
        link_gate(
            add_asset_to_branch_effect(c, auth, policy, branch_id, asset_id),
            later_auth,
            later_policy,
            later_branch,
        ) == link_gate(c, later_auth, later_policy, later_branch),
{
    let c1 = add_asset_to_branch_effect(c, auth, policy, branch_id, asset_id);
    assert(admin_of(c1) == admin_of(c));
    assert(branch_at(c1, later_branch) == branch_at(c, later_branch));
}

/// Linking is idempotent: a second link of the same asset to the same branch
/// succeeds and changes nothing.
pub proof fn law_link_is_idempotent(
    c: Contents,
    auth: Set<Seq<char>>,
    policy: LinkPolicy,
    branch_id: Seq<u8>,
    asset_id: Seq<u8>,
)
    requires
        add_asset_to_branch_outcome(c, auth, policy, branch_id, asset_id) is Ok,
    ensures
        add_asset_to_branch_outcome(
            add_asset_to_branch_effect(c, auth, policy, branch_id, asset_id),
            auth,
            policy,
            branch_id,
            asset_id,
        ) is Ok,
        add_asset_to_branch_effect(
            add_asset_to_branch_effect(c, auth, policy, branch_id, asset_id),
            auth,
            policy,
            branch_id,
            asset_id,
        ) == add_asset_to_branch_effect(c, auth, policy, branch_id, asset_id),
{
    let c1 = add_asset_to_branch_effect(c, auth, policy, branch_id, asset_id);
    lemma_link_keeps_gates(c, auth, policy, branch_id, asset_id, auth, policy, branch_id);
    let before = links_at(c, branch_id);
    if !before.contains(asset_id) {
        assert(links_at(c1, branch_id) == before.push(asset_id));
        assert(before.push(asset_id)[before.len() as int] == asset_id);
    }
}

/// Linking an asset twice to a branch whose link list is empty yields the
/// list that holds the asset once and nothing else.
pub proof fn law_link_twice_holds_once(
    c: Contents,
    auth: Set<Seq<char>>,
    policy: LinkPolicy,
    branch_id: Seq<u8>,
    asset_id: Seq<u8>,
)
    requires
        link_gate(c, auth, policy, branch_id) is None,
        c.contains_key(KeyView::Branch(branch_id)),
        c.contains_key(KeyView::Asset(asset_id)),
        links_at(c, branch_id) == Seq::<Seq<u8>>::empty(),
    ensures
        get_branch_assets_outcome(
            add_asset_to_branch_effect(
                add_asset_to_branch_effect(c, auth, policy, branch_id, asset_id),
                auth,
                policy,
                branch_id,
                asset_id,
            ),
            branch_id,
        ) == Ok::<Seq<Seq<u8>>, Error>(seq![asset_id]),
{
    law_link_is_idempotent(c, auth, policy, branch_id, asset_id);
    let c1 = add_asset_to_branch_effect(c, auth, policy, branch_id, asset_id);
    assert(!links_at(c, branch_id).contains(asset_id));
    assert(links_at(c1, branch_id) =~= seq![asset_id]);
}

/// A link list never holds an id twice: linking keeps a list free of
/// duplicates so, and the linked asset is in the list afterwards.
pub proof fn law_link_keeps_lists_duplicate_free(
    c: Contents,
    auth: Set<Seq<char>>,
    policy: LinkPolicy,
    branch_id: Seq<u8>,
    asset_id: Seq<u8>,
    other: Seq<u8>,
)
    requires
        add_asset_to_branch_outcome(c, auth, policy, branch_id, asset_id) is Ok,
        links_at(c, other).no_duplicates(),
    ensures
        links_at(
            add_asset_to_branch_effect(c, auth, policy, branch_id, asset_id),
            other,
        ).no_duplicates(),
        links_at(
            add_asset_to_branch_effect(c, auth, policy, branch_id, asset_id),
            branch_id,
        ).contains(asset_id),
{
    let c1 = add_asset_to_branch_effect(c, auth, policy, branch_id, asset_id);
    let before = links_at(c, branch_id);
    if !before.contains(asset_id) {
        assert(links_at(c1, branch_id) == before.push(asset_id));
        assert(before.push(asset_id)[before.len() as int] == asset_id);
        if other == branch_id {
            assert forall|i: int, j: int|
                0 <= i < before.len() + 1 && 0 <= j < before.len() + 1 && i != j implies before.push(
                asset_id,
            )[i] != before.push(asset_id)[j] by {
                if i < before.len() {
                    assert(before.contains(before[i]));
                }
                if j < before.len() {
                    assert(before.contains(before[j]));
                }
            }
        } else {
            assert(links_at(c1, other) == links_at(c, other));
        }
    }
}

/// Links need both ends. Where nothing stands against the caller, linking to
/// a branch that does not exist fails with `BranchNotFound`, and linking an
/// asset that is not registered to a branch that exists fails with
/// `AssetNotFound`. A link that fails, whatever it fails with, leaves the
/// store, and so every link list, as it was.
pub proof fn law_link_needs_both_ends(
    c: Contents,
    auth: Set<Seq<char>>,
    policy: LinkPolicy,
    branch_id: Seq<u8>,
    asset_id: Seq<u8>,
)
    ensures
        !c.contains_key(KeyView::Branch(branch_id)) && policy != LinkPolicy::RegistryAdmin
            ==> add_asset_to_branch_outcome(c, auth, policy, branch_id, asset_id) == Err::<
            (),
            Error,
        >(Error::BranchNotFound),
        !c.contains_key(KeyView::Branch(branch_id)) && link_gate(c, auth, policy, branch_id)
            is None ==> add_asset_to_branch_outcome(c, auth, policy, branch_id, asset_id) == Err::<
            (),
            Error,
        >(Error::BranchNotFound),
        c.contains_key(KeyView::Branch(branch_id)) && !c.contains_key(KeyView::Asset(asset_id))
            && link_gate(c, auth, policy, branch_id) is None ==> add_asset_to_branch_outcome(
            c,
            auth,
            policy,
            branch_id,
            asset_id,
        ) == Err::<(), Error>(Error::AssetNotFound),
        !c.contains_key(KeyView::Branch(branch_id)) || !c.contains_key(KeyView::Asset(asset_id))
            ==> add_asset_to_branch_outcome(c, auth, policy, branch_id, asset_id) is Err,
        add_asset_to_branch_outcome(c, auth, policy, branch_id, asset_id) is Err
            ==> add_asset_to_branch_effect(c, auth, policy, branch_id, asset_id) == c,
{
}

/// Tokenizing changes the token reference and nothing else. After `asset`
/// has been registered, a `tokenize_asset` on its id that the stored admin
/// authorized succeeds, and `get_asset` then returns the record as it was
/// registered but for its token reference, which is `token`.
pub proof fn law_tokenize_changes_only_the_token(
    c: Contents,
    auth: Set<Seq<char>>,
    asset: AssetView,
    later_auth: Set<Seq<char>>,
    token: Seq<u8>,
)
    requires
        register_asset_outcome(c, auth, asset) is Ok,
        admin_gate(c, later_auth) is None,
    ensures
        tokenize_asset_outcome(register_asset_effect(c, auth, asset), later_auth, asset.id) is Ok,
        get_asset_outcome(
            tokenize_asset_effect(
                register_asset_effect(c, auth, asset),
                later_auth,
                asset.id,
                token,
            ),
            asset.id,
        ) == Ok::<AssetView, Error>(
            (AssetView {
                id: asset.id,
                name: asset.name,
                asset_type: asset.asset_type,
                category: asset.category,
                branch_id: asset.branch_id,
                department_id: asset.department_id,
                status: asset.status,
                purchase_date: asset.purchase_date,
                purchase_cost: asset.purchase_cost,
                current_value: asset.current_value,
                warranty_expiry: asset.warranty_expiry,
                stellar_token_id: token,
                owner: asset.owner,
            }),
        ),
{
    let c1 = register_asset_effect(c, auth, asset);
    assert(admin_of(c1) == admin_of(c));
    assert(asset_at(c1, asset.id) == Some(asset));
}

/// Tokenizing touches one entry: every other key of the store holds after a
/// `tokenize_asset` what it held before, and no key is added.
pub proof fn law_tokenize_touches_one_entry(
    c: Contents,
    auth: Set<Seq<char>>,
    id: Seq<u8>,
    token: Seq<u8>,
    key: KeyView,
)
    requires
        key != KeyView::Asset(id),
    ensures
        tokenize_asset_effect(c, auth, id, token).dom() == c.dom(),
        c.contains_key(key) ==> tokenize_asset_effect(c, auth, id, token)[key] == c[key],
{
    if tokenize_asset_outcome(c, auth, id) is Ok {
        assert(c.contains_key(KeyView::Asset(id)));
        assert(tokenize_asset_effect(c, auth, id, token).dom() =~= c.dom());
    }
}

/// Tokenizing an asset that is not registered stores nothing: the call fails
/// and the store stays as it was; where the stored admin authorized the
/// call, it fails with `AssetNotFound`.
pub proof fn law_tokenize_unknown_stores_nothing(
    c: Contents,
    auth: Set<Seq<char>>,
    id: Seq<u8>,
    token: Seq<u8>,
)
    requires
        !c.contains_key(KeyView::Asset(id)),
    ensures
        tokenize_asset_outcome(c, auth, id) is Err,
        admin_gate(c, auth) is None ==> tokenize_asset_outcome(c, auth, id) == Err::<
            (),
            Error,
        >(Error::AssetNotFound),
        tokenize_asset_effect(c, auth, id, token) == c,
{
}

/// Links keep their order. A successful link leaves the list as it was where
/// it held the asset, and else appends the asset behind what was there; no
/// other key of the store changes.
pub proof fn law_link_appends(
    c: Contents,
    auth: Set<Seq<char>>,
    policy: LinkPolicy,
    branch_id: Seq<u8>,
    asset_id: Seq<u8>,
    key: KeyView,
)
    requires
        add_asset_to_branch_outcome(c, auth, policy, branch_id, asset_id) is Ok,
        key != KeyView::AssetList(branch_id),
    ensures
        links_at(add_asset_to_branch_effect(c, auth, policy, branch_id, asset_id), branch_id)
            == if links_at(c, branch_id).contains(asset_id) {
            links_at(c, branch_id)
        } else {
            links_at(c, branch_id).push(asset_id)
        },
        add_asset_to_branch_effect(c, auth, policy, branch_id, asset_id).contains_key(key)
            == c.contains_key(key),
        c.contains_key(key) ==> add_asset_to_branch_effect(c, auth, policy, branch_id, asset_id)[key]
            == c[key],
{
}

/// Linking three registered assets, no two of them the same, to a branch
/// whose link list is empty yields the three ids in the order of the calls.
pub proof fn law_links_come_back_in_order(
    c: Contents,
    auth: Set<Seq<char>>,
    policy: LinkPolicy,
    branch_id: Seq<u8>,
    first: Seq<u8>,
    second: Seq<u8>,
    third: Seq<u8>,
)
    requires
        link_gate(c, auth, policy, branch_id) is None,
        c.contains_key(KeyView::Branch(branch_id)),
        c.contains_key(KeyView::Asset(first)),
        c.contains_key(KeyView::Asset(second)),
        c.contains_key(KeyView::Asset(third)),
        links_at(c, branch_id) == Seq::<Seq<u8>>::empty(),
        first != second,
        first != third,
        second != third,
    ensures
        get_branch_assets_outcome(
            add_asset_to_branch_effect(
                add_asset_to_branch_effect(
                    add_asset_to_branch_effect(c, auth, policy, branch_id, first),
                    auth,
                    policy,
                    branch_id,
                    second,
                ),
                auth,
                policy,
                branch_id,
                third,
            ),
            branch_id,
        ) == Ok::<Seq<Seq<u8>>, Error>(seq![first, second, third]),
{
    let c1 = add_asset_to_branch_effect(c, auth, policy, branch_id, first);
    lemma_link_keeps_gates(c, auth, policy, branch_id, first, auth, policy, branch_id);
    assert(links_at(c1, branch_id) =~= seq![first]);
    let c2 = add_asset_to_branch_effect(c1, auth, policy, branch_id, second);
    lemma_link_keeps_gates(c1, auth, policy, branch_id, second, auth, policy, branch_id);
    assert(!seq![first].contains(second));
    assert(links_at(c2, branch_id) =~= seq![first, second]);
    let c3 = add_asset_to_branch_effect(c2, auth, policy, branch_id, third);
    assert(!seq![first, second].contains(third));
    assert(links_at(c3, branch_id) =~= seq![first, second, third]);
}

/// A store that holds nothing is consistent.
pub proof fn law_empty_store_is_consistent()
    ensures
        consistent(Map::<KeyView, ValueView>::empty()),
{
    assert forall|id: Seq<u8>| #[trigger]
        links_are_sound(Map::<KeyView, ValueView>::empty(), id) by {
        assert(links_at(Map::<KeyView, ValueView>::empty(), id).len() == 0);
    }
}

/// `initialize` keeps a consistent store consistent.
pub proof fn law_initialize_keeps_consistency(c: Contents, auth: Set<Seq<char>>, admin: Seq<char>)
    requires
        consistent(c),
    ensures
        consistent(initialize_effect(c, auth, admin)),
{
    let c1 = initialize_effect(c, auth, admin);
    assert forall|id: Seq<u8>| #[trigger] links_are_sound(c1, id) by {
        assert(links_are_sound(c, id));
        assert(links_at(c1, id) == links_at(c, id));
    }
}

/// `register_asset` keeps a consistent store consistent.
pub proof fn law_register_asset_keeps_consistency(
    c: Contents,
    auth: Set<Seq<char>>,
    asset: AssetView,
)
    requires
        consistent(c),
    ensures
        consistent(register_asset_effect(c, auth, asset)),
{
    let c1 = register_asset_effect(c, auth, asset);
    assert forall|id: Seq<u8>| #[trigger] links_are_sound(c1, id) by {
        assert(links_are_sound(c, id));
        assert(links_at(c1, id) == links_at(c, id));
    }
}

/// `tokenize_asset` keeps a consistent store consistent.
pub proof fn law_tokenize_asset_keeps_consistency(
    c: Contents,
    auth: Set<Seq<char>>,
    id: Seq<u8>,
    token: Seq<u8>,
)
    requires
        consistent(c),
    ensures
        consistent(tokenize_asset_effect(c, auth, id, token)),
{
    let c1 = tokenize_asset_effect(c, auth, id, token);
    assert forall|other: Seq<u8>| #[trigger] links_are_sound(c1, other) by {
        assert(links_are_sound(c, other));
        assert(links_at(c1, other) == links_at(c, other));
    }
}

/// `create_branch` keeps a consistent store consistent, and the branch that
/// it creates has a link list from the start, an empty one.
pub proof fn law_create_branch_keeps_consistency(
    c: Contents,
    auth: Set<Seq<char>>,
    branch: BranchView,
)
    requires
        consistent(c),
    ensures
        consistent(create_branch_effect(c, auth, branch)),
        create_branch_outcome(c, auth, branch) is Ok ==> get_branch_outcome(
            create_branch_effect(c, auth, branch),
            branch.id,
        ) == Ok::<BranchView, Error>(branch) && get_branch_assets_outcome(
            create_branch_effect(c, auth, branch),
            branch.id,
        ) == Ok::<Seq<Seq<u8>>, Error>(Seq::empty()),
{
    let c1 = create_branch_effect(c, auth, branch);
    assert forall|id: Seq<u8>| #[trigger] links_are_sound(c1, id) by {
        assert(links_are_sound(c, id));
        if create_branch_outcome(c, auth, branch) is Ok && id == branch.id {
            assert(links_at(c1, id).len() == 0);
        } else {
            assert(links_at(c1, id) == links_at(c, id));
        }
    }
}

/// `add_asset_to_branch` keeps a consistent store consistent.
pub proof fn law_add_asset_to_branch_keeps_consistency(
    c: Contents,
    auth: Set<Seq<char>>,
    policy: LinkPolicy,
    branch_id: Seq<u8>,
    asset_id: Seq<u8>,
)
    requires
        consistent(c),
    ensures
        consistent(add_asset_to_branch_effect(c, auth, policy, branch_id, asset_id)),
{
    let c1 = add_asset_to_branch_effect(c, auth, policy, branch_id, asset_id);
    if c1 != c {
        let before = links_at(c, branch_id);
        assert(links_at(c1, branch_id) == before.push(asset_id));
        assert forall|id: Seq<u8>| #[trigger] links_are_sound(c1, id) by {
            assert(links_are_sound(c, id));
            if id == branch_id {
                law_link_keeps_lists_duplicate_free(c, auth, policy, branch_id, asset_id, id);
                assert forall|i: int| 0 <= i < links_at(c1, id).len() implies c1.contains_key(
                    KeyView::Asset(#[trigger] links_at(c1, id)[i]),
                ) by {
                    if i < before.len() {
                        assert(before.push(asset_id)[i] == before[i]);
                        assert(c.contains_key(KeyView::Asset(before[i])));
                    }
                }
            } else {
                assert(links_at(c1, id) == links_at(c, id));
            }
        }
    }
}

} // verus!
