//! The key-value store that the registry keeps its records in.
use vstd::prelude::*;
use crate::asset::{Asset, AssetView};
use crate::branch::{Branch, BranchView};
use crate::principal::{copy_ids, same_id, Principal};

verus! {

/// The keys of the store. The four namespaces never collide.
#[derive(Clone, Copy, Debug, PartialEq, Eq)]
pub enum DataKey {
    /// The singleton admin.
    Admin,
    /// The asset record with this id.
    Asset([u8; 32]),
    /// The branch record with this id.
    Branch([u8; 32]),
    /// The link list of the branch with this id.
    AssetList([u8; 32]),
}

/// A key as a mathematical value.
pub enum KeyView {
    Admin,
    Asset(Seq<u8>),
    Branch(Seq<u8>),
    AssetList(Seq<u8>),
}

impl View for DataKey {
    type V = KeyView;

    open spec fn view(&self) -> KeyView {
        match self {
            DataKey::Admin => KeyView::Admin,
            DataKey::Asset(id) => KeyView::Asset(id@),
            DataKey::Branch(id) => KeyView::Branch(id@),
            DataKey::AssetList(id) => KeyView::AssetList(id@),
        }
    }
}

impl DataKey {
    /// Tells whether two keys name the same entry.
    pub fn same_as(&self, other: &DataKey) -> (same: bool)
        ensures
            same == (self@ == other@),
    {
        match (self, other) {
            (DataKey::Admin, DataKey::Admin) => true,
            (DataKey::Asset(a), DataKey::Asset(b)) => same_id(a, b),
            (DataKey::Branch(a), DataKey::Branch(b)) => same_id(a, b),
            (DataKey::AssetList(a), DataKey::AssetList(b)) => same_id(a, b),
            _ => false,
        }
    }
}

/// What the store holds under a key.
#[derive(Debug, PartialEq, Eq)]
pub enum Value {
    Admin(Principal),
    Asset(Asset),
    Branch(Branch),
    AssetList(Vec<[u8; 32]>),
}

/// A stored value as a mathematical value.
pub enum ValueView {
    Admin(Seq<char>),
    Asset(AssetView),
    Branch(BranchView),
    AssetList(Seq<Seq<u8>>),
}

impl ValueView {
    /// A value fits a key when it is of the kind that the key's namespace holds.
    pub open spec fn fits(self, key: KeyView) -> bool {
        match key {
            KeyView::Admin => self is Admin,
            KeyView::Asset(_) => self is Asset,
            KeyView::Branch(_) => self is Branch,
            KeyView::AssetList(_) => self is AssetList,
        }
    }
}

impl View for Value {
    type V = ValueView;

    open spec fn view(&self) -> ValueView {
        match self {
            Value::Admin(p) => ValueView::Admin(p@),
            Value::Asset(a) => ValueView::Asset(a@),
            Value::Branch(b) => ValueView::Branch(b@),
            Value::AssetList(ids) => ValueView::AssetList(crate::principal::id_views(ids@)),
        }
    }
}

impl Clone for Value {
    fn clone(&self) -> (res: Self)
        ensures
            res@ == self@,
    {
        match self {
            Value::Admin(p) => Value::Admin(p.clone()),
            Value::Asset(a) => Value::Asset(a.clone()),
            Value::Branch(b) => Value::Branch(b.clone()),
            Value::AssetList(ids) => Value::AssetList(copy_ids(ids)),
        }
    }
}

/// The contents of a store: which keys are present, and what each holds.
pub type Contents = Map<KeyView, ValueView>;

/// Every entry holds a value of the kind that its key's namespace holds.
pub open spec fn well_typed(contents: Contents) -> bool {
    forall|k: KeyView| #[trigger] contents.contains_key(k) ==> contents[k].fits(k)
}

/// A durable key-value store with `has`, `get` and `set`. The registry's
/// logic is written against this interface, so that one logic serves a store
/// in memory and a durable one.
pub trait Store {
    /// What the store holds.
    spec fn view(&self) -> Contents;

    /// Tells whether `key` is present.
    fn has(&self, key: &DataKey) -> (present: bool)
        ensures
            present == self@.contains_key(key@),
    ;

    /// Reads the value under `key`, if there is one.
    fn get(&self, key: &DataKey) -> (found: Option<Value>)
        ensures
            found is Some <==> self@.contains_key(key@),
            found is Some ==> found->Some_0@ == self@[key@],
    ;

    /// Writes `value` under `key`, replacing what was there. No other key
    /// changes.
    fn set(&mut self, key: DataKey, value: Value)
        ensures
            final(self)@ == old(self)@.insert(key@, value@),
    ;
}

} // verus!
