//! Identities that can authorize a call, and 32-byte record identifiers.
use vstd::prelude::*;

verus! {

/// An authenticated identity, held as the text that names it.
#[derive(Debug, PartialEq, Eq)]
pub struct Principal {
    pub key: String,
}

impl View for Principal {
    type V = Seq<char>;

    open spec fn view(&self) -> Seq<char> {
        self.key@
    }
}

impl Clone for Principal {
    fn clone(&self) -> (res: Self)
        ensures
            res == *self,
    {
        Principal { key: self.key.clone() }
    }
}

impl Principal {
    /// Makes the principal that `key` names.
    pub fn new(key: String) -> (p: Principal)
        ensures
            p@ == key@,
    {
        Principal { key }
    }

    /// Tells whether two principals are the same identity.
    pub fn same_as(&self, other: &Principal) -> (same: bool)
        ensures
            same == (self@ == other@),
    {
        self.key == other.key
    }
}

/// Tells whether two 32-byte identifiers hold the same bytes.
pub fn same_id(a: &[u8; 32], b: &[u8; 32]) -> (same: bool)
    ensures
        same == (a@ == b@),
{
    let mut i: usize = 0;
    while i < 32
        invariant
            i <= 32,
            forall|j: int| 0 <= j < i ==> a@[j] == b@[j],
        decreases 32 - i,
    {
        if a[i] != b[i] {
            return false;
        }
        i += 1;
    }
    assert(a@ =~= b@);
    true
}

/// The byte sequences that a sequence of identifiers stands for.
pub open spec fn id_views(ids: Seq<[u8; 32]>) -> Seq<Seq<u8>> {
    Seq::new(ids.len(), |i: int| ids[i]@)
}

/// Tells whether one of `ids` has the bytes of `id`.
pub fn holds_id(ids: &Vec<[u8; 32]>, id: &[u8; 32]) -> (found: bool)
    ensures
        found == id_views(ids@).contains(id@),
{
    let ghost views = id_views(ids@);
    let mut i: usize = 0;
    while i < ids.len()
        invariant
            i <= ids@.len(),
            views == id_views(ids@),
            forall|j: int| 0 <= j < i ==> views[j] != id@,
        decreases ids@.len() - i,
    {
        if same_id(&ids[i], id) {
            assert(views[i as int] == id@);
            return true;
        }
        i += 1;
    }
    false
}

/// Copies a list of identifiers.
pub fn copy_ids(ids: &Vec<[u8; 32]>) -> (res: Vec<[u8; 32]>)
    ensures
        res@ == ids@,
{
    let mut out: Vec<[u8; 32]> = Vec::new();
    let mut i: usize = 0;
    while i < ids.len()
        invariant
            i <= ids.len(),
            out@ == ids@.subrange(0, i as int),
        decreases ids.len() - i,
    {
        out.push(ids[i]);
        assert(ids@.subrange(0, i as int).push(ids@[i as int]) =~= ids@.subrange(0, i + 1));
        i += 1;
    }
    assert(ids@.subrange(0, ids@.len() as int) =~= ids@);
    out
}

} // verus!
