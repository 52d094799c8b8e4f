//! Branch records.
use vstd::prelude::*;
use crate::principal::Principal;

verus! {

/// A branch of the organisation. It does not change after its creation.
#[derive(Debug, PartialEq, Eq)]
pub struct Branch {
    pub id: [u8; 32],
    pub name: String,
    pub location: String,
    pub admin: Principal,
}

/// What a branch record holds, as mathematical values.
pub struct BranchView {
    pub id: Seq<u8>,
    pub name: Seq<char>,
    pub location: Seq<char>,
    pub admin: Seq<char>,
}

impl View for Branch {
    type V = BranchView;

    open spec fn view(&self) -> BranchView {
        BranchView {
            id: self.id@,
            name: self.name@,
            location: self.location@,
            admin: self.admin@,
        }
    }
}

impl Clone for Branch {
    fn clone(&self) -> (res: Self)
        ensures
            res == *self,
    {
        Branch {
            id: self.id,
            name: self.name.clone(),
            location: self.location.clone(),
            admin: self.admin.clone(),
        }
    }
}

} // verus!
