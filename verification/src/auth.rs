//! Who authorized the call that is being served.
use vstd::prelude::*;
use crate::principal::Principal;

verus! {

/// The principals that authorized a call.
pub type Signed = Set<Seq<char>>;

/// The capability to ask whether the current call was authorized by a given
/// principal. The registry never checks signatures itself.
pub trait Authorizer {
    /// The principals that authorized the current call.
    spec fn view(&self) -> Signed;

    /// Tells whether `principal` authorized the current call.
    fn is_authorized(&self, principal: &Principal) -> (ok: bool)
        ensures
            ok == self@.contains(principal@),
    ;
}

/// An authorizer under which every principal has authorized the call.
pub struct AllowAll {}

impl Authorizer for AllowAll {
    open spec fn view(&self) -> Signed {
        Set::full()
    }

    fn is_authorized(&self, principal: &Principal) -> (ok: bool) {
        true
    }
}

/// An authorizer that holds the list of principals who signed the call.
pub struct Signers {
    principals: Vec<Principal>,
}

impl Signers {
    /// The call that nobody signed.
    pub fn none() -> (signers: Signers)
        ensures
            signers@ == Set::<Seq<char>>::empty(),
    {
        let signers = Signers { principals: Vec::new() };
        assert(signers@ =~= Set::<Seq<char>>::empty());
        signers
    }

    /// The call that `principal` alone signed.
    pub fn only(principal: Principal) -> (signers: Signers)
        ensures
            signers@ == Set::<Seq<char>>::empty().insert(principal@),
    {
        let mut signers = Signers::none();
        signers.add(principal);
        signers
    }

    /// Adds `principal` to those who signed.
    pub fn add(&mut self, principal: Principal)
        ensures
            final(self)@ == old(self)@.insert(principal@),
    {
        self.principals.push(principal);
        proof {
            let before = old(self).principals@;
            let after = self.principals@;
            assert forall|p: Seq<char>|
                self@.contains(p) <==> old(self)@.insert(principal@).contains(p) by {
                if self@.contains(p) {
                    let i = choose|i: int| 0 <= i < after.len() && after[i]@ == p;
                    if i < before.len() {
                        assert(before[i]@ == p);
                    }
                }
                if old(self)@.contains(p) {
                    let i = choose|i: int| 0 <= i < before.len() && before[i]@ == p;
                    assert(after[i]@ == p);
                }
                if p == principal@ {
                    assert(after[before.len() as int]@ == p);
                }
            }
            assert(self@ =~= old(self)@.insert(principal@));
        }
    }
}

impl Authorizer for Signers {
    closed spec fn view(&self) -> Signed {
        Set::new(|p: Seq<char>| exists|i: int| 0 <= i < self.principals@.len() && self.principals@[i]@ == p)
    }

    fn is_authorized(&self, principal: &Principal) -> (ok: bool) {
        let mut i: usize = 0;
        while i < self.principals.len()
            invariant
                i <= self.principals@.len(),
                forall|j: int| 0 <= j < i ==> self.principals@[j]@ != principal@,
            decreases self.principals@.len() - i,
        {
            if self.principals[i].same_as(principal) {
                return true;
            }
            i += 1;
        }
        false
    }
}

} // verus!
