use vstd::prelude::*;

use crate::identity::AccountId;
use crate::types::Error;

verus! {

/// The owner of a ledger and the identities it has authorized to register
/// products.
pub struct AccessControl {
    owner: AccountId,
    /// Each authorized identity, once.
    manufacturers: Vec<AccountId>,
}

impl AccessControl {
    /// The owner, fixed at construction.
    pub closed spec fn owner_id(&self) -> AccountId {
        self.owner
    }

    /// Whether `a` may register products.
    pub closed spec fn authorized(&self, a: AccountId) -> bool {
        self.manufacturers@.contains(a)
    }

    /// No identity is listed twice.
    pub closed spec fn wf(&self) -> bool {
        self.manufacturers@.no_duplicates()
    }

    /// A registry owned by `owner`, in which the owner alone is authorized.
    pub fn new(owner: AccountId) -> (r: AccessControl)
        ensures
            r.wf(),
            r.owner_id() == owner,
            forall|a: AccountId| r.authorized(a) <==> a == owner,
    {
        let manufacturers = vec![owner];
        assert(manufacturers@ =~= seq![owner]);
        AccessControl { owner, manufacturers }
    }

    /// The owner of the registry.
    pub fn owner(&self) -> (r: AccountId)
        ensures
            r == self.owner_id(),
    {
        self.owner
    }

    fn position(&self, a: AccountId) -> (r: Option<usize>)
        ensures
            match r {
                Some(i) => i < self.manufacturers@.len() && self.manufacturers@[i as int] == a,
                None => !self.manufacturers@.contains(a),
            },
    {
        let mut i: usize = 0;
        while i < self.manufacturers.len()
            invariant
                i <= self.manufacturers@.len(),
                forall|j: int| 0 <= j < i ==> self.manufacturers@[j] != a,
            decreases self.manufacturers@.len() - i,
        {
            if self.manufacturers[i] == a {
                return Some(i);
            }
            i = i + 1;
        }
        None
    }

    /// Whether `a` may register products.
    pub fn is_authorized(&self, a: AccountId) -> (r: bool)
        ensures
            r == self.authorized(a),
    {
        self.position(a).is_some()
    }

    /// Grants (`authorized == true`) or revokes the right of `target` to
    /// register products. Only the owner may do so; setting the flag it
    /// already has succeeds too.
    pub fn set_authorization(&mut self, caller: AccountId, target: AccountId, authorized: bool) -> (r: Result<(), Error>)
        requires
            old(self).wf(),
        ensures
            final(self).wf(),
            final(self).owner_id() == old(self).owner_id(),
            r is Err <==> caller != old(self).owner_id(),
            r is Err ==> r == Err::<(), Error>(Error::OnlyOwner) && *final(self) == *old(self),
            r is Ok ==> final(self).authorized(target) == authorized,
            forall|a: AccountId| a != target ==> final(self).authorized(a) == old(self).authorized(a),
    {
        if caller != self.owner {
            return Err(Error::OnlyOwner);
        }
        match self.position(target) {
            Some(i) => {
                if !authorized {
                    let ghost before = self.manufacturers@;
                    self.manufacturers.remove(i);
                    assert(self.manufacturers@ =~= before.remove(i as int));
                    proof {
                        assert forall|x: int, y: int|
                            0 <= x < self.manufacturers@.len() && 0 <= y < self.manufacturers@.len() && x != y
                            implies self.manufacturers@[x] != self.manufacturers@[y] by {
                            let bx = if x < i { x } else { x + 1 };
                            let by_ = if y < i { y } else { y + 1 };
                            assert(self.manufacturers@[x] == before[bx]);
                            assert(self.manufacturers@[y] == before[by_]);
                        }
                        assert forall|a: AccountId| a != target implies
                            self.manufacturers@.contains(a) == before.contains(a) by {
                            if before.contains(a) {
                                let k = choose|k: int| 0 <= k < before.len() && before[k] == a;
                                if k < i {
                                    assert(self.manufacturers@[k] == a);
                                } else {
                                    assert(k != i);
                                    assert(self.manufacturers@[k - 1] == a);
                                }
                            }
                        }
                        assert(!self.manufacturers@.contains(target)) by {
                            if self.manufacturers@.contains(target) {
                                let k = choose|k: int| 0 <= k < self.manufacturers@.len() && self.manufacturers@[k] == target;
                                if k < i {
                                    assert(before[k] == target);
                                } else {
                                    assert(before[k + 1] == target);
                                }
                            }
                        }
                    }
                }
            },
            None => {
                if authorized {
                    let ghost before = self.manufacturers@;
                    self.manufacturers.push(target);
                    proof {
                        assert(self.manufacturers@ == before.push(target));
                        assert(self.manufacturers@[before.len() as int] == target);
                        assert forall|a: AccountId| a != target implies
                            self.manufacturers@.contains(a) == before.contains(a) by {
                            if self.manufacturers@.contains(a) {
                                let k = choose|k: int| 0 <= k < self.manufacturers@.len() && self.manufacturers@[k] == a;
                                assert(before[k] == a);
                            }
                            if before.contains(a) {
                                let k = choose|k: int| 0 <= k < before.len() && before[k] == a;
                                assert(self.manufacturers@[k] == a);
                            }
                        }
                    }
                }
            },
        }
        Ok(())
    }
}

} // verus!
