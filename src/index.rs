use vstd::prelude::*;

use crate::identity::AccountId;
use crate::types::Product;

verus! {

/// The ids of the products in `ps` whose manufacturer is `m`, in order.
pub open spec fn ids_made_by(ps: Seq<Product>, m: AccountId) -> Seq<u32>
    decreases ps.len(),
{
    if ps.len() == 0 {
        seq![]
    } else {
        let rest = ids_made_by(ps.drop_last(), m);
        if ps.last().manufacturer == m {
            rest.push(ps.last().id)
        } else {
            rest
        }
    }
}

/// Registering one more product adds its id to its manufacturer's list only.
pub proof fn lemma_ids_made_by_push(ps: Seq<Product>, p: Product, m: AccountId)
    ensures
        ids_made_by(ps.push(p), m) == if p.manufacturer == m {
            ids_made_by(ps, m).push(p.id)
        } else {
            ids_made_by(ps, m)
        },
{
    assert(ps.push(p).drop_last() =~= ps);
}

/// The lists depend only on each product's manufacturer and id.
pub proof fn lemma_ids_made_by_same_makers(ps1: Seq<Product>, ps2: Seq<Product>, m: AccountId)
    requires
        ps1.len() == ps2.len(),
        forall|i: int| 0 <= i < ps1.len() ==> (#[trigger] ps1[i]).manufacturer == ps2[i].manufacturer && ps1[i].id == ps2[i].id,
    ensures
        ids_made_by(ps1, m) == ids_made_by(ps2, m),
    decreases ps1.len(),
{
    if ps1.len() > 0 {
        let (a, b) = (ps1.drop_last(), ps2.drop_last());
        assert forall|i: int| 0 <= i < a.len() implies (#[trigger] a[i]).manufacturer == b[i].manufacturer && a[i].id == b[i].id by {
            assert(a[i] == ps1[i] && b[i] == ps2[i]);
        }
        lemma_ids_made_by_same_makers(a, b, m);
    }
}

/// For each manufacturer that has registered anything, the ids of its
/// products in registration order.
pub struct ManufacturerIndex {
    /// One entry per manufacturer.
    entries: Vec<(AccountId, Vec<u32>)>,
}

impl ManufacturerIndex {
    /// The index lists, for every manufacturer, exactly its products in `ps`.
    pub closed spec fn matches(&self, ps: Seq<Product>) -> bool {
        &&& forall|k: int| 0 <= k < self.entries@.len() ==> (#[trigger] self.entries@[k]).1@ == ids_made_by(ps, self.entries@[k].0)
        &&& forall|k: int, l: int|
            0 <= k < self.entries@.len() && 0 <= l < self.entries@.len() && k != l ==> (#[trigger] self.entries@[k]).0 != (#[trigger] self.entries@[l]).0
        &&& forall|m: AccountId| #[trigger] ids_made_by(ps, m).len() > 0 ==> exists|k: int| 0 <= k < self.entries@.len() && self.entries@[k].0 == m
    }

    /// Changes to products that keep every manufacturer and id keep the
    /// index valid.
    pub proof fn lemma_matches_same_makers(&self, ps1: Seq<Product>, ps2: Seq<Product>)
        requires
            self.matches(ps1),
            ps1.len() == ps2.len(),
            forall|i: int| 0 <= i < ps1.len() ==> (#[trigger] ps1[i]).manufacturer == ps2[i].manufacturer && ps1[i].id == ps2[i].id,
        ensures
            self.matches(ps2),
    {
        assert forall|m: AccountId| #[trigger] ids_made_by(ps2, m) == ids_made_by(ps1, m) by {
            lemma_ids_made_by_same_makers(ps2, ps1, m);
        }
    }

    pub fn new() -> (r: ManufacturerIndex)
        ensures
            r.matches(Seq::<Product>::empty()),
    {
        ManufacturerIndex { entries: Vec::new() }
    }

    fn position(&self, m: AccountId) -> (r: Option<usize>)
        ensures
            match r {
                Some(k) => k < self.entries@.len() && self.entries@[k as int].0 == m,
                None => forall|k: int| 0 <= k < self.entries@.len() ==> self.entries@[k].0 != m,
            },
    {
        let mut k: usize = 0;
        while k < self.entries.len()
            invariant
                k <= self.entries@.len(),
                forall|j: int| 0 <= j < k ==> self.entries@[j].0 != m,
            decreases self.entries@.len() - k,
        {
            if self.entries[k].0 == m {
                return Some(k);
            }
            k = k + 1;
        }
        None
    }

    /// Notes that product `p` was registered after the products `ps`.
    pub fn record(&mut self, Ghost(ps): Ghost<Seq<Product>>, Ghost(p): Ghost<Product>, manufacturer: AccountId, id: u32)
        requires
            old(self).matches(ps),
            manufacturer == p.manufacturer,
            id == p.id,
        ensures
            final(self).matches(ps.push(p)),
    {
        let ghost old_entries = self.entries@;
        let ghost qs = ps.push(p);
        proof {
            assert forall|m: AccountId| #[trigger] ids_made_by(qs, m) == if p.manufacturer == m {
                ids_made_by(ps, m).push(p.id)
            } else {
                ids_made_by(ps, m)
            } by {
                lemma_ids_made_by_push(ps, p, m);
            }
        }
        match self.position(manufacturer) {
            Some(k) => {
                self.entries[k].1.push(id);
                assert forall|j: int| 0 <= j < self.entries@.len() implies (#[trigger] self.entries@[j]).1@ == ids_made_by(qs, self.entries@[j].0) by {
                    if j != k {
                        assert(self.entries@[j] == old_entries[j]);
                        assert(old_entries[j].0 != manufacturer);
                    }
                }
                assert forall|m: AccountId| #[trigger] ids_made_by(qs, m).len() > 0 implies exists|j: int| 0 <= j < self.entries@.len() && self.entries@[j].0 == m by {
                    if m == manufacturer {
                        assert(self.entries@[k as int].0 == m);
                    } else {
                        assert(ids_made_by(ps, m).len() > 0);
                        let j = choose|j: int| 0 <= j < old_entries.len() && old_entries[j].0 == m;
                        assert(self.entries@[j].0 == m);
                    }
                }
            },
            None => {
                proof {
                    if ids_made_by(ps, manufacturer).len() > 0 {
                        let j = choose|j: int| 0 <= j < old_entries.len() && old_entries[j].0 == manufacturer;
                        assert(old_entries[j].0 != manufacturer);
                    }
                }
                self.entries.push((manufacturer, vec![id]));
                let ghost n = old_entries.len() as int;
                assert(self.entries@[n].1@ =~= ids_made_by(qs, manufacturer));
                assert forall|j: int| 0 <= j < self.entries@.len() implies (#[trigger] self.entries@[j]).1@ == ids_made_by(qs, self.entries@[j].0) by {
                    if j != n {
                        assert(self.entries@[j] == old_entries[j]);
                    }
                }
                assert forall|a: int, b: int|
                    0 <= a < self.entries@.len() && 0 <= b < self.entries@.len() && a != b implies (#[trigger] self.entries@[a]).0 != (#[trigger] self.entries@[b]).0 by {
                    if a != n && b != n {
                        assert(self.entries@[a] == old_entries[a] && self.entries@[b] == old_entries[b]);
                    }
                }
                assert forall|m: AccountId| #[trigger] ids_made_by(qs, m).len() > 0 implies exists|j: int| 0 <= j < self.entries@.len() && self.entries@[j].0 == m by {
                    if m == manufacturer {
                        assert(self.entries@[n].0 == m);
                    } else {
                        assert(ids_made_by(ps, m).len() > 0);
                        let j = choose|j: int| 0 <= j < old_entries.len() && old_entries[j].0 == m;
                        assert(self.entries@[j].0 == m);
                    }
                }
            },
        }
    }

    /// The ids of the products of `ps` made by `m`, in order.
    pub fn lookup(&self, Ghost(ps): Ghost<Seq<Product>>, m: AccountId) -> (r: Vec<u32>)
        requires
            self.matches(ps),
        ensures
            r@ == ids_made_by(ps, m),
    {
        let mut r: Vec<u32> = Vec::new();
        match self.position(m) {
            Some(k) => {
                let ids = &self.entries[k].1;
                let mut i: usize = 0;
                while i < ids.len()
                    invariant
                        i <= ids@.len(),
                        r@ == ids@.subrange(0, i as int),
                    decreases ids@.len() - i,
                {
                    r.push(ids[i]);
                    i = i + 1;
                    assert(r@ =~= ids@.subrange(0, i as int));
                }
                assert(r@ =~= ids@);
            },
            None => {
                assert(ids_made_by(ps, m).len() == 0) by {
                    if ids_made_by(ps, m).len() > 0 {
                        let j = choose|j: int| 0 <= j < self.entries@.len() && self.entries@[j].0 == m;
                    }
                }
                assert(r@ =~= ids_made_by(ps, m));
            },
        }
        r
    }
}

} // verus!
