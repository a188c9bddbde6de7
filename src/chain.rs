use vstd::prelude::*;

use crate::access::AccessControl;
use crate::identity::AccountId;
use crate::index::{ids_made_by, ManufacturerIndex};
use crate::types::{CustodyTransferred, Error, Event, ManufacturerAuthorized, Product, ProductRegistered, Transfer};

verus! {

/// The custody chain of one product: `h` is the product's ledger in
/// insertion order. Every record names the product and is verified, the
/// chain of `from` and `to` is unbroken from the manufacturer on, and the
/// current holder is the manufacturer or the receiver of the last record.
pub open spec fn well_chained(p: Product, h: Seq<Transfer>) -> bool {
    &&& p.is_authentic
    &&& forall|k: int| 0 <= k < h.len() ==> (#[trigger] h[k]).product_id == p.id && h[k].verified
    &&& h.len() > 0 ==> h[0].from == p.manufacturer
    &&& forall|k: int| 0 < k < h.len() ==> (#[trigger] h[k]).from == h[k - 1].to
    &&& p.current_holder == (if h.len() == 0 { p.manufacturer } else { h.last().to })
}

/// What `register_product` does: `caller` registers a product with the
/// given fields at time `now`, moving the ledger from `pre` to `post` with
/// result `r`. An unauthorized caller is refused and nothing changes;
/// otherwise the product gets the next id, `caller` as manufacturer and
/// holder, and an empty ledger, and a registration notice is queued.
pub open spec fn registered(
    pre: MedicalSupplyChain,
    post: MedicalSupplyChain,
    caller: AccountId,
    name: String,
    batch_number: String,
    manufacturer_name: String,
    quantity: u32,
    mfg_date: u64,
    expiry_date: u64,
    category: String,
    now: u64,
    r: Result<u32, Error>,
) -> bool {
    if !pre.authorized(caller) {
        r == Err::<u32, Error>(Error::NotAuthorizedManufacturer) && post == pre
    } else {
        &&& r == Ok::<u32, Error>(pre.next_id() as u32)
        &&& post.next_id() == pre.next_id() + 1
        &&& post.products() == pre.products().push(
            (Product {
                id: pre.next_id() as u32,
                name,
                batch_number,
                manufacturer: caller,
                manufacturer_name,
                quantity,
                mfg_date,
                expiry_date,
                category,
                current_holder: caller,
                is_authentic: true,
                created_at: now,
            }),
        )
        &&& post.ledgers() == pre.ledgers().push(Seq::<Transfer>::empty())
        &&& post.access_control() == pre.access_control()
        &&& post.pending_events() == pre.pending_events().push(
            Event::ProductRegistered((ProductRegistered { product_id: pre.next_id() as u32, manufacturer: caller, name, batch_number })),
        )
    }
}

/// What `transfer_custody` does: `caller` hands product `product_id` to
/// `to` at `location` and time `now`, moving the ledger from `pre` to `post`
/// with result `r`. A missing product gives `ProductNotFound`, a caller that
/// does not hold it `NotCurrentHolder`, and then nothing changes. Otherwise
/// the holder becomes `to`, one verified record is appended to the
/// product's ledger, and a transfer notice is queued.
pub open spec fn transferred(
    pre: MedicalSupplyChain,
    post: MedicalSupplyChain,
    caller: AccountId,
    product_id: u32,
    to: AccountId,
    location: String,
    now: u64,
    r: Result<(), Error>,
) -> bool {
    if pre.product(product_id as int) is None {
        r == Err::<(), Error>(Error::ProductNotFound) && post == pre
    } else if pre.product(product_id as int).unwrap().current_holder != caller {
        r == Err::<(), Error>(Error::NotCurrentHolder) && post == pre
    } else {
        let i = product_id - 1;
        let p = pre.products()[i];
        &&& r is Ok
        &&& post.products() == pre.products().update(i, (Product { current_holder: to, ..p }))
        &&& post.ledgers() == pre.ledgers().update(
            i,
            pre.ledgers()[i].push((Transfer { product_id, from: caller, to, timestamp: now, location, verified: true })),
        )
        &&& post.next_id() == pre.next_id()
        &&& post.access_control() == pre.access_control()
        &&& post.pending_events() == pre.pending_events().push(
            Event::CustodyTransferred((CustodyTransferred { product_id, from: caller, to, location })),
        )
    }
}

/// What `authorize_manufacturer` does: `caller` sets whether `manufacturer`
/// may register products, moving the ledger from `pre` to `post` with result
/// `r`. Anyone but the owner gets `OnlyOwner` and nothing changes. The
/// owner's call succeeds, sets that one flag and queues a notice; products
/// and ledgers are untouched either way.
pub open spec fn authorization_set(
    pre: MedicalSupplyChain,
    post: MedicalSupplyChain,
    caller: AccountId,
    manufacturer: AccountId,
    authorized: bool,
    r: Result<(), Error>,
) -> bool {
    &&& post.owner_id() == pre.owner_id()
    &&& post.products() == pre.products()
    &&& post.ledgers() == pre.ledgers()
    &&& post.next_id() == pre.next_id()
    &&& forall|a: AccountId| a != manufacturer ==> post.authorized(a) == pre.authorized(a)
    &&& if caller != pre.owner_id() {
        r == Err::<(), Error>(Error::OnlyOwner) && post == pre
    } else {
        &&& r is Ok
        &&& post.authorized(manufacturer) == authorized
        &&& post.pending_events() == pre.pending_events().push(
            Event::ManufacturerAuthorized((ManufacturerAuthorized { manufacturer, authorized })),
        )
    }
}

/// A custody ledger: authorized manufacturers register products, the holder
/// of a product hands it on, and every hand-off is recorded.
///
/// Product `id` is stored at index `id - 1`: ids run from 1 and are never
/// reused, and products are never removed. An index from manufacturer to
/// product ids is kept up to date at registration. Notifications wait in an
/// outbox until the host takes them.
pub struct MedicalSupplyChain {
    products: Vec<Product>,
    transfers: Vec<Vec<Transfer>>,
    next_product_id: u32,
    access: AccessControl,
    events: Vec<Event>,
    /// The products of each manufacturer, kept up to date at registration.
    index: ManufacturerIndex,
}

impl MedicalSupplyChain {
    /// The registered products, product `id` at index `id - 1`.
    pub closed spec fn products(&self) -> Seq<Product> {
        self.products@
    }

    /// The ledgers of the registered products, in the same order.
    pub closed spec fn ledgers(&self) -> Seq<Seq<Transfer>> {
        self.transfers@.map_values(|v: Vec<Transfer>| v@)
    }

    /// The id that the next registered product will get.
    pub closed spec fn next_id(&self) -> nat {
        self.next_product_id as nat
    }

    /// The owner and the authorized manufacturers.
    pub closed spec fn access_control(&self) -> AccessControl {
        self.access
    }

    /// The notifications not yet taken by the host, oldest first.
    pub closed spec fn pending_events(&self) -> Seq<Event> {
        self.events@
    }

    /// The owner of the ledger.
    pub open spec fn owner_id(&self) -> AccountId {
        self.access_control().owner_id()
    }

    /// Whether `a` may register products.
    pub open spec fn authorized(&self, a: AccountId) -> bool {
        self.access_control().authorized(a)
    }

    /// The product with the given id, if one was registered.
    pub open spec fn product(&self, id: int) -> Option<Product> {
        if 1 <= id <= self.products().len() {
            Some(self.products()[id - 1])
        } else {
            None
        }
    }

    /// The ledger of the product with the given id; empty where there is none.
    pub open spec fn history(&self, id: int) -> Seq<Transfer> {
        if 1 <= id <= self.ledgers().len() {
            self.ledgers()[id - 1]
        } else {
            seq![]
        }
    }

    /// The ledger's invariant: ids are dense from 1, each product has a
    /// ledger, every custody chain is unbroken and the manufacturer index is
    /// current.
    pub closed spec fn wf(&self) -> bool {
        &&& self.access.wf()
        &&& self.index.matches(self.products@)
        &&& self.products@.len() + 1 == self.next_product_id
        &&& self.transfers@.len() == self.products@.len()
        &&& forall|i: int| 0 <= i < self.products@.len() ==> (#[trigger] self.products@[i]).id == i + 1
        &&& forall|i: int|
            0 <= i < self.products@.len() ==> well_chained(#[trigger] self.products@[i], self.transfers@[i]@)
    }

    /// A ledger owned by `caller`, with no products, in which the owner alone
    /// is an authorized manufacturer.
    pub fn new(caller: AccountId) -> (r: MedicalSupplyChain)
        ensures
            r.wf(),
            r.next_id() == 1,
            r.products() == Seq::<Product>::empty(),
            r.ledgers() == Seq::<Seq<Transfer>>::empty(),
            r.owner_id() == caller,
            forall|a: AccountId| r.authorized(a) <==> a == caller,
            r.pending_events() == Seq::<Event>::empty(),
    {
        let r = MedicalSupplyChain {
            products: Vec::new(),
            transfers: Vec::new(),
            next_product_id: 1,
            access: AccessControl::new(caller),
            events: Vec::new(),
            index: ManufacturerIndex::new(),
        };
        assert(r.ledgers() =~= Seq::<Seq<Transfer>>::empty());
        r
    }

    /// Registers a product made by `caller`, who must be an authorized
    /// manufacturer, at time `now`. The product gets the next id, `caller` as
    /// manufacturer and holder, and an empty ledger; a registration notice
    /// is queued.
    pub fn register_product(
        &mut self,
        caller: AccountId,
        name: String,
        batch_number: String,
        manufacturer_name: String,
        quantity: u32,
        mfg_date: u64,
        expiry_date: u64,
        category: String,
        now: u64,
    ) -> (r: Result<u32, Error>)
        requires
            old(self).wf(),
            old(self).next_id() < u32::MAX,
        ensures
            final(self).wf(),
            registered(
                *old(self),
                *final(self),
                caller,
                name,
                batch_number,
                manufacturer_name,
                quantity,
                mfg_date,
                expiry_date,
                category,
                now,
                r,
            ),
            r is Ok ==> final(self).product(r->Ok_0 as int).unwrap().manufacturer == caller
                && final(self).product(r->Ok_0 as int).unwrap().current_holder == caller,
    {
        if !self.access.is_authorized(caller) {
            return Err(Error::NotAuthorizedManufacturer);
        }
        let product_id = self.next_product_id;
        let product = Product {
            id: product_id,
            name: name.clone(),
            batch_number: batch_number.clone(),
            manufacturer: caller,
            manufacturer_name,
            quantity,
            mfg_date,
            expiry_date,
            category,
            current_holder: caller,
            is_authentic: true,
            created_at: now,
        };
        let ghost old_ledgers = self.ledgers();
        let ghost old_products = self.products@;
        self.index.record(Ghost(old_products), Ghost(product), caller, product_id);
        self.products.push(product);
        self.transfers.push(Vec::new());
        self.next_product_id = product_id + 1;
        self.events.push(
            Event::ProductRegistered(ProductRegistered { product_id, manufacturer: caller, name, batch_number }),
        );
        assert(self.ledgers() =~= old_ledgers.push(Seq::<Transfer>::empty()));
        assert forall|i: int| 0 <= i < self.products@.len() implies well_chained(
            #[trigger] self.products@[i],
            self.transfers@[i]@,
        ) by {
            if i == self.products@.len() - 1 {
                assert(self.transfers@[i]@ =~= Seq::<Transfer>::empty());
            }
        }
        Ok(product_id)
    }

    /// Hands product `product_id` from `caller`, who must hold it, to `to`
    /// at time `now`, at `location`. The product's holder becomes `to`, a
    /// verified record of the hand-off is appended to its ledger and a
    /// transfer notice is queued. Handing a product to oneself is recorded
    /// like any other hand-off.
    pub fn transfer_custody(
        &mut self,
        caller: AccountId,
        product_id: u32,
        to: AccountId,
        location: String,
        now: u64,
    ) -> (r: Result<(), Error>)
        requires
            old(self).wf(),
        ensures
            final(self).wf(),
            transferred(*old(self), *final(self), caller, product_id, to, location, now, r),
            r is Ok ==> final(self).product(product_id as int).unwrap().current_holder == to
                && final(self).history(product_id as int).last() == (Transfer {
                    product_id,
                    from: caller,
                    to,
                    timestamp: now,
                    location,
                    verified: true,
                }),
    {
        if product_id == 0 || product_id >= self.next_product_id {
            return Err(Error::ProductNotFound);
        }
        let i = (product_id - 1) as usize;
        if self.products[i].current_holder != caller {
            return Err(Error::NotCurrentHolder);
        }
        let ghost old_products = self.products@;
        let ghost old_transfers = self.transfers@;
        let ghost old_ledgers = self.ledgers();
        let transfer = Transfer {
            product_id,
            from: caller,
            to,
            timestamp: now,
            location: location.clone(),
            verified: true,
        };
        self.products[i].current_holder = to;
        self.transfers[i].push(transfer);
        self.events.push(Event::CustodyTransferred(CustodyTransferred { product_id, from: caller, to, location }));
        proof {
            let h = self.transfers@[i as int]@;
            assert(h == old_transfers[i as int]@.push(transfer));
            assert(self.ledgers() =~= old_ledgers.update(i as int, old_ledgers[i as int].push(transfer)));
            assert(self.products@ =~= old_products.update(
                i as int,
                Product { current_holder: to, ..old_products[i as int] },
            ));
            self.index.lemma_matches_same_makers(old_products, self.products@);
            assert forall|j: int| 0 <= j < self.products@.len() implies well_chained(
                #[trigger] self.products@[j],
                self.transfers@[j]@,
            ) by {
                if j == i {
                    let oh = old_transfers[j]@;
                    assert(well_chained(old_products[j], oh));
                    assert forall|k: int| 0 < k < h.len() implies (#[trigger] h[k]).from == h[k - 1].to by {
                        if k == h.len() - 1 {
                            assert(h[k] == transfer);
                        } else {
                            assert(h[k] == oh[k]);
                        }
                    }
                    assert forall|k: int| 0 <= k < h.len() implies (#[trigger] h[k]).product_id == product_id
                        && h[k].verified by {
                        if k < oh.len() {
                            assert(h[k] == oh[k]);
                        }
                    }
                    if oh.len() > 0 {
                        assert(h[0] == oh[0]);
                    }
                } else {
                    assert(self.products@[j] == old_products[j]);
                    assert(self.transfers@[j] == old_transfers[j]);
                }
            }
        }
        Ok(())
    }

    /// Grants or revokes the right of `manufacturer` to register products.
    /// Only the owner may; on success an authorization notice is queued.
    /// Products already registered are not touched.
    pub fn authorize_manufacturer(&mut self, caller: AccountId, manufacturer: AccountId, authorized: bool) -> (r: Result<(), Error>)
        requires
            old(self).wf(),
        ensures
            final(self).wf(),
            authorization_set(*old(self), *final(self), caller, manufacturer, authorized, r),
    {
        let r = self.access.set_authorization(caller, manufacturer, authorized);
        if r.is_ok() {
            self.events.push(Event::ManufacturerAuthorized(ManufacturerAuthorized { manufacturer, authorized }));
        }
        r
    }

    /// Whether `account` may register products.
    pub fn is_authorized_manufacturer(&self, account: AccountId) -> (r: bool)
        ensures
            r == self.authorized(account),
    {
        self.access.is_authorized(account)
    }

    /// The product with the given id, or `None` if there is none.
    pub fn verify_product(&self, product_id: u32) -> (r: Option<Product>)
        requires
            self.wf(),
        ensures
            r == self.product(product_id as int),
    {
        if product_id == 0 || product_id >= self.next_product_id {
            None
        } else {
            Some(self.products[(product_id - 1) as usize].clone())
        }
    }

    /// The hand-offs of the given product, oldest first; empty where there
    /// is no such product.
    pub fn get_transfer_history(&self, product_id: u32) -> (r: Vec<Transfer>)
        requires
            self.wf(),
        ensures
            r@ == self.history(product_id as int),
    {
        let mut r: Vec<Transfer> = Vec::new();
        if product_id == 0 || product_id >= self.next_product_id {
            return r;
        }
        let h = &self.transfers[(product_id - 1) as usize];
        let mut k: usize = 0;
        while k < h.len()
            invariant
                k <= h@.len(),
                r@ == h@.subrange(0, k as int),
            decreases h@.len() - k,
        {
            r.push(h[k].clone());
            k = k + 1;
            assert(r@ =~= h@.subrange(0, k as int));
        }
        assert(r@ =~= h@);
        r
    }

    /// The owner of the ledger.
    pub fn get_owner(&self) -> (r: AccountId)
        ensures
            r == self.owner_id(),
    {
        self.access.owner()
    }

    /// The id that the next registered product will get.
    pub fn get_next_product_id(&self) -> (r: u32)
        ensures
            r == self.next_id(),
    {
        self.next_product_id
    }

    /// The ids of the products registered by `manufacturer`, in ascending
    /// order.
    pub fn get_products_by_manufacturer(&self, manufacturer: AccountId) -> (r: Vec<u32>)
        requires
            self.wf(),
        ensures
            r@ == ids_made_by(self.products(), manufacturer),
    {
        self.index.lookup(Ghost(self.products@), manufacturer)
    }

    /// Hands the queued notifications to the host, oldest first, and empties
    /// the queue.
    pub fn take_events(&mut self) -> (r: Vec<Event>)
        requires
            old(self).wf(),
        ensures
            final(self).wf(),
            r@ == old(self).pending_events(),
            final(self).pending_events() == Seq::<Event>::empty(),
            final(self).products() == old(self).products(),
            final(self).ledgers() == old(self).ledgers(),
            final(self).next_id() == old(self).next_id(),
            final(self).access_control() == old(self).access_control(),
    {
        let mut r: Vec<Event> = Vec::new();
        std::mem::swap(&mut r, &mut self.events);
        r
    }

    /// What `wf` promises to a reader of the contracts.
    pub proof fn lemma_wf(&self)
        requires
            self.wf(),
        ensures
            self.next_id() == self.products().len() + 1,
            self.next_id() <= u32::MAX,
            self.ledgers().len() == self.products().len(),
            forall|id: int| 1 <= id < self.next_id() ==> (#[trigger] self.product(id)).unwrap().id == id,
            forall|id: int| 1 <= id < self.next_id() ==> well_chained(#[trigger] self.product(id).unwrap(), self.history(id)),
    {
        assert forall|id: int| 1 <= id < self.next_id() implies well_chained(#[trigger] self.product(id).unwrap(), self.history(id)) by {
            assert(self.products@[id - 1].id == id);
            assert(self.ledgers()[id - 1] == self.transfers@[id - 1]@);
        }
    }
}

} // verus!
