use vstd::prelude::*;

use crate::chain::{authorization_set, registered, transferred, MedicalSupplyChain};
use crate::identity::AccountId;
use crate::types::{Error, Product, Transfer};

verus! {

/// The record of a successful hand-off of product `id`, where `c` is
/// `(from, to, location, time)`.
pub open spec fn record_of(id: u32, c: (AccountId, AccountId, String, u64)) -> Transfer {
    Transfer { product_id: id, from: c.0, to: c.1, timestamp: c.3, location: c.2, verified: true }
}

/// Registering a product and then looking it up gives back every field that
/// was handed in; the ledger assigns only the id, the holder (the
/// registering caller, who is also the manufacturer), the authenticity flag
/// (set) and the creation time (the registration time). Its ledger starts
/// empty.
pub proof fn law_register_then_verify(
    pre: MedicalSupplyChain,
    post: MedicalSupplyChain,
    caller: AccountId,
    name: String,
    batch_number: String,
    manufacturer_name: String,
    quantity: u32,
    mfg_date: u64,
    expiry_date: u64,
    category: String,
    now: u64,
    r: Result<u32, Error>,
)
    requires
        pre.wf(),
        registered(pre, post, caller, name, batch_number, manufacturer_name, quantity, mfg_date, expiry_date, category, now, r),
        r is Ok,
    ensures
        r->Ok_0 == pre.next_id(),
        post.product(r->Ok_0 as int) == Some(
            (Product {
                id: r->Ok_0,
                name,
                batch_number,
                manufacturer: caller,
                manufacturer_name,
                quantity,
                mfg_date,
                expiry_date,
                category,
                current_holder: caller,
                is_authentic: true,
                created_at: now,
            }),
        ),
        post.history(r->Ok_0 as int) == Seq::<Transfer>::empty(),
{
    pre.lemma_wf();
}

/// The ledger of a product lists its successful hand-offs, one record each,
/// in the order they were made: after `n` of them it has grown by exactly
/// `n` records. `states[k + 1]` is the ledger after the hand-off `calls[k]`
/// of product `id`, which succeeded.
pub proof fn law_history_lists_transfers(
    states: Seq<MedicalSupplyChain>,
    calls: Seq<(AccountId, AccountId, String, u64)>,
    id: u32,
)
    requires
        states.len() == calls.len() + 1,
        forall|k: int| 0 <= k < states.len() ==> (#[trigger] states[k]).wf(),
        forall|k: int|
            0 <= k < calls.len() ==> transferred(
                #[trigger] states[k],
                states[k + 1],
                calls[k].0,
                id,
                calls[k].1,
                calls[k].2,
                calls[k].3,
                Ok::<(), Error>(()),
            ),
    ensures
        states.last().history(id as int) == states[0].history(id as int) + calls.map_values(
            |c: (AccountId, AccountId, String, u64)| record_of(id, c),
        ),
        states.last().history(id as int).len() == states[0].history(id as int).len() + calls.len(),
    decreases calls.len(),
{
    let f = |c: (AccountId, AccountId, String, u64)| record_of(id, c);
    if calls.len() == 0 {
        assert(calls.map_values(f) =~= Seq::<Transfer>::empty());
        assert(states[0].history(id as int) + Seq::<Transfer>::empty() =~= states[0].history(id as int));
    } else {
        let n = calls.len() - 1;
        let s = states.drop_last();
        let cs = calls.drop_last();
        assert forall|k: int| 0 <= k < cs.len() implies transferred(
            #[trigger] s[k],
            s[k + 1],
            cs[k].0,
            id,
            cs[k].1,
            cs[k].2,
            cs[k].3,
            Ok::<(), Error>(()),
        ) by {
            assert(s[k] == states[k] && s[k + 1] == states[k + 1] && cs[k] == calls[k]);
        }
        assert forall|k: int| 0 <= k < s.len() implies (#[trigger] s[k]).wf() by {
            assert(s[k] == states[k]);
        }
        law_history_lists_transfers(s, cs, id);
        let pre = states[n];
        let post = states[n + 1];
        assert(transferred(pre, post, calls[n].0, id, calls[n].1, calls[n].2, calls[n].3, Ok::<(), Error>(())));
        assert(pre.product(id as int) is Some);
        pre.lemma_wf();
        assert(post.history(id as int) == pre.history(id as int).push(record_of(id, calls[n]))) by {
            assert(1 <= id <= pre.products().len());
        }
        assert(calls.map_values(f) =~= cs.map_values(f).push(record_of(id, calls[n])));
        assert(s.last() == pre);
        assert(states[0].history(id as int) + calls.map_values(f) =~= (states[0].history(id as int) + cs.map_values(f)).push(
            record_of(id, calls[n]),
        ));
    }
}

/// Only the ledger of the product handed on grows: a hand-off of another
/// product, a registration, or a change of authorization leaves the ledger of
/// every existing product as it was.
pub proof fn law_other_calls_keep_ledger(pre: MedicalSupplyChain, id: u32)
    requires
        pre.wf(),
        1 <= id < pre.next_id(),
    ensures
        forall|post: MedicalSupplyChain, caller: AccountId, other: u32, to: AccountId, location: String, now: u64, r: Result<(), Error>|
            other != id && #[trigger] transferred(pre, post, caller, other, to, location, now, r)
                ==> post.history(id as int) == pre.history(id as int),
        forall|post: MedicalSupplyChain, caller: AccountId, name: String, batch_number: String, manufacturer_name: String,
            quantity: u32, mfg_date: u64, expiry_date: u64, category: String, now: u64, r: Result<u32, Error>|
            #[trigger] registered(pre, post, caller, name, batch_number, manufacturer_name, quantity, mfg_date, expiry_date, category, now, r)
                ==> post.history(id as int) == pre.history(id as int),
        forall|post: MedicalSupplyChain, caller: AccountId, m: AccountId, authorized: bool, r: Result<(), Error>|
            #[trigger] authorization_set(pre, post, caller, m, authorized, r)
                ==> post.history(id as int) == pre.history(id as int),
{
    pre.lemma_wf();
    assert forall|post: MedicalSupplyChain, caller: AccountId, name: String, batch_number: String, manufacturer_name: String,
        quantity: u32, mfg_date: u64, expiry_date: u64, category: String, now: u64, r: Result<u32, Error>|
        #[trigger] registered(pre, post, caller, name, batch_number, manufacturer_name, quantity, mfg_date, expiry_date, category, now, r)
        implies post.history(id as int) == pre.history(id as int) by {
        if pre.authorized(caller) {
            assert(post.ledgers()[id - 1] == pre.ledgers()[id - 1]);
        }
    }
}

/// Only the owner can change who may register products, and taking the
/// right away from a manufacturer leaves the products it already registered,
/// and their ledgers, exactly as they were.
pub proof fn law_authorization_owner_only(
    pre: MedicalSupplyChain,
    post: MedicalSupplyChain,
    caller: AccountId,
    manufacturer: AccountId,
    authorized: bool,
    r: Result<(), Error>,
)
    requires
        authorization_set(pre, post, caller, manufacturer, authorized, r),
    ensures
        r is Ok <==> caller == pre.owner_id(),
        forall|id: int| #[trigger] post.product(id) == pre.product(id),
        forall|id: int| #[trigger] post.history(id) == pre.history(id),
{
}

/// A refused call changes nothing: a registration by a caller that is not
/// an authorized manufacturer leaves the id counter and the products as they
/// were, and so does a hand-off by anyone but the product's holder.
pub proof fn law_refused_calls_change_nothing(
    pre: MedicalSupplyChain,
    reg_post: MedicalSupplyChain,
    caller: AccountId,
    name: String,
    batch_number: String,
    manufacturer_name: String,
    quantity: u32,
    mfg_date: u64,
    expiry_date: u64,
    category: String,
    now: u64,
    reg: Result<u32, Error>,
    tr_post: MedicalSupplyChain,
    product_id: u32,
    to: AccountId,
    location: String,
    tr: Result<(), Error>,
)
    requires
        registered(pre, reg_post, caller, name, batch_number, manufacturer_name, quantity, mfg_date, expiry_date, category, now, reg),
        transferred(pre, tr_post, caller, product_id, to, location, now, tr),
    ensures
        !pre.authorized(caller) ==> reg == Err::<u32, Error>(Error::NotAuthorizedManufacturer)
            && reg_post.next_id() == pre.next_id() && reg_post.products() == pre.products() && reg_post == pre,
        pre.product(product_id as int) is Some && pre.product(product_id as int).unwrap().current_holder != caller
            ==> tr == Err::<(), Error>(Error::NotCurrentHolder) && tr_post == pre,
        tr is Err ==> tr_post == pre,
        reg is Err ==> reg_post == pre,
{
}

} // verus!
