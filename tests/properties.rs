use medical_supply_chain::{AccessControl, AccountId, Error, Event, MedicalSupplyChain};

fn owner() -> AccountId {
    AccountId::new([0x01; 32])
}

fn holder_b() -> AccountId {
    AccountId::new([0x02; 32])
}

fn holder_c() -> AccountId {
    AccountId::new([0x03; 32])
}

fn register(contract: &mut MedicalSupplyChain, caller: AccountId, name: &str, now: u64) -> Result<u32, Error> {
    contract.register_product(
        caller,
        name.to_string(),
        "LOT-7".to_string(),
        "Maker Inc".to_string(),
        42,
        1000,
        2000,
        "Vaccine".to_string(),
        now,
    )
}

#[test]
fn holder_and_manufacturer_are_the_registering_caller() {
    let mut contract = MedicalSupplyChain::new(owner());
    contract.authorize_manufacturer(owner(), holder_b(), true).unwrap();
    let id = register(&mut contract, holder_b(), "Insulin", 5).unwrap();
    let product = contract.verify_product(id).unwrap();
    assert_eq!(product.manufacturer, holder_b());
    assert_eq!(product.current_holder, holder_b());
}

#[test]
fn transfer_appends_exact_record() {
    let mut contract = MedicalSupplyChain::new(owner());
    let id = register(&mut contract, owner(), "Insulin", 5).unwrap();
    contract.transfer_custody(owner(), id, holder_b(), "Pune".to_string(), 77).unwrap();
    let product = contract.verify_product(id).unwrap();
    assert_eq!(product.current_holder, holder_b());
    let history = contract.get_transfer_history(id);
    let last = history.last().unwrap();
    assert_eq!(last.product_id, id);
    assert_eq!(last.from, owner());
    assert_eq!(last.to, holder_b());
    assert_eq!(last.timestamp, 77);
    assert_eq!(last.location, "Pune");
    assert!(last.verified);
}

#[test]
fn non_holder_transfer_changes_nothing() {
    let mut contract = MedicalSupplyChain::new(owner());
    let id = register(&mut contract, owner(), "Insulin", 5).unwrap();
    let pending = contract.take_events().len();
    assert_eq!(pending, 1);
    for caller in [holder_b(), holder_c()] {
        let result = contract.transfer_custody(caller, id, holder_c(), "Nowhere".to_string(), 9);
        assert_eq!(result, Err(Error::NotCurrentHolder));
    }
    assert_eq!(contract.verify_product(id).unwrap().current_holder, owner());
    assert_eq!(contract.get_transfer_history(id).len(), 0);
    assert_eq!(contract.get_next_product_id(), 2);
    assert_eq!(contract.take_events().len(), 0);
}

#[test]
fn unauthorized_registration_changes_nothing() {
    let mut contract = MedicalSupplyChain::new(owner());
    let result = register(&mut contract, holder_b(), "Fake", 5);
    assert_eq!(result, Err(Error::NotAuthorizedManufacturer));
    assert_eq!(contract.get_next_product_id(), 1);
    assert!(contract.verify_product(1).is_none());
    assert!(contract.get_products_by_manufacturer(holder_b()).is_empty());
    assert_eq!(contract.take_events().len(), 0);
}

#[test]
fn history_lists_transfers_in_call_order() {
    let mut contract = MedicalSupplyChain::new(owner());
    let id = register(&mut contract, owner(), "Insulin", 5).unwrap();
    let other = register(&mut contract, owner(), "Heparin", 6).unwrap();
    let hops = [(owner(), holder_b()), (holder_b(), holder_c()), (holder_c(), owner())];
    for (k, (from, to)) in hops.iter().enumerate() {
        contract.transfer_custody(*from, id, *to, format!("Stop {}", k), 10 + k as u64).unwrap();
    }
    let history = contract.get_transfer_history(id);
    assert_eq!(history.len(), 3);
    for (k, (from, to)) in hops.iter().enumerate() {
        assert_eq!(history[k].from, *from);
        assert_eq!(history[k].to, *to);
        assert_eq!(history[k].location, format!("Stop {}", k));
        assert_eq!(history[k].timestamp, 10 + k as u64);
    }
    assert_eq!(contract.get_transfer_history(other).len(), 0);
    assert_eq!(contract.get_transfer_history(0).len(), 0);
    assert_eq!(contract.get_transfer_history(3).len(), 0);
}

#[test]
fn revocation_keeps_registered_products() {
    let mut contract = MedicalSupplyChain::new(owner());
    contract.authorize_manufacturer(owner(), holder_b(), true).unwrap();
    let id = register(&mut contract, holder_b(), "Insulin", 5).unwrap();
    assert_eq!(contract.authorize_manufacturer(holder_b(), holder_b(), false), Err(Error::OnlyOwner));
    assert!(contract.is_authorized_manufacturer(holder_b()));
    contract.authorize_manufacturer(owner(), holder_b(), false).unwrap();
    assert!(!contract.is_authorized_manufacturer(holder_b()));
    let product = contract.verify_product(id).unwrap();
    assert_eq!(product.manufacturer, holder_b());
    assert_eq!(product.name, "Insulin");
    assert_eq!(contract.get_products_by_manufacturer(holder_b()), vec![id]);
    contract.transfer_custody(holder_b(), id, holder_c(), "Depot".to_string(), 8).unwrap();
}

#[test]
fn register_then_verify_round_trip() {
    let mut contract = MedicalSupplyChain::new(owner());
    let id = register(&mut contract, owner(), "Insulin", 123).unwrap();
    let product = contract.verify_product(id).unwrap();
    assert_eq!(product.id, 1);
    assert_eq!(product.name, "Insulin");
    assert_eq!(product.batch_number, "LOT-7");
    assert_eq!(product.manufacturer, owner());
    assert_eq!(product.manufacturer_name, "Maker Inc");
    assert_eq!(product.quantity, 42);
    assert_eq!(product.mfg_date, 1000);
    assert_eq!(product.expiry_date, 2000);
    assert_eq!(product.category, "Vaccine");
    assert_eq!(product.current_holder, owner());
    assert!(product.is_authentic);
    assert_eq!(product.created_at, 123);
}

#[test]
fn first_registration_gets_id_one() {
    let mut contract = MedicalSupplyChain::new(owner());
    let id = contract
        .register_product(
            owner(),
            "Amoxicillin 500mg".to_string(),
            "BATCH-001".to_string(),
            "PharmaCorp Ltd".to_string(),
            10000,
            1704067200000,
            1767225600000,
            "Antibiotic".to_string(),
            0,
        )
        .unwrap();
    assert_eq!(id, 1);
    assert_eq!(contract.get_next_product_id(), 2);
}

#[test]
fn two_hop_chain_scenario() {
    let mut contract = MedicalSupplyChain::new(owner());
    let id = register(&mut contract, owner(), "Insulin", 0).unwrap();
    assert_eq!(id, 1);
    contract.transfer_custody(owner(), 1, holder_b(), "Mumbai, India".to_string(), 1).unwrap();
    contract.transfer_custody(holder_b(), 1, holder_c(), "Delhi, India".to_string(), 2).unwrap();
    assert_eq!(contract.verify_product(1).unwrap().current_holder, holder_c());
    let history = contract.get_transfer_history(1);
    assert_eq!(history.len(), 2);
    assert_eq!((history[0].from, history[0].to), (owner(), holder_b()));
    assert_eq!(history[0].location, "Mumbai, India");
    assert_eq!((history[1].from, history[1].to), (holder_b(), holder_c()));
    assert_eq!(history[1].location, "Delhi, India");
}

#[test]
fn non_owner_authorization_fails_and_flag_unchanged() {
    let mut contract = MedicalSupplyChain::new(owner());
    contract.authorize_manufacturer(owner(), holder_c(), true).unwrap();
    contract.take_events();
    assert_eq!(contract.authorize_manufacturer(holder_b(), holder_c(), false), Err(Error::OnlyOwner));
    assert!(contract.is_authorized_manufacturer(holder_c()));
    assert_eq!(contract.authorize_manufacturer(holder_b(), holder_b(), true), Err(Error::OnlyOwner));
    assert!(!contract.is_authorized_manufacturer(holder_b()));
    assert_eq!(contract.take_events().len(), 0);
}

#[test]
fn transfer_of_unknown_product_fails() {
    let mut contract = MedicalSupplyChain::new(owner());
    register(&mut contract, owner(), "Insulin", 0).unwrap();
    assert_eq!(contract.transfer_custody(owner(), 999, holder_b(), "X".to_string(), 1), Err(Error::ProductNotFound));
    assert_eq!(contract.transfer_custody(owner(), 0, holder_b(), "X".to_string(), 1), Err(Error::ProductNotFound));
    assert_eq!(contract.transfer_custody(owner(), 2, holder_b(), "X".to_string(), 1), Err(Error::ProductNotFound));
    assert!(contract.verify_product(0).is_none());
}

#[test]
fn notifications_are_queued_in_order() {
    let mut contract = MedicalSupplyChain::new(owner());
    contract.authorize_manufacturer(owner(), holder_b(), true).unwrap();
    let id = register(&mut contract, holder_b(), "Insulin", 3).unwrap();
    contract.transfer_custody(holder_b(), id, holder_c(), "Goa".to_string(), 4).unwrap();
    let events = contract.take_events();
    assert_eq!(events.len(), 3);
    match &events[0] {
        Event::ManufacturerAuthorized(e) => {
            assert_eq!(e.manufacturer, holder_b());
            assert!(e.authorized);
        }
        other => panic!("unexpected {:?}", other),
    }
    match &events[1] {
        Event::ProductRegistered(e) => {
            assert_eq!(e.product_id, id);
            assert_eq!(e.manufacturer, holder_b());
            assert_eq!(e.name, "Insulin");
            assert_eq!(e.batch_number, "LOT-7");
        }
        other => panic!("unexpected {:?}", other),
    }
    match &events[2] {
        Event::CustodyTransferred(e) => {
            assert_eq!(e.product_id, id);
            assert_eq!(e.from, holder_b());
            assert_eq!(e.to, holder_c());
            assert_eq!(e.location, "Goa");
        }
        other => panic!("unexpected {:?}", other),
    }
    assert!(contract.take_events().is_empty());
}

#[test]
fn products_by_manufacturer_in_ascending_order() {
    let mut contract = MedicalSupplyChain::new(owner());
    contract.authorize_manufacturer(owner(), holder_b(), true).unwrap();
    register(&mut contract, owner(), "A", 0).unwrap();
    register(&mut contract, holder_b(), "B", 0).unwrap();
    register(&mut contract, owner(), "C", 0).unwrap();
    register(&mut contract, holder_b(), "D", 0).unwrap();
    contract.transfer_custody(owner(), 1, holder_b(), "Hub".to_string(), 1).unwrap();
    assert_eq!(contract.get_products_by_manufacturer(owner()), vec![1, 3]);
    assert_eq!(contract.get_products_by_manufacturer(holder_b()), vec![2, 4]);
}

#[test]
fn authorization_is_idempotent() {
    let mut access = AccessControl::new(owner());
    assert_eq!(access.owner(), owner());
    assert!(access.set_authorization(owner(), holder_b(), true).is_ok());
    assert!(access.set_authorization(owner(), holder_b(), true).is_ok());
    assert!(access.is_authorized(holder_b()));
    assert!(access.set_authorization(owner(), holder_b(), false).is_ok());
    assert!(!access.is_authorized(holder_b()));
    assert!(access.set_authorization(owner(), holder_b(), false).is_ok());
    assert!(!access.is_authorized(holder_b()));
    assert!(access.is_authorized(owner()));
    assert_eq!(access.set_authorization(holder_b(), holder_b(), true), Err(Error::OnlyOwner));
}

#[test]
fn owner_can_revoke_itself() {
    let mut contract = MedicalSupplyChain::new(owner());
    contract.authorize_manufacturer(owner(), owner(), false).unwrap();
    assert!(!contract.is_authorized_manufacturer(owner()));
    assert_eq!(register(&mut contract, owner(), "A", 0), Err(Error::NotAuthorizedManufacturer));
    assert_eq!(contract.get_owner(), owner());
}

#[test]
fn identities_differ_in_last_byte() {
    let mut bytes = [0x01; 32];
    bytes[31] = 0x02;
    let near = AccountId::new(bytes);
    assert_ne!(near, owner());
    assert_eq!(near.to_bytes(), bytes);
    let mut contract = MedicalSupplyChain::new(owner());
    assert!(!contract.is_authorized_manufacturer(near));
    let id = register(&mut contract, owner(), "A", 0).unwrap();
    assert_eq!(contract.transfer_custody(near, id, holder_b(), "X".to_string(), 1), Err(Error::NotCurrentHolder));
}

#[test]
fn product_clone_keeps_fields() {
    let mut contract = MedicalSupplyChain::new(owner());
    let id = register(&mut contract, owner(), "Insulin", 9).unwrap();
    let product = contract.verify_product(id).unwrap();
    let copy = product.clone();
    assert_eq!(copy.name, product.name);
    assert_eq!(copy.created_at, 9);
    assert_eq!(copy.current_holder, product.current_holder);
}
