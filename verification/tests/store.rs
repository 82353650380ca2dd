use supply_chain::error::SupplyChainError;
use supply_chain::event::EventType;
use supply_chain::product::{Principal, ProductStatus, Stage};
use supply_chain::store::ProductStore;

fn principal(id: u64) -> Principal {
    Principal { id }
}

#[test]
fn duplicate_key_rejected_per_creator() {
    let a = principal(1);
    let b = principal(2);
    let mut store = ProductStore::new();
    let first = store.initialize_product(a, "SN1".to_string(), "Widget".to_string(), None, 7);
    assert_eq!(first, Ok(0));
    let duplicate = store.initialize_product(a, "SN1".to_string(), "Other".to_string(), None, 8);
    assert_eq!(duplicate, Err(SupplyChainError::DuplicateKey));
    let other_serial = store.initialize_product(a, "SN2".to_string(), "Widget".to_string(), None, 8);
    assert_eq!(other_serial, Ok(1));
    let other_creator = store.initialize_product(b, "SN1".to_string(), "Widget".to_string(), None, 8);
    assert_eq!(other_creator, Ok(2));
}

#[test]
fn validation_comes_before_duplicate_detection() {
    let a = principal(1);
    let mut store = ProductStore::new();
    store
        .initialize_product(a, "SN1".to_string(), "Widget".to_string(), None, 7)
        .unwrap();
    let invalid = store.initialize_product(a, "SN1".to_string(), String::new(), None, 8);
    assert_eq!(invalid, Err(SupplyChainError::InvalidDescription));
}

#[test]
fn missing_records_reported_not_found() {
    let a = principal(1);
    let mut store = ProductStore::new();
    let log = store.log_event(
        a,
        &"SN1".to_string(),
        a,
        EventType::Ongoing,
        "note".to_string(),
        None,
        8,
    );
    assert_eq!(log, Err(SupplyChainError::NotFound));
    let complete = store.complete_stage(a, &"SN1".to_string(), a);
    assert_eq!(complete, Err(SupplyChainError::NotFound));
    let transfer = store.transfer_ownership(a, &"SN1".to_string(), a, principal(2));
    assert_eq!(transfer, Err(SupplyChainError::NotFound));
    assert!(store.product_ledger(a, &"SN1".to_string()).is_none());
}

#[test]
fn store_operations_touch_only_the_addressed_product() {
    let a = principal(1);
    let mut store = ProductStore::new();
    store
        .initialize_product(a, "SN1".to_string(), "Widget".to_string(), None, 7)
        .unwrap();
    store
        .initialize_product(a, "SN2".to_string(), "Gadget".to_string(), None, 7)
        .unwrap();

    let r = store.log_event(
        a,
        &"SN1".to_string(),
        a,
        EventType::Shipped,
        "moving".to_string(),
        None,
        8,
    );
    assert_eq!(r, Ok(0));

    let touched = store.product_ledger(a, &"SN1".to_string()).unwrap();
    assert_eq!(touched.product.status, ProductStatus::InTransit);
    assert_eq!(touched.product.events_counter, 1);
    assert_eq!(touched.events.len(), 1);

    let untouched = store.product_ledger(a, &"SN2".to_string()).unwrap();
    assert_eq!(untouched.product.status, ProductStatus::Created);
    assert_eq!(untouched.product.events_counter, 0);
    assert!(untouched.events.is_empty());
}

#[test]
fn store_runs_the_staged_lifecycle_end_to_end() {
    let a = principal(1);
    let b = principal(2);
    let serial = "SN1".to_string();
    let stages = vec![
        Stage { name: "Mfg".to_string(), owner: Some(a), completed: false },
        Stage { name: "Ship".to_string(), owner: Some(b), completed: false },
    ];
    let mut store = ProductStore::new();
    store
        .initialize_product(a, serial.clone(), "Widget".to_string(), Some(stages), 7)
        .unwrap();

    let done = store.log_event(a, &serial, a, EventType::Complete, "built".to_string(), None, 8);
    assert_eq!(done, Ok(0));
    let handed_off = store.product_ledger(a, &serial).unwrap();
    assert_eq!(handed_off.product.owner, b);
    assert_eq!(handed_off.product.status, ProductStatus::Transferred);

    let shipped = store.log_event(a, &serial, b, EventType::Complete, "shipped".to_string(), None, 9);
    assert_eq!(shipped, Ok(1));
    let delivered = store.product_ledger(a, &serial).unwrap();
    assert_eq!(delivered.product.status, ProductStatus::Delivered);
    assert_eq!(delivered.events.len(), 2);
    assert_eq!(delivered.events[0].event_index, 0);
    assert_eq!(delivered.events[1].event_index, 1);
}

#[test]
fn store_transfer_and_complete_follow_the_engine() {
    let a = principal(1);
    let b = principal(2);
    let serial = "SN1".to_string();
    let stages = vec![Stage { name: "Only".to_string(), owner: None, completed: false }];
    let mut store = ProductStore::new();
    store
        .initialize_product(a, serial.clone(), "Widget".to_string(), Some(stages), 7)
        .unwrap();

    let refused = store.transfer_ownership(a, &serial, b, b);
    assert_eq!(refused, Err(SupplyChainError::UnauthorizedAccess));
    let transferred = store.transfer_ownership(a, &serial, a, b);
    assert_eq!(transferred, Ok(()));
    let after = store.product_ledger(a, &serial).unwrap();
    assert_eq!(after.product.owner, b);
    assert_eq!(after.product.status, ProductStatus::Transferred);

    let completed = store.complete_stage(a, &serial, b);
    assert_eq!(completed, Ok(()));
    let done = store.product_ledger(a, &serial).unwrap();
    assert!(done.product.stages[0].completed);
    assert_eq!(done.product.status, ProductStatus::Delivered);
}
