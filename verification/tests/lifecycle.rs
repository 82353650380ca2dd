use supply_chain::complete_stage;
use supply_chain::error::SupplyChainError;
use supply_chain::event::EventType;
use supply_chain::initialize_product;
use supply_chain::ledger::ProductLedger;
use supply_chain::log_event;
use supply_chain::product::{Principal, ProductStatus, Stage};
use supply_chain::transfer_ownership;

fn principal(id: u64) -> Principal {
    Principal { id }
}

fn stage(name: &str, owner: Option<Principal>, completed: bool) -> Stage {
    Stage { name: name.to_string(), owner, completed }
}

fn simple_product(owner: Principal) -> ProductLedger {
    initialize_product(owner, "SN1".to_string(), "Widget".to_string(), None, 7).unwrap()
}

#[test]
fn scenario_simple_flow_shipped_event() {
    let owner = principal(1);
    let mut ledger = simple_product(owner);
    assert_eq!(ledger.product.status, ProductStatus::Created);
    assert_eq!(ledger.product.events_counter, 0);
    assert_eq!(ledger.product.serial_number, "SN1");
    assert_eq!(ledger.product.description, "Widget");
    assert_eq!(ledger.product.owner, owner);
    assert_eq!(ledger.product.created_at, 7);
    assert!(ledger.product.stages.is_empty());

    let r = log_event(
        &mut ledger,
        owner,
        EventType::Shipped,
        "left warehouse".to_string(),
        None,
        8,
    );
    assert_eq!(r, Ok(0));
    assert_eq!(ledger.product.status, ProductStatus::InTransit);
    assert_eq!(ledger.product.events_counter, 1);
    assert_eq!(ledger.events.len(), 1);
    assert_eq!(ledger.events[0].event_type, EventType::Shipped);
    assert_eq!(ledger.events[0].event_index, 0);
    assert_eq!(ledger.events[0].description, "left warehouse");
    assert_eq!(ledger.events[0].stage_name, "");
    assert_eq!(ledger.events[0].timestamp, 8);
    assert_eq!(ledger.events[0].product.creator, owner);
    assert_eq!(ledger.events[0].product.serial_number, "SN1");
}

#[test]
fn scenario_staged_flow_complete_hands_off_custody() {
    let a = principal(10);
    let b = principal(20);
    let stages = vec![stage("Mfg", Some(a), false), stage("Ship", Some(b), false)];
    let mut ledger = initialize_product(
        a,
        "SN2".to_string(),
        "Widget".to_string(),
        Some(stages),
        7,
    )
    .unwrap();

    let r = log_event(&mut ledger, a, EventType::Complete, "done".to_string(), None, 8);
    assert_eq!(r, Ok(0));
    assert!(ledger.product.stages[0].completed);
    assert_eq!(ledger.product.current_stage_index, 1);
    assert_eq!(ledger.product.owner, b);
    assert_eq!(ledger.product.status, ProductStatus::Transferred);
    assert_eq!(ledger.events[0].stage_name, "Mfg");

    let by_a = log_event(&mut ledger, a, EventType::Ongoing, "again".to_string(), None, 9);
    assert_eq!(by_a, Err(SupplyChainError::UnauthorizedAccess));
    assert_eq!(ledger.product.events_counter, 1);
    assert_eq!(ledger.events.len(), 1);

    let by_b = log_event(&mut ledger, b, EventType::Ongoing, "moving".to_string(), None, 10);
    assert_eq!(by_b, Ok(1));
    assert_eq!(ledger.product.events_counter, 2);
    assert_eq!(ledger.events[1].stage_name, "Ship");
}

#[test]
fn replay_appends_a_fresh_event_never_overwrites() {
    let owner = principal(1);
    let mut ledger = simple_product(owner);
    let first = log_event(
        &mut ledger,
        owner,
        EventType::Ongoing,
        "checked".to_string(),
        None,
        8,
    );
    assert_eq!(first, Ok(0));
    let replay = log_event(
        &mut ledger,
        owner,
        EventType::Ongoing,
        "checked".to_string(),
        None,
        8,
    );
    assert_eq!(replay, Ok(1));
    assert_eq!(ledger.events.len(), 2);
    assert_eq!(ledger.events[0].event_index, 0);
    assert_eq!(ledger.events[1].event_index, 1);
    assert_eq!(ledger.events[0].description, "checked");
    assert_eq!(ledger.product.events_counter, 2);
}

#[test]
fn event_indices_stay_gap_free_over_many_calls() {
    let owner = principal(1);
    let mut ledger = simple_product(owner);
    for k in 0..5u64 {
        let r = log_event(
            &mut ledger,
            owner,
            EventType::Ongoing,
            format!("step {}", k),
            None,
            8 + k as i64,
        );
        assert_eq!(r, Ok(k));
    }
    assert_eq!(ledger.product.events_counter, 5);
    assert_eq!(ledger.events.len(), 5);
    for k in 0..5usize {
        assert_eq!(ledger.events[k].event_index, k as u64);
    }
}

#[test]
fn unauthorized_log_event_rejected_and_product_unchanged() {
    let owner = principal(1);
    let intruder = principal(2);
    let mut ledger = simple_product(owner);
    let r = log_event(
        &mut ledger,
        intruder,
        EventType::Ongoing,
        "sneaky".to_string(),
        None,
        8,
    );
    assert_eq!(r, Err(SupplyChainError::UnauthorizedAccess));
    assert_eq!(ledger.product.status, ProductStatus::Created);
    assert_eq!(ledger.product.owner, owner);
    assert_eq!(ledger.product.events_counter, 0);
    assert!(ledger.events.is_empty());
}

#[test]
fn unowned_stage_is_open_to_any_caller() {
    let a = principal(10);
    let anyone = principal(99);
    let stages = vec![stage("Open", None, false)];
    let mut ledger = initialize_product(
        a,
        "SN5".to_string(),
        "Widget".to_string(),
        Some(stages),
        7,
    )
    .unwrap();
    let r = log_event(
        &mut ledger,
        anyone,
        EventType::Ongoing,
        "note".to_string(),
        None,
        8,
    );
    assert_eq!(r, Ok(0));
    assert_eq!(ledger.events[0].stage_name, "Open");
}

#[test]
fn completed_current_stage_refuses_events() {
    let a = principal(10);
    let stages = vec![stage("Mfg", Some(a), true)];
    let mut ledger = initialize_product(
        a,
        "SN6".to_string(),
        "Widget".to_string(),
        Some(stages),
        7,
    )
    .unwrap();
    let r = log_event(&mut ledger, a, EventType::Ongoing, "note".to_string(), None, 8);
    assert_eq!(r, Err(SupplyChainError::StageNotCompleted));
    assert_eq!(ledger.product.events_counter, 0);
}

#[test]
fn delivered_is_terminal_for_log_event() {
    let a = principal(10);
    let stages = vec![stage("Only", Some(a), false)];
    let mut ledger = initialize_product(
        a,
        "SN7".to_string(),
        "Widget".to_string(),
        Some(stages),
        7,
    )
    .unwrap();
    let r = log_event(&mut ledger, a, EventType::Complete, "done".to_string(), None, 8);
    assert_eq!(r, Ok(0));
    assert_eq!(ledger.product.status, ProductStatus::Delivered);
    assert!(ledger.product.stages[0].completed);

    let locked = log_event(&mut ledger, a, EventType::Ongoing, "more".to_string(), None, 9);
    assert_eq!(locked, Err(SupplyChainError::ProductAlreadyDelivered));
    assert_eq!(ledger.product.status, ProductStatus::Delivered);
    assert_eq!(ledger.product.events_counter, 1);
    assert_eq!(ledger.events.len(), 1);

    let completed = complete_stage(&mut ledger, a);
    assert_eq!(completed, Err(SupplyChainError::ProductAlreadyDelivered));
    let transferred = transfer_ownership(&mut ledger, a, principal(20));
    assert_eq!(transferred, Err(SupplyChainError::ProductAlreadyDelivered));
}

#[test]
fn complete_stage_marks_advances_and_hands_off() {
    let a = principal(10);
    let b = principal(20);
    let stages = vec![stage("Mfg", Some(a), false), stage("Ship", Some(b), false)];
    let mut ledger = initialize_product(
        a,
        "SN8".to_string(),
        "Widget".to_string(),
        Some(stages),
        7,
    )
    .unwrap();
    let r = complete_stage(&mut ledger, a);
    assert_eq!(r, Ok(()));
    assert!(ledger.product.stages[0].completed);
    assert_eq!(ledger.product.current_stage_index, 1);
    assert_eq!(ledger.product.owner, b);
    assert_eq!(ledger.product.status, ProductStatus::Transferred);
    assert!(ledger.events.is_empty());

    let r2 = complete_stage(&mut ledger, b);
    assert_eq!(r2, Ok(()));
    assert!(ledger.product.stages[1].completed);
    assert_eq!(ledger.product.status, ProductStatus::Delivered);
}

#[test]
fn complete_stage_keeps_status_when_next_stage_unowned() {
    let a = principal(10);
    let stages = vec![stage("Mfg", Some(a), false), stage("Open", None, false)];
    let mut ledger = initialize_product(
        a,
        "SN9".to_string(),
        "Widget".to_string(),
        Some(stages),
        7,
    )
    .unwrap();
    let r = complete_stage(&mut ledger, a);
    assert_eq!(r, Ok(()));
    assert_eq!(ledger.product.current_stage_index, 1);
    assert_eq!(ledger.product.owner, a);
    assert_eq!(ledger.product.status, ProductStatus::Created);
}

#[test]
fn complete_stage_requires_owner_and_stages() {
    let a = principal(10);
    let intruder = principal(2);
    let stages = vec![stage("Mfg", Some(a), false)];
    let mut ledger = initialize_product(
        a,
        "SNA".to_string(),
        "Widget".to_string(),
        Some(stages),
        7,
    )
    .unwrap();
    let r = complete_stage(&mut ledger, intruder);
    assert_eq!(r, Err(SupplyChainError::UnauthorizedAccess));
    assert!(!ledger.product.stages[0].completed);

    let mut bare = simple_product(a);
    let r2 = complete_stage(&mut bare, a);
    assert_eq!(r2, Err(SupplyChainError::NoStages));
}

#[test]
fn transfer_ownership_is_unconditional_and_permanent() {
    let a = principal(10);
    let b = principal(20);
    let mut ledger = simple_product(a);
    let refused = transfer_ownership(&mut ledger, b, b);
    assert_eq!(refused, Err(SupplyChainError::UnauthorizedAccess));
    assert_eq!(ledger.product.owner, a);

    let r = transfer_ownership(&mut ledger, a, b);
    assert_eq!(r, Ok(()));
    assert_eq!(ledger.product.owner, b);
    assert_eq!(ledger.product.status, ProductStatus::Transferred);

    let old_owner = log_event(&mut ledger, a, EventType::Ongoing, "note".to_string(), None, 8);
    assert_eq!(old_owner, Err(SupplyChainError::UnauthorizedAccess));
    let new_owner = log_event(&mut ledger, b, EventType::Ongoing, "note".to_string(), None, 8);
    assert_eq!(new_owner, Ok(0));
}

#[test]
fn shipped_and_received_events_mark_transit_under_the_staged_policy() {
    let owner = principal(1);
    let mut ledger = simple_product(owner);
    let shipped = log_event(&mut ledger, owner, EventType::Shipped, "sent".to_string(), None, 8);
    assert_eq!(shipped, Ok(0));
    assert_eq!(ledger.product.status, ProductStatus::InTransit);
    let received = log_event(&mut ledger, owner, EventType::Received, "arrived".to_string(), None, 9);
    assert_eq!(received, Ok(1));
    assert_eq!(ledger.product.status, ProductStatus::InTransit);
    assert_eq!(ledger.events[1].event_type, EventType::Received);
}

#[test]
fn empty_stage_list_behaves_as_non_staged() {
    let a = principal(10);
    let intruder = principal(2);
    let mut ledger = initialize_product(
        a,
        "SNB".to_string(),
        "Widget".to_string(),
        Some(Vec::new()),
        7,
    )
    .unwrap();
    let refused = log_event(
        &mut ledger,
        intruder,
        EventType::Ongoing,
        "note".to_string(),
        None,
        8,
    );
    assert_eq!(refused, Err(SupplyChainError::UnauthorizedAccess));
    let r = log_event(&mut ledger, a, EventType::Ongoing, "note".to_string(), None, 8);
    assert_eq!(r, Ok(0));
    assert_eq!(ledger.events[0].stage_name, "");
}
