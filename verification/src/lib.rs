//! A supply-chain custody tracker: each physical item is a `Product` moving
//! through a stage-gated lifecycle, every state change is recorded as an
//! immutable, sequentially-indexed `SupplyChainEvent`, and only the
//! currently-authorized principal may advance the item's state.
//!
//! The lifecycle engine lives in [`instructions`]; the four operations here
//! apply it to a [`ledger::ProductLedger`], the committed state of one
//! product, and keep its audit trail gap-free. [`store::ProductStore`] keys
//! ledgers by `(creator, serial_number)`.

pub mod error;
pub mod event;
pub mod instructions;
pub mod laws;
pub mod ledger;
pub mod product;
pub mod store;

use vstd::prelude::*;
use crate::error::SupplyChainError;
use crate::event::EventType;
use crate::instructions::{
    initialize_check, initialized_product, log_event_spec, complete_stage_check,
    complete_stage_step, transfer_ownership_check, transferred_product,
    process_complete_stage, process_initialize_product, process_log_event,
    process_transfer_ownership,
};
use crate::ledger::ProductLedger;
use crate::product::{KeyView, Principal, ProductKey, Stage};

verus! {

/// Creates the committed ledger of a new product: the record
/// [`initialized_product`] describes, keyed by the caller and the serial
/// number, with an empty event log.
///
/// Fails exactly as [`initialize_check`] says; `DuplicateKey` is the
/// store's concern (see [`store::ProductStore::initialize_product`]).
pub fn initialize_product(
    caller: Principal,
    serial_number: String,
    description: String,
    stages: Option<Vec<Stage>>,
    now: i64,
) -> (r: Result<ProductLedger, SupplyChainError>)
    ensures
        match initialize_check(serial_number@, description@, stages.deep_view()) {
            Ok(()) => {
                &&& r matches Ok(l)
                &&& r matches Ok(l) ==> {
                    &&& l.wf()
                    &&& l@.key == (KeyView { creator: caller, serial_number: serial_number@ })
                    &&& l@.product == initialized_product(
                        caller,
                        serial_number@,
                        description@,
                        stages.deep_view(),
                        now,
                    )
                    &&& l@.events == Seq::<crate::event::EventView>::empty()
                }
            },
            Err(e) => r == Err::<ProductLedger, SupplyChainError>(e),
        },
{
    let key_serial = serial_number.clone();
    match process_initialize_product(caller, serial_number, description, stages, now) {
        Ok(product) => {
            let ledger = ProductLedger {
                key: ProductKey { creator: caller, serial_number: key_serial },
                product: product,
                events: Vec::new(),
            };
            proof {
                assert(ledger@.events =~= Seq::<crate::event::EventView>::empty());
            }
            Ok(ledger)
        },
        Err(e) => Err(e),
    }
}

/// Logs one event against the product and appends it to the committed event
/// log; returns the new event's index. The outcome — which error, or how the
/// product steps and what the event carries — is exactly
/// [`log_event_spec`] applied to the ledger's product and key.
///
/// A successful call appends to the log and never rewrites it: the previous
/// events stay untouched, and the new event takes the next index. A failed
/// call leaves the ledger exactly as it was.
pub fn log_event(
    ledger: &mut ProductLedger,
    caller: Principal,
    event_type: EventType,
    description: String,
    stage_name: Option<String>,
    now: i64,
) -> (r: Result<u64, SupplyChainError>)
    requires
        old(ledger).wf(),
    ensures
        final(ledger).wf(),
        final(ledger)@.key == old(ledger)@.key,
        match log_event_spec(
            old(ledger)@.product,
            old(ledger)@.key,
            caller,
            event_type,
            description@,
            stage_name.deep_view(),
            now,
        ) {
            Ok(pe) => {
                &&& r matches Ok(ix)
                &&& r matches Ok(ix) ==> ix == old(ledger)@.product.events_counter
                &&& final(ledger)@.product == pe.0
                &&& final(ledger)@.events == old(ledger)@.events.push(pe.1)
            },
            Err(err) => {
                &&& r == Err::<u64, SupplyChainError>(err)
                &&& final(ledger)@ == old(ledger)@
            },
        },
{
    let index = ledger.product.events_counter;
    match process_log_event(
        &mut ledger.product,
        &ledger.key,
        caller,
        event_type,
        description,
        stage_name,
        now,
    ) {
        Ok(event) => {
            ledger.events.push(event);
            proof {
                assert(ledger@.events =~= old(ledger)@.events.push(
                    log_event_spec(
                        old(ledger)@.product,
                        old(ledger)@.key,
                        caller,
                        event_type,
                        description@,
                        stage_name.deep_view(),
                        now,
                    )->Ok_0.1,
                ));
            }
            Ok(index)
        },
        Err(e) => {
            proof {
                assert(ledger@ =~= old(ledger)@);
            }
            Err(e)
        },
    }
}

/// Marks the product's current stage completed, advancing custody as
/// [`complete_stage_step`] describes; the owner-only shortcut beside the
/// `Complete`-typed [`log_event`] path. No event is emitted, so the event
/// log stays as it is. Fails exactly as [`complete_stage_check`] says and
/// then leaves the ledger exactly as it was.
pub fn complete_stage(ledger: &mut ProductLedger, caller: Principal) -> (r: Result<
    (),
    SupplyChainError,
>)
    requires
        old(ledger).wf(),
    ensures
        final(ledger).wf(),
        final(ledger)@.key == old(ledger)@.key,
        final(ledger)@.events == old(ledger)@.events,
        match complete_stage_check(old(ledger)@.product, caller) {
            Ok(()) => r matches Ok(()) && final(ledger)@.product == complete_stage_step(
                old(ledger)@.product,
            ),
            Err(err) => {
                &&& r == Err::<(), SupplyChainError>(err)
                &&& final(ledger)@ == old(ledger)@
            },
        },
{
    let r = process_complete_stage(&mut ledger.product, caller);
    r
}

/// Hands custody of the product to `new_owner`; see
/// [`transferred_product`]. No event is emitted. Fails exactly as
/// [`transfer_ownership_check`] says and then leaves the ledger exactly as
/// it was.
pub fn transfer_ownership(
    ledger: &mut ProductLedger,
    caller: Principal,
    new_owner: Principal,
) -> (r: Result<(), SupplyChainError>)
    requires
        old(ledger).wf(),
    ensures
        final(ledger).wf(),
        final(ledger)@.key == old(ledger)@.key,
        final(ledger)@.events == old(ledger)@.events,
        match transfer_ownership_check(old(ledger)@.product, caller) {
            Ok(()) => r matches Ok(()) && final(ledger)@.product == transferred_product(
                old(ledger)@.product,
                new_owner,
            ),
            Err(err) => {
                &&& r == Err::<(), SupplyChainError>(err)
                &&& final(ledger)@ == old(ledger)@
            },
        },
{
    let r = process_transfer_ownership(&mut ledger.product, caller, new_owner);
    r
}

} // verus!
