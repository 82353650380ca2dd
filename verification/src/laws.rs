use vstd::prelude::*;
use crate::error::SupplyChainError;
use crate::event::{EventType, EventView};
use crate::instructions::{
    complete_stage_check, complete_stage_step, log_event_spec, log_event_step,
    transfer_ownership_check,
};
use crate::ledger::{ledger_wf, LedgerView};
use crate::product::{description_ok, product_wf, KeyView, Principal, ProductView};

verus! {

/// Law: in any well-formed committed ledger the event indices are exactly
/// `0..events_counter` — the log holds `events_counter` events, the event at
/// position `k` carries index `k`, and no two events share an index. No
/// gaps, no duplicates, no reordering.
pub proof fn lemma_event_indices_gap_free(l: LedgerView)
    requires
        ledger_wf(l),
    ensures
        l.events.len() == l.product.events_counter,
        forall|k: int| 0 <= k < l.product.events_counter ==> (#[trigger] l.events[k]).event_index
            == k,
        forall|i: int, j: int|
            0 <= i < l.events.len() && 0 <= j < l.events.len() && i != j ==> (
            #[trigger] l.events[i]).event_index != (#[trigger] l.events[j]).event_index,
{
}

/// Law: replaying a successful `log_event` — the same arguments, submitted
/// again against the state the first call committed — yields a fresh event
/// whose index is one past the first event's. The first event is never
/// overwritten; `log_event`'s own contract adds that the log only ever grows
/// by appending.
pub proof fn lemma_replay_appends_fresh_event(
    p: ProductView,
    key: KeyView,
    caller: Principal,
    event_type: EventType,
    description: Seq<char>,
    stage_name: Option<Seq<char>>,
    now: i64,
    then: i64,
)
    requires
        log_event_spec(p, key, caller, event_type, description, stage_name, now) is Ok,
        log_event_spec(
            log_event_spec(p, key, caller, event_type, description, stage_name, now)->Ok_0.0,
            key,
            caller,
            event_type,
            description,
            stage_name,
            then,
        ) is Ok,
    ensures
        log_event_spec(
            log_event_spec(p, key, caller, event_type, description, stage_name, now)->Ok_0.0,
            key,
            caller,
            event_type,
            description,
            stage_name,
            then,
        )->Ok_0.1.event_index == log_event_spec(
            p,
            key,
            caller,
            event_type,
            description,
            stage_name,
            now,
        )->Ok_0.1.event_index + 1,
{
}

/// Law: in the simple (non-staged) flow replay is always enabled: an
/// owner-submitted event with an in-bounds description against a
/// non-terminal product succeeds, and — short of the counter cap — so does
/// submitting the same call again.
pub proof fn lemma_replay_enabled_in_simple_flow(
    p: ProductView,
    key: KeyView,
    caller: Principal,
    event_type: EventType,
    description: Seq<char>,
    now: i64,
    then: i64,
)
    requires
        product_wf(p),
        p.stages.len() == 0,
        caller == p.owner,
        description_ok(description),
        !(p.status is Delivered),
        p.events_counter + 1 < u64::MAX,
    ensures
        log_event_spec(p, key, caller, event_type, description, None, now) is Ok,
        log_event_spec(
            log_event_spec(p, key, caller, event_type, description, None, now)->Ok_0.0,
            key,
            caller,
            event_type,
            description,
            None,
            then,
        ) is Ok,
{
}

/// The principal that must authorize a `log_event` call, when the rules name
/// one: the current stage's declared owner on a staged product, the product
/// owner on a product without stages. None means the call is open to any
/// caller — the current stage declares no owner, or the lazy-stage flow is
/// bootstrapping a product without stages.
pub open spec fn log_event_required_authorizer(
    p: ProductView,
    stage_name: Option<Seq<char>>,
) -> Option<Principal> {
    if p.stages.len() > 0 {
        p.stages[p.current_stage_index as int].owner
    } else if stage_name is None {
        Some(p.owner)
    } else {
        None
    }
}

/// Law: a `log_event` call by a principal other than the required authorizer
/// fails with `UnauthorizedAccess`, whatever the event type, stage name or
/// timestamp — provided the preconditions checked earlier hold: an in-bounds
/// description, a non-terminal product, a current stage not yet completed.
/// `log_event`'s own contract adds that the failed call leaves the ledger
/// unchanged.
pub proof fn lemma_log_event_unauthorized_rejected(
    p: ProductView,
    key: KeyView,
    caller: Principal,
    event_type: EventType,
    description: Seq<char>,
    stage_name: Option<Seq<char>>,
    now: i64,
)
    requires
        description_ok(description),
        !(p.status is Delivered),
        p.stages.len() > 0 ==> !p.stages[p.current_stage_index as int].completed,
        log_event_required_authorizer(p, stage_name) matches Some(authorizer) && authorizer
            != caller,
    ensures
        log_event_spec(p, key, caller, event_type, description, stage_name, now) == Err::<
            (ProductView, EventView),
            SupplyChainError,
        >(SupplyChainError::UnauthorizedAccess),
{
}

/// Law: a `complete_stage` or `transfer_ownership` call by a principal other
/// than the product owner fails with `UnauthorizedAccess`, unconditionally.
/// The operations' own contracts add that the failed call leaves the ledger
/// unchanged.
pub proof fn lemma_owner_ops_unauthorized_rejected(p: ProductView, caller: Principal)
    requires
        caller != p.owner,
    ensures
        complete_stage_check(p, caller) == Err::<(), SupplyChainError>(
            SupplyChainError::UnauthorizedAccess,
        ),
        transfer_ownership_check(p, caller) == Err::<(), SupplyChainError>(
            SupplyChainError::UnauthorizedAccess,
        ),
{
}

/// Law: `Delivered` is terminal. Any `log_event` against a delivered product
/// fails — with `ProductAlreadyDelivered` once the description passes its
/// bounds check — and so do `complete_stage` and `transfer_ownership` for
/// the product owner (a foreign caller is turned away as unauthorized
/// first). The operations' own contracts add that the failed call leaves the
/// ledger unchanged.
pub proof fn lemma_delivered_is_terminal(
    p: ProductView,
    key: KeyView,
    caller: Principal,
    event_type: EventType,
    description: Seq<char>,
    stage_name: Option<Seq<char>>,
    now: i64,
)
    requires
        p.status is Delivered,
    ensures
        log_event_spec(p, key, caller, event_type, description, stage_name, now) is Err,
        description_ok(description) ==> log_event_spec(
            p,
            key,
            caller,
            event_type,
            description,
            stage_name,
            now,
        ) == Err::<(ProductView, EventView), SupplyChainError>(
            SupplyChainError::ProductAlreadyDelivered,
        ),
        complete_stage_check(p, caller) is Err,
        transfer_ownership_check(p, caller) is Err,
        caller == p.owner ==> complete_stage_check(p, caller) == Err::<(), SupplyChainError>(
            SupplyChainError::ProductAlreadyDelivered,
        ),
        caller == p.owner ==> transfer_ownership_check(p, caller) == Err::<(), SupplyChainError>(
            SupplyChainError::ProductAlreadyDelivered,
        ),
{
}

/// Law: a completed stage never becomes incomplete again. Every stage
/// completed before a successful `log_event` or `complete_stage` step is
/// still completed, at the same position, after it.
pub proof fn lemma_completed_stages_stay_completed(
    p: ProductView,
    caller: Principal,
    event_type: EventType,
    stage_name: Option<Seq<char>>,
)
    requires
        product_wf(p),
    ensures
        forall|i: int|
            0 <= i < p.stages.len() && (#[trigger] p.stages[i]).completed ==> log_event_step(
                p,
                caller,
                event_type,
                stage_name,
            ).0.stages[i].completed,
        forall|i: int|
            0 <= i < p.stages.len() && (#[trigger] p.stages[i]).completed
                ==> complete_stage_step(p).stages[i].completed,
{
    let idx = p.current_stage_index as int;
    let logged = log_event_step(p, caller, event_type, stage_name).0;
    assert forall|i: int|
        0 <= i < p.stages.len() && (#[trigger] p.stages[i]).completed implies logged.stages[i].completed by {
        if stage_name is None && p.stages.len() > 0 && event_type is Complete && i != idx {
            assert(logged.stages[i] == p.stages[i]);
        }
    };
    assert forall|i: int|
        0 <= i < p.stages.len() && (#[trigger] p.stages[i]).completed implies complete_stage_step(
        p,
    ).stages[i].completed by {
        if p.stages.len() > 0 && i != idx {
            assert(complete_stage_step(p).stages[i] == p.stages[i]);
        }
    };
}

} // verus!
