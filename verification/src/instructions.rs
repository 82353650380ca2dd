use vstd::prelude::*;
use vstd::string::StrSliceExecFns;
use crate::error::SupplyChainError;
use crate::event::{EventType, EventView, SupplyChainEvent};
use crate::product::{
    description_ok, serial_number_ok, stage_name_ok, KeyView, Principal, Product, ProductKey,
    ProductStatus, ProductView, Stage, StageView, MAX_DESCRIPTION_LEN, MAX_NAME_LEN, MAX_STAGES,
};

verus! {

/// Character count of a string slice.
fn char_len(s: &str) -> (n: usize)
    ensures
        n == s@.len(),
{
    s.unicode_len()
}

/// Which error, if any, `initialize` reports for the given inputs, in the
/// order the preconditions are evaluated: serial number bounds, description
/// bounds, stage count, stage name bounds.
pub open spec fn initialize_check(
    serial_number: Seq<char>,
    description: Seq<char>,
    stages: Option<Seq<StageView>>,
) -> Result<(), SupplyChainError> {
    if !serial_number_ok(serial_number) {
        Err(SupplyChainError::InvalidSerialNumber)
    } else if !description_ok(description) {
        Err(SupplyChainError::InvalidDescription)
    } else {
        match stages {
            Some(s) => {
                if s.len() > MAX_STAGES {
                    Err(SupplyChainError::TooManyStages)
                } else if exists|i: int| 0 <= i < s.len() && !stage_name_ok((#[trigger] s[i]).name) {
                    Err(SupplyChainError::InvalidStageName)
                } else {
                    Ok(())
                }
            },
            None => Ok(()),
        }
    }
}

/// The product record `initialize` creates on success: owned by the caller,
/// `Created`, zero events, the provided stages verbatim (or none), and the
/// stage position at 0.
pub open spec fn initialized_product(
    caller: Principal,
    serial_number: Seq<char>,
    description: Seq<char>,
    stages: Option<Seq<StageView>>,
    now: i64,
) -> crate::product::ProductView {
    crate::product::ProductView {
        owner: caller,
        serial_number: serial_number,
        description: description,
        status: ProductStatus::Created,
        created_at: now,
        events_counter: 0,
        stages: match stages {
            Some(s) => s,
            None => Seq::empty(),
        },
        current_stage_index: 0,
    }
}

/// Creates a new product record owned by `caller`.
///
/// Fails with `InvalidSerialNumber` unless the serial number is 1-50
/// characters, with `InvalidDescription` unless the description is 1-200
/// characters, with `TooManyStages` when more than `MAX_STAGES` stages are
/// supplied, and with `InvalidStageName` when a supplied stage name is not
/// 1-50 characters. On success the record holds the supplied stages
/// verbatim, status `Created`, creation time `now`, and an event counter
/// of 0.
#[verifier::loop_isolation(false)]
pub fn process_initialize_product(
    caller: Principal,
    serial_number: String,
    description: String,
    stages: Option<Vec<Stage>>,
    now: i64,
) -> (r: Result<Product, SupplyChainError>)
    ensures
        match initialize_check(serial_number@, description@, stages.deep_view()) {
            Ok(()) => {
                &&& r matches Ok(p)
                &&& r matches Ok(p) ==> p@ == initialized_product(
                    caller,
                    serial_number@,
                    description@,
                    stages.deep_view(),
                    now,
                )
                &&& r matches Ok(p) ==> p.wf()
            },
            Err(e) => r == Err::<Product, SupplyChainError>(e),
        },
{
    let serial_len = char_len(serial_number.as_str());
    if serial_len < 1 || serial_len > MAX_NAME_LEN {
        return Err(SupplyChainError::InvalidSerialNumber);
    }
    let desc_len = char_len(description.as_str());
    if desc_len < 1 || desc_len > MAX_DESCRIPTION_LEN {
        return Err(SupplyChainError::InvalidDescription);
    }
    let stage_list: Vec<Stage> = if stages.is_some() {
        let s = stages.unwrap();
        if s.len() > MAX_STAGES {
            return Err(SupplyChainError::TooManyStages);
        }
        for i in 0..s.len()
            invariant
                forall|j: int| 0 <= j < i ==> stage_name_ok(#[trigger] s.deep_view()[j].name),
        {
            let name_len = char_len(s[i].name.as_str());
            if name_len < 1 || name_len > MAX_NAME_LEN {
                proof {
                    let sv = s.deep_view();
                    assert(sv[i as int].name == s@[i as int].name@);
                    assert(exists|k: int| 0 <= k < sv.len() && !stage_name_ok((#[trigger] sv[k]).name));
                }
                return Err(SupplyChainError::InvalidStageName);
            }
        }
        s
    } else {
        Vec::new()
    };
    let product = Product {
        owner: caller,
        serial_number,
        description,
        status: ProductStatus::Created,
        created_at: now,
        events_counter: 0,
        stages: stage_list,
        current_stage_index: 0,
    };
    proof {
        assert(product.stages.deep_view() =~= match stages.deep_view() {
            Some(s) => s,
            None => Seq::<StageView>::empty(),
        });
        assert(product@ =~= initialized_product(
            caller,
            product.serial_number@,
            product.description@,
            stages.deep_view(),
            now,
        ));
    }
    Ok(product)
}

/// Which error, if any, `log_event` reports, in the order the preconditions
/// are evaluated: description bounds, the terminal lock, the current stage
/// (not yet completed, caller matches its owner when one is declared), the
/// product owner for the non-staged flow, the supplied stage name and the
/// stage limit for the lazy-stage flow, and finally the event counter.
pub open spec fn log_event_check(
    p: ProductView,
    caller: Principal,
    event_type: EventType,
    description: Seq<char>,
    stage_name: Option<Seq<char>>,
) -> Result<(), SupplyChainError> {
    if !description_ok(description) {
        Err(SupplyChainError::InvalidDescription)
    } else if p.status is Delivered {
        Err(SupplyChainError::ProductAlreadyDelivered)
    } else if p.stages.len() > 0 && p.stages[p.current_stage_index as int].completed {
        Err(SupplyChainError::StageNotCompleted)
    } else if p.stages.len() > 0 && {
        let stage_owner = p.stages[p.current_stage_index as int].owner;
        stage_owner matches Some(o) && o != caller
    } {
        Err(SupplyChainError::UnauthorizedAccess)
    } else if p.stages.len() == 0 && stage_name is None && caller != p.owner {
        Err(SupplyChainError::UnauthorizedAccess)
    } else if stage_name matches Some(n) && !stage_name_ok(n) {
        Err(SupplyChainError::InvalidStageName)
    } else if stage_name is Some && p.stages.len() >= MAX_STAGES {
        Err(SupplyChainError::TooManyStages)
    } else if p.events_counter == u64::MAX {
        Err(SupplyChainError::CounterOverflow)
    } else {
        Ok(())
    }
}

/// The product state after a successful `log_event`, except for the event
/// counter, together with the stage name the event records.
///
/// With a supplied `stage_name` (the lazy-stage flow) a stage owned by the
/// caller is appended and becomes current; completing it delivers the
/// product, since the appended stage is its last. Otherwise, on a staged
/// product a `Complete` event completes the current stage: with a next stage
/// the position advances and, when the next stage declares an owner, custody
/// transfers to it; without one the product is delivered. Any other
/// successful event marks the product in transit.
pub open spec fn log_event_step(
    p: ProductView,
    caller: Principal,
    event_type: EventType,
    stage_name: Option<Seq<char>>,
) -> (ProductView, Seq<char>) {
    if stage_name is Some {
        let n = stage_name->0;
        let stage = StageView { name: n, owner: Some(caller), completed: event_type is Complete };
        let stepped = ProductView {
            stages: p.stages.push(stage),
            current_stage_index: p.stages.len() as u8,
            status: if event_type is Complete {
                ProductStatus::Delivered
            } else {
                ProductStatus::InTransit
            },
            ..p
        };
        (stepped, n)
    } else if p.stages.len() > 0 {
        let idx = p.current_stage_index as int;
        let current = p.stages[idx];
        if event_type is Complete {
            let stages = p.stages.update(idx, StageView { completed: true, ..current });
            let stepped = if idx + 1 < p.stages.len() {
                ProductView {
                    stages: stages,
                    current_stage_index: (idx + 1) as u8,
                    owner: match stages[idx + 1].owner {
                        Some(o) => o,
                        None => p.owner,
                    },
                    status: if stages[idx + 1].owner is Some {
                        ProductStatus::Transferred
                    } else {
                        ProductStatus::InTransit
                    },
                    ..p
                }
            } else {
                ProductView { stages: stages, status: ProductStatus::Delivered, ..p }
            };
            (stepped, current.name)
        } else {
            (ProductView { status: ProductStatus::InTransit, ..p }, current.name)
        }
    } else {
        (ProductView { status: ProductStatus::InTransit, ..p }, Seq::empty())
    }
}

/// The full outcome of `log_event`: either the error [`log_event_check`]
/// reports, or the successor product of [`log_event_step`] with its event
/// counter incremented, paired with the emitted event. The event carries the
/// counter value before the increment as its index.
pub open spec fn log_event_spec(
    p: ProductView,
    key: KeyView,
    caller: Principal,
    event_type: EventType,
    description: Seq<char>,
    stage_name: Option<Seq<char>>,
    now: i64,
) -> Result<(ProductView, EventView), SupplyChainError> {
    match log_event_check(p, caller, event_type, description, stage_name) {
        Err(e) => Err(e),
        Ok(()) => {
            let (stepped, event_stage) = log_event_step(p, caller, event_type, stage_name);
            let new_product = ProductView {
                events_counter: (p.events_counter + 1) as u64,
                ..stepped
            };
            let event = EventView {
                product: key,
                event_type: event_type,
                description: description,
                stage_name: event_stage,
                timestamp: now,
                event_index: p.events_counter,
            };
            Ok((new_product, event))
        },
    }
}

/// Records one event against the product: the central state-transition
/// operation.
///
/// All preconditions are checked before any write, so a failed call leaves
/// the product exactly as it was; [`log_event_check`] names the error and
/// the order the preconditions are evaluated in. On success the product
/// steps to [`log_event_step`] with its event counter incremented by exactly
/// one, and the returned event carries the previous counter value as its
/// index, the stage name the step selected, the timestamp `now`, and a
/// back-reference to `key`.
#[verifier::loop_isolation(false)]
pub fn process_log_event(
    product: &mut Product,
    key: &ProductKey,
    caller: Principal,
    event_type: EventType,
    description: String,
    stage_name: Option<String>,
    now: i64,
) -> (r: Result<SupplyChainEvent, SupplyChainError>)
    requires
        old(product).wf(),
    ensures
        final(product).wf(),
        match log_event_spec(
            old(product)@,
            key@,
            caller,
            event_type,
            description@,
            stage_name.deep_view(),
            now,
        ) {
            Ok(pe) => {
                &&& r matches Ok(e)
                &&& r matches Ok(e) ==> e@ == pe.1
                &&& final(product)@ == pe.0
            },
            Err(err) => {
                &&& r == Err::<SupplyChainEvent, SupplyChainError>(err)
                &&& *final(product) == *old(product)
            },
        },
{
    let desc_len = char_len(description.as_str());
    if desc_len < 1 || desc_len > MAX_DESCRIPTION_LEN {
        return Err(SupplyChainError::InvalidDescription);
    }
    if product.status == ProductStatus::Delivered {
        return Err(SupplyChainError::ProductAlreadyDelivered);
    }
    let has_stages = product.stages.len() > 0;
    if has_stages {
        let idx = product.current_stage_index as usize;
        let current = &product.stages[idx];
        if current.completed {
            return Err(SupplyChainError::StageNotCompleted);
        }
        if let Some(stage_owner) = current.owner {
            if stage_owner != caller {
                return Err(SupplyChainError::UnauthorizedAccess);
            }
        }
    } else {
        if stage_name.is_none() && caller != product.owner {
            return Err(SupplyChainError::UnauthorizedAccess);
        }
    }
    if product.events_counter == u64::MAX && stage_name.is_none() {
        return Err(SupplyChainError::CounterOverflow);
    }
    let event_stage_name: String = if stage_name.is_some() {
        let name = stage_name.unwrap();
        let name_len = char_len(name.as_str());
        if name_len < 1 || name_len > MAX_NAME_LEN {
            return Err(SupplyChainError::InvalidStageName);
        }
        if product.stages.len() >= MAX_STAGES {
            return Err(SupplyChainError::TooManyStages);
        }
        if product.events_counter == u64::MAX {
            return Err(SupplyChainError::CounterOverflow);
        }
        let stage = Stage {
            name: name.clone(),
            owner: Some(caller),
            completed: event_type == EventType::Complete,
        };
        product.stages.push(stage);
        product.current_stage_index = (product.stages.len() - 1) as u8;
        product.status = if event_type == EventType::Complete {
            ProductStatus::Delivered
        } else {
            ProductStatus::InTransit
        };
        name
    } else if has_stages {
        let idx = product.current_stage_index as usize;
        let recorded_name = product.stages[idx].name.clone();
        if event_type == EventType::Complete {
            let updated = Stage {
                name: product.stages[idx].name.clone(),
                owner: product.stages[idx].owner,
                completed: true,
            };
            product.stages[idx] = updated;
            if idx + 1 < product.stages.len() {
                product.current_stage_index = (idx + 1) as u8;
                if let Some(next_owner) = product.stages[idx + 1].owner {
                    product.owner = next_owner;
                    product.status = ProductStatus::Transferred;
                } else {
                    product.status = ProductStatus::InTransit;
                }
            } else {
                product.status = ProductStatus::Delivered;
            }
        } else {
            product.status = ProductStatus::InTransit;
        }
        recorded_name
    } else {
        product.status = ProductStatus::InTransit;
        String::new()
    };
    let event = SupplyChainEvent {
        product: ProductKey { creator: key.creator, serial_number: key.serial_number.clone() },
        event_type: event_type,
        description: description,
        stage_name: event_stage_name,
        timestamp: now,
        event_index: product.events_counter,
    };
    product.events_counter = product.events_counter + 1;
    proof {
        let spec_out = log_event_spec(
            old(product)@,
            key@,
            caller,
            event_type,
            description@,
            stage_name.deep_view(),
            now,
        );
        assert(product.stages.deep_view() =~= log_event_step(
            old(product)@,
            caller,
            event_type,
            stage_name.deep_view(),
        ).0.stages);
        assert(product@ =~= spec_out->Ok_0.0);
        assert(event@ =~= spec_out->Ok_0.1);
    }
    Ok(event)
}

/// Which error, if any, `complete_stage` reports, in the order the
/// preconditions are evaluated: the caller must be the product owner, the
/// product must not be delivered, and stages must be present. The
/// well-formedness invariant keeps the stage position inside the stage list,
/// so `InvalidStageIndex` never arises on a well-formed product.
pub open spec fn complete_stage_check(p: ProductView, caller: Principal) -> Result<
    (),
    SupplyChainError,
> {
    if caller != p.owner {
        Err(SupplyChainError::UnauthorizedAccess)
    } else if p.status is Delivered {
        Err(SupplyChainError::ProductAlreadyDelivered)
    } else if p.stages.len() == 0 {
        Err(SupplyChainError::NoStages)
    } else {
        Ok(())
    }
}

/// The product state after a successful `complete_stage`: the current stage
/// is marked completed. With a next stage the position advances and, when
/// that stage declares an owner, custody transfers to it; without a next
/// stage the product is delivered. The status is left as it was when the
/// position advances to a stage without a declared owner.
pub open spec fn complete_stage_step(p: ProductView) -> ProductView {
    let idx = p.current_stage_index as int;
    let stages = p.stages.update(idx, StageView { completed: true, ..p.stages[idx] });
    if idx + 1 < p.stages.len() {
        ProductView {
            stages: stages,
            current_stage_index: (idx + 1) as u8,
            owner: match stages[idx + 1].owner {
                Some(o) => o,
                None => p.owner,
            },
            status: if stages[idx + 1].owner is Some {
                ProductStatus::Transferred
            } else {
                p.status
            },
            ..p
        }
    } else {
        ProductView { stages: stages, status: ProductStatus::Delivered, ..p }
    }
}

/// Marks the current stage completed: the owner-only shortcut beside the
/// `Complete`-typed `log_event` path. Both keep the stage progression
/// identical; this one emits no event.
///
/// Fails with `UnauthorizedAccess` unless the caller is the product owner,
/// with `ProductAlreadyDelivered` on a terminal product, and with `NoStages`
/// when the product has no stages; a failed call leaves the product exactly
/// as it was. On success the product steps to [`complete_stage_step`].
pub fn process_complete_stage(product: &mut Product, caller: Principal) -> (r: Result<
    (),
    SupplyChainError,
>)
    requires
        old(product).wf(),
    ensures
        final(product).wf(),
        match complete_stage_check(old(product)@, caller) {
            Ok(()) => r matches Ok(()) && final(product)@ == complete_stage_step(old(product)@),
            Err(err) => {
                &&& r == Err::<(), SupplyChainError>(err)
                &&& *final(product) == *old(product)
            },
        },
{
    if caller != product.owner {
        return Err(SupplyChainError::UnauthorizedAccess);
    }
    if product.status == ProductStatus::Delivered {
        return Err(SupplyChainError::ProductAlreadyDelivered);
    }
    if product.stages.len() == 0 {
        return Err(SupplyChainError::NoStages);
    }
    let idx = product.current_stage_index as usize;
    let updated = Stage {
        name: product.stages[idx].name.clone(),
        owner: product.stages[idx].owner,
        completed: true,
    };
    product.stages[idx] = updated;
    if idx + 1 < product.stages.len() {
        product.current_stage_index = (idx + 1) as u8;
        if let Some(next_owner) = product.stages[idx + 1].owner {
            product.owner = next_owner;
            product.status = ProductStatus::Transferred;
        }
    } else {
        product.status = ProductStatus::Delivered;
    }
    proof {
        assert(product.stages.deep_view() =~= complete_stage_step(old(product)@).stages);
        assert(product@ =~= complete_stage_step(old(product)@));
    }
    Ok(())
}

/// Which error, if any, `transfer_ownership` reports: the caller must be the
/// product owner, and the product must not be delivered.
pub open spec fn transfer_ownership_check(p: ProductView, caller: Principal) -> Result<
    (),
    SupplyChainError,
> {
    if caller != p.owner {
        Err(SupplyChainError::UnauthorizedAccess)
    } else if p.status is Delivered {
        Err(SupplyChainError::ProductAlreadyDelivered)
    } else {
        Ok(())
    }
}

/// The product state after a successful `transfer_ownership`.
pub open spec fn transferred_product(p: ProductView, new_owner: Principal) -> ProductView {
    ProductView { owner: new_owner, status: ProductStatus::Transferred, ..p }
}

/// Hands custody to `new_owner` unconditionally and permanently: the prior
/// owner loses all further authorization over the product. Independent of
/// the stage mechanism; emits no event.
///
/// Fails with `UnauthorizedAccess` unless the caller is the product owner
/// and with `ProductAlreadyDelivered` on a terminal product; a failed call
/// leaves the product exactly as it was.
pub fn process_transfer_ownership(
    product: &mut Product,
    caller: Principal,
    new_owner: Principal,
) -> (r: Result<(), SupplyChainError>)
    requires
        old(product).wf(),
    ensures
        final(product).wf(),
        match transfer_ownership_check(old(product)@, caller) {
            Ok(()) => r matches Ok(()) && final(product)@ == transferred_product(
                old(product)@,
                new_owner,
            ),
            Err(err) => {
                &&& r == Err::<(), SupplyChainError>(err)
                &&& *final(product) == *old(product)
            },
        },
{
    if caller != product.owner {
        return Err(SupplyChainError::UnauthorizedAccess);
    }
    if product.status == ProductStatus::Delivered {
        return Err(SupplyChainError::ProductAlreadyDelivered);
    }
    product.owner = new_owner;
    product.status = ProductStatus::Transferred;
    proof {
        assert(product@ =~= transferred_product(old(product)@, new_owner));
    }
    Ok(())
}

} // verus!
