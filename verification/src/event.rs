use vstd::prelude::*;
use crate::product::{KeyView, ProductKey};

verus! {

/// Domain tag of what a logged event records. `Complete` is the one variant
/// with transition semantics: it completes the current stage. Every other
/// variant leaves the stage list as it is and marks the product in transit.
#[derive(Clone, Copy, PartialEq, Eq, Structural, Debug)]
pub enum EventType {
    /// Routine progress within the current stage.
    Ongoing,
    /// The item left a custodian's premises.
    Shipped,
    /// The item arrived at a custodian's premises.
    Received,
    /// The current stage is finished.
    Complete,
}

/// One immutable audit-log entry, keyed by `(product key, event_index)`.
/// Created once per successful `log_event` call and never mutated.
pub struct SupplyChainEvent {
    /// Back-reference to the product the event belongs to.
    pub product: ProductKey,
    pub event_type: EventType,
    /// 1-200 characters.
    pub description: String,
    /// Name of the stage active when the event was recorded; empty for the
    /// non-staged flow.
    pub stage_name: String,
    /// Creation time, immutable.
    pub timestamp: i64,
    /// Equals the product's `events_counter` before its increment; forms a
    /// gap-free 0-based sequence per product.
    pub event_index: u64,
}

/// Mathematical model of a [`SupplyChainEvent`].
#[verifier::ext_equal]
pub struct EventView {
    pub product: KeyView,
    pub event_type: EventType,
    pub description: Seq<char>,
    pub stage_name: Seq<char>,
    pub timestamp: i64,
    pub event_index: u64,
}

impl View for SupplyChainEvent {
    type V = EventView;

    open spec fn view(&self) -> EventView {
        EventView {
            product: self.product@,
            event_type: self.event_type,
            description: self.description@,
            stage_name: self.stage_name@,
            timestamp: self.timestamp,
            event_index: self.event_index,
        }
    }
}

impl DeepView for SupplyChainEvent {
    type V = EventView;

    open spec fn deep_view(&self) -> EventView {
        self.view()
    }
}

} // verus!
