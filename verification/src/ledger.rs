use vstd::prelude::*;
use crate::event::{EventView, SupplyChainEvent};
use crate::product::{product_wf, KeyView, Product, ProductKey, ProductView};

verus! {

/// The committed state of one tracked product: its key in the record store,
/// its current lifecycle record, and its append-only event log. Events are
/// keyed by `(key, event_index)`, so position `i` of `events` holds the
/// event with index `i`.
pub struct ProductLedger {
    pub key: ProductKey,
    pub product: Product,
    pub events: Vec<SupplyChainEvent>,
}

/// Mathematical model of a [`ProductLedger`].
#[verifier::ext_equal]
pub struct LedgerView {
    pub key: KeyView,
    pub product: ProductView,
    pub events: Seq<EventView>,
}

impl View for ProductLedger {
    type V = LedgerView;

    open spec fn view(&self) -> LedgerView {
        LedgerView {
            key: self.key@,
            product: self.product@,
            events: self.events.deep_view(),
        }
    }
}

impl DeepView for ProductLedger {
    type V = LedgerView;

    open spec fn deep_view(&self) -> LedgerView {
        self.view()
    }
}

/// Well-formedness of a committed ledger, established at initialization and
/// preserved by every operation: the product is well-formed, the key carries
/// the product's serial number, exactly `events_counter` events are
/// committed, the event at position `i` carries index `i` — the indices form
/// the gap-free sequence `0..events_counter` — and every event refers back
/// to this product's key.
pub open spec fn ledger_wf(l: LedgerView) -> bool {
    &&& product_wf(l.product)
    &&& l.key.serial_number == l.product.serial_number
    &&& l.events.len() == l.product.events_counter
    &&& forall|i: int| 0 <= i < l.events.len() ==> (#[trigger] l.events[i]).event_index == i
    &&& forall|i: int| 0 <= i < l.events.len() ==> (#[trigger] l.events[i]).product == l.key
}

impl ProductLedger {
    /// Well-formedness of this ledger; see [`ledger_wf`].
    pub open spec fn wf(&self) -> bool {
        ledger_wf(self@)
    }
}

} // verus!
