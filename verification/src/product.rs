use vstd::prelude::*;

verus! {

/// Maximum number of stages a product may carry.
pub const MAX_STAGES: usize = 10;

/// Maximum length, in characters, of a serial number or a stage name.
pub const MAX_NAME_LEN: usize = 50;

/// Maximum length, in characters, of a product or event description.
pub const MAX_DESCRIPTION_LEN: usize = 200;

/// A principal identifier: an authenticatable identity, compared for
/// equality against the `owner` fields. The core never issues identities,
/// it only compares them.
#[derive(Clone, Copy, PartialEq, Eq, Structural, Debug)]
pub struct Principal {
    pub id: u64,
}

/// Lifecycle status of a product.
#[derive(Clone, Copy, PartialEq, Eq, Structural, Debug)]
pub enum ProductStatus {
    Created,
    InTransit,
    Received,
    Delivered,
    Transferred,
}

/// One ordered custody segment of a product's journey. If `owner` is set,
/// only that principal may act while the stage is current, and reaching the
/// stage hands custody to that principal.
pub struct Stage {
    pub name: String,
    pub owner: Option<Principal>,
    pub completed: bool,
}

/// Mathematical model of a [`Stage`].
#[verifier::ext_equal]
pub struct StageView {
    pub name: Seq<char>,
    pub owner: Option<Principal>,
    pub completed: bool,
}

impl View for Stage {
    type V = StageView;

    open spec fn view(&self) -> StageView {
        StageView { name: self.name@, owner: self.owner, completed: self.completed }
    }
}

impl DeepView for Stage {
    type V = StageView;

    open spec fn deep_view(&self) -> StageView {
        self.view()
    }
}

/// The unique key of a product record: the creating principal together with
/// the caller-chosen serial number. One principal cannot create two products
/// with the same serial number.
pub struct ProductKey {
    pub creator: Principal,
    pub serial_number: String,
}

/// Mathematical model of a [`ProductKey`].
#[verifier::ext_equal]
pub struct KeyView {
    pub creator: Principal,
    pub serial_number: Seq<char>,
}

impl View for ProductKey {
    type V = KeyView;

    open spec fn view(&self) -> KeyView {
        KeyView { creator: self.creator, serial_number: self.serial_number@ }
    }
}

/// The mutable lifecycle record of one tracked item.
pub struct Product {
    /// Principal currently authorized to act on this product.
    pub owner: Principal,
    /// 1-50 characters, immutable after creation.
    pub serial_number: String,
    /// 1-200 characters, free text.
    pub description: String,
    pub status: ProductStatus,
    /// Creation timestamp, set once.
    pub created_at: i64,
    /// Starts at 0, increments by exactly 1 per logged event.
    pub events_counter: u64,
    /// Optional ordered stage list; empty means the simple, non-staged flow.
    pub stages: Vec<Stage>,
    /// Index into `stages`; 0 when `stages` is empty.
    pub current_stage_index: u8,
}

/// Mathematical model of a [`Product`].
#[verifier::ext_equal]
pub struct ProductView {
    pub owner: Principal,
    pub serial_number: Seq<char>,
    pub description: Seq<char>,
    pub status: ProductStatus,
    pub created_at: i64,
    pub events_counter: u64,
    pub stages: Seq<StageView>,
    pub current_stage_index: u8,
}

impl View for Product {
    type V = ProductView;

    open spec fn view(&self) -> ProductView {
        ProductView {
            owner: self.owner,
            serial_number: self.serial_number@,
            description: self.description@,
            status: self.status,
            created_at: self.created_at,
            events_counter: self.events_counter,
            stages: self.stages.deep_view(),
            current_stage_index: self.current_stage_index,
        }
    }
}

/// A serial number is 1-50 characters.
pub open spec fn serial_number_ok(s: Seq<char>) -> bool {
    1 <= s.len() <= MAX_NAME_LEN
}

/// A description is 1-200 characters.
pub open spec fn description_ok(s: Seq<char>) -> bool {
    1 <= s.len() <= MAX_DESCRIPTION_LEN
}

/// A stage name is 1-50 characters.
pub open spec fn stage_name_ok(s: Seq<char>) -> bool {
    1 <= s.len() <= MAX_NAME_LEN
}

/// Well-formedness of a product record. Established by `initialize` and
/// preserved by every operation:
/// the field bounds hold, at most `MAX_STAGES` stages are present, every
/// stage name is in bounds, and the current stage position indexes into the
/// stage list whenever stages are present (and is 0 when they are absent).
pub open spec fn product_wf(p: ProductView) -> bool {
    &&& serial_number_ok(p.serial_number)
    &&& description_ok(p.description)
    &&& p.stages.len() <= MAX_STAGES
    &&& forall|i: int| 0 <= i < p.stages.len() ==> stage_name_ok(#[trigger] p.stages[i].name)
    &&& p.stages.len() == 0 ==> p.current_stage_index == 0
    &&& p.stages.len() > 0 ==> (p.current_stage_index as int) < p.stages.len()
}

impl Product {
    /// Well-formedness of this record; see [`product_wf`].
    pub open spec fn wf(&self) -> bool {
        product_wf(self@)
    }
}

} // verus!
