use vstd::prelude::*;

verus! {

/// Error taxonomy of the supply-chain core.
///
/// Every operation checks its preconditions before staging any write; the
/// first violated precondition short-circuits the call with one of these
/// kinds and no partial effect. `DuplicateKey` and `NotFound` are raised by
/// the keyed store, the remaining kinds by the lifecycle engine itself.
#[derive(Clone, Copy, PartialEq, Eq, Structural, Debug)]
pub enum SupplyChainError {
    /// Serial number must be 1-50 characters.
    InvalidSerialNumber,
    /// Description must be 1-200 characters.
    InvalidDescription,
    /// Caller is not the principal required to authorize the operation.
    UnauthorizedAccess,
    /// The event counter would wrap past `u64::MAX`.
    CounterOverflow,
    /// Stage name must be 1-50 characters.
    InvalidStageName,
    /// A product carries at most `MAX_STAGES` stages.
    TooManyStages,
    /// A stage operation was attempted on a product without stages.
    NoStages,
    /// The current stage position does not index into the stage list.
    InvalidStageIndex,
    /// An event was submitted against an already-completed current stage.
    StageNotCompleted,
    /// The product reached the terminal `Delivered` status; no further
    /// mutation is permitted.
    ProductAlreadyDelivered,
    /// A record with the same key already exists in the store.
    DuplicateKey,
    /// No record with the given key exists in the store.
    NotFound,
}

} // verus!
