use vstd::prelude::*;
use crate::error::SupplyChainError;
use crate::event::EventType;
use crate::instructions::{
    complete_stage_check, complete_stage_step, initialize_check, initialized_product,
    log_event_spec, transfer_ownership_check, transferred_product,
};
use crate::ledger::{LedgerView, ProductLedger};
use crate::product::{KeyView, Principal, Stage};

verus! {

/// An in-memory keyed record store: one committed ledger per product, keyed
/// by `(creator, serial_number)`, keys unique. It realizes the substrate
/// contract the engine relies on — creation fails on an existing key, every
/// operation applies all of its writes to one ledger or none.
pub struct ProductStore {
    pub ledgers: Vec<ProductLedger>,
}

/// Well-formedness of a store: every ledger is well-formed and no two
/// ledgers share a key.
pub open spec fn store_wf(s: Seq<LedgerView>) -> bool {
    &&& forall|i: int| 0 <= i < s.len() ==> crate::ledger::ledger_wf(#[trigger] s[i])
    &&& forall|i: int, j: int|
        0 <= i < s.len() && 0 <= j < s.len() && i != j ==> (#[trigger] s[i]).key != (
        #[trigger] s[j]).key
}

/// Whether the store holds a record with the given key.
pub open spec fn store_contains_key(s: Seq<LedgerView>, key: KeyView) -> bool {
    exists|i: int| 0 <= i < s.len() && (#[trigger] s[i]).key == key
}

/// The position of the record with the given key; meaningful when
/// [`store_contains_key`] holds, and then unique in a well-formed store.
pub open spec fn store_index_of(s: Seq<LedgerView>, key: KeyView) -> int {
    choose|i: int| 0 <= i < s.len() && (#[trigger] s[i]).key == key
}

/// In a store with pairwise-distinct keys, a position holding `key` is the
/// one [`store_index_of`] names.
pub proof fn lemma_store_index_unique(s: Seq<LedgerView>, key: KeyView, i: int)
    requires
        forall|x: int, y: int|
            0 <= x < s.len() && 0 <= y < s.len() && x != y ==> (#[trigger] s[x]).key != (
            #[trigger] s[y]).key,
        0 <= i < s.len(),
        s[i].key == key,
    ensures
        store_contains_key(s, key),
        store_index_of(s, key) == i,
{
    assert(store_contains_key(s, key));
    let j = store_index_of(s, key);
    assert(0 <= j < s.len() && s[j].key == key);
}

impl View for ProductStore {
    type V = Seq<LedgerView>;

    open spec fn view(&self) -> Seq<LedgerView> {
        self.ledgers.deep_view()
    }
}

/// The ledger the store would hold after a successful `log_event` against
/// the ledger `l`: the product stepped and the event appended.
pub open spec fn logged_ledger(l: LedgerView, pe: (crate::product::ProductView, crate::event::EventView)) -> LedgerView {
    LedgerView { key: l.key, product: pe.0, events: l.events.push(pe.1) }
}

impl ProductStore {
    /// Well-formedness of this store; see [`store_wf`].
    pub open spec fn wf(&self) -> bool {
        store_wf(self@)
    }

    /// An empty store.
    pub fn new() -> (s: ProductStore)
        ensures
            s.wf(),
            s@ == Seq::<LedgerView>::empty(),
    {
        let s = ProductStore { ledgers: Vec::new() };
        proof {
            assert(s@ =~= Seq::<LedgerView>::empty());
        }
        s
    }

    /// The position of the record keyed by `(creator, serial_number)`, or
    /// `None` when the store holds no such record.
    #[verifier::loop_isolation(false)]
    fn find_index(&self, creator: Principal, serial_number: &String) -> (r: Option<usize>)
        ensures
            match r {
                Some(ix) => ix < self@.len() && self@[ix as int].key == (KeyView {
                    creator: creator,
                    serial_number: serial_number@,
                }),
                None => !store_contains_key(
                    self@,
                    KeyView { creator: creator, serial_number: serial_number@ },
                ),
            },
    {
        let ghost target = KeyView { creator: creator, serial_number: serial_number@ };
        for i in 0..self.ledgers.len()
            invariant
                forall|j: int| 0 <= j < i ==> (#[trigger] self@[j]).key != target,
        {
            let key = &self.ledgers[i].key;
            let matches_key = key.creator == creator && key.serial_number == *serial_number;
            proof {
                if matches_key {
                    assert(self@[i as int].key =~= target);
                } else {
                    assert(self@[i as int].key != target);
                }
            }
            if matches_key {
                return Some(i);
            }
        }
        proof {
            if store_contains_key(self@, target) {
                let w = choose|w: int| 0 <= w < self@.len() && (#[trigger] self@[w]).key
                    == target;
                assert(self@[w].key != target);
            }
        }
        None
    }

    /// A read-only view of the ledger keyed by `(creator, serial_number)`.
    pub fn product_ledger(&self, creator: Principal, serial_number: &String) -> (r: Option<
        &ProductLedger,
    >)
        requires
            self.wf(),
        ensures
            match r {
                Some(l) => store_contains_key(
                    self@,
                    KeyView { creator: creator, serial_number: serial_number@ },
                ) && l@ == self@[store_index_of(
                    self@,
                    KeyView { creator: creator, serial_number: serial_number@ },
                )],
                None => !store_contains_key(
                    self@,
                    KeyView { creator: creator, serial_number: serial_number@ },
                ),
            },
    {
        match self.find_index(creator, serial_number) {
            Some(ix) => {
                proof {
                    lemma_store_index_unique(
                        self@,
                        KeyView { creator: creator, serial_number: serial_number@ },
                        ix as int,
                    );
                }
                Some(&self.ledgers[ix])
            },
            None => None,
        }
    }

    /// Creates the record of a new product keyed by the caller and the
    /// serial number, as [`crate::initialize_product`] builds it, and
    /// returns its position. Input validation comes first, exactly as
    /// [`initialize_check`] says; then creation fails with `DuplicateKey`
    /// when the store already holds the key. A failed call leaves the store
    /// exactly as it was.
    pub fn initialize_product(
        &mut self,
        caller: Principal,
        serial_number: String,
        description: String,
        stages: Option<Vec<Stage>>,
        now: i64,
    ) -> (r: Result<usize, SupplyChainError>)
        requires
            old(self).wf(),
        ensures
            final(self).wf(),
            match initialize_check(serial_number@, description@, stages.deep_view()) {
                Err(e) => r == Err::<usize, SupplyChainError>(e) && final(self)@ == old(self)@,
                Ok(()) => ({
                    let key = KeyView { creator: caller, serial_number: serial_number@ };
                    if store_contains_key(old(self)@, key) {
                        r == Err::<usize, SupplyChainError>(SupplyChainError::DuplicateKey)
                            && final(self)@ == old(self)@
                    } else {
                        &&& r matches Ok(ix)
                        &&& r matches Ok(ix) ==> ix == old(self)@.len()
                        &&& final(self)@ == old(self)@.push(
                            LedgerView {
                                key: key,
                                product: initialized_product(
                                    caller,
                                    serial_number@,
                                    description@,
                                    stages.deep_view(),
                                    now,
                                ),
                                events: Seq::empty(),
                            },
                        )
                    }
                }),
            },
    {
        let found = self.find_index(caller, &serial_number);
        match crate::initialize_product(caller, serial_number, description, stages, now) {
            Err(e) => Err(e),
            Ok(ledger) => {
                if found.is_some() {
                    return Err(SupplyChainError::DuplicateKey);
                }
                let ix = self.ledgers.len();
                self.ledgers.push(ledger);
                proof {
                    assert(self@ =~= old(self)@.push(self@[ix as int]));
                    assert forall|i: int, j: int|
                        0 <= i < self@.len() && 0 <= j < self@.len() && i != j implies (
                    #[trigger] self@[i]).key != (#[trigger] self@[j]).key by {
                        if i == ix as int {
                            assert(self@[j].key != self@[i].key);
                        } else if j == ix as int {
                            assert(self@[i].key != self@[j].key);
                        }
                    };
                }
                Ok(ix)
            },
        }
    }

    /// Logs one event against the product keyed by
    /// `(creator, serial_number)`, exactly as [`crate::log_event`] does, and
    /// returns the new event's index. Fails with `NotFound` when the store
    /// holds no such record. A failed call leaves the store exactly as it
    /// was; a successful one rewrites that one ledger and no other.
    pub fn log_event(
        &mut self,
        creator: Principal,
        serial_number: &String,
        caller: Principal,
        event_type: EventType,
        description: String,
        stage_name: Option<String>,
        now: i64,
    ) -> (r: Result<u64, SupplyChainError>)
        requires
            old(self).wf(),
        ensures
            final(self).wf(),
            ({
                let key = KeyView { creator: creator, serial_number: serial_number@ };
                if !store_contains_key(old(self)@, key) {
                    r == Err::<u64, SupplyChainError>(SupplyChainError::NotFound) && final(self)@
                        == old(self)@
                } else {
                    let ix = store_index_of(old(self)@, key);
                    let l = old(self)@[ix];
                    match log_event_spec(
                        l.product,
                        l.key,
                        caller,
                        event_type,
                        description@,
                        stage_name.deep_view(),
                        now,
                    ) {
                        Ok(pe) => {
                            &&& r matches Ok(n)
                            &&& r matches Ok(n) ==> n == l.product.events_counter
                            &&& final(self)@ == old(self)@.update(ix, logged_ledger(l, pe))
                        },
                        Err(err) => r == Err::<u64, SupplyChainError>(err) && final(self)@ == old(
                            self,
                        )@,
                    }
                }
            }),
    {
        match self.find_index(creator, serial_number) {
            None => Err(SupplyChainError::NotFound),
            Some(ix) => {
                proof {
                    lemma_store_index_unique(
                        self@,
                        KeyView { creator: creator, serial_number: serial_number@ },
                        ix as int,
                    );
                }
                let ledger = &mut self.ledgers[ix];
                let r = crate::log_event(ledger, caller, event_type, description, stage_name, now);
                proof {
                    let key = KeyView { creator: creator, serial_number: serial_number@ };
                    let l = old(self)@[ix as int];
                    match log_event_spec(
                        l.product,
                        l.key,
                        caller,
                        event_type,
                        description@,
                        stage_name.deep_view(),
                        now,
                    ) {
                        Ok(pe) => {
                            assert(self@ =~= old(self)@.update(ix as int, logged_ledger(l, pe)));
                        },
                        Err(_) => {
                            assert(self@ =~= old(self)@);
                        },
                    }
                    assert forall|i: int, j: int|
                        0 <= i < self@.len() && 0 <= j < self@.len() && i != j implies (
                    #[trigger] self@[i]).key != (#[trigger] self@[j]).key by {
                        assert(old(self)@[i].key != old(self)@[j].key);
                    };
                }
                r
            },
        }
    }

    /// Completes the current stage of the product keyed by
    /// `(creator, serial_number)`, exactly as [`crate::complete_stage`]
    /// does. Fails with `NotFound` when the store holds no such record. A
    /// failed call leaves the store exactly as it was.
    pub fn complete_stage(
        &mut self,
        creator: Principal,
        serial_number: &String,
        caller: Principal,
    ) -> (r: Result<(), SupplyChainError>)
        requires
            old(self).wf(),
        ensures
            final(self).wf(),
            ({
                let key = KeyView { creator: creator, serial_number: serial_number@ };
                if !store_contains_key(old(self)@, key) {
                    r == Err::<(), SupplyChainError>(SupplyChainError::NotFound) && final(self)@
                        == old(self)@
                } else {
                    let ix = store_index_of(old(self)@, key);
                    let l = old(self)@[ix];
                    match complete_stage_check(l.product, caller) {
                        Ok(()) => r matches Ok(()) && final(self)@ == old(self)@.update(
                            ix,
                            LedgerView { product: complete_stage_step(l.product), ..l },
                        ),
                        Err(err) => r == Err::<(), SupplyChainError>(err) && final(self)@ == old(
                            self,
                        )@,
                    }
                }
            }),
    {
        match self.find_index(creator, serial_number) {
            None => Err(SupplyChainError::NotFound),
            Some(ix) => {
                proof {
                    lemma_store_index_unique(
                        self@,
                        KeyView { creator: creator, serial_number: serial_number@ },
                        ix as int,
                    );
                }
                let ledger = &mut self.ledgers[ix];
                let r = crate::complete_stage(ledger, caller);
                proof {
                    let l = old(self)@[ix as int];
                    match complete_stage_check(l.product, caller) {
                        Ok(()) => {
                            assert(self@ =~= old(self)@.update(
                                ix as int,
                                LedgerView { product: complete_stage_step(l.product), ..l },
                            ));
                        },
                        Err(_) => {
                            assert(self@ =~= old(self)@);
                        },
                    }
                    assert forall|i: int, j: int|
                        0 <= i < self@.len() && 0 <= j < self@.len() && i != j implies (
                    #[trigger] self@[i]).key != (#[trigger] self@[j]).key by {
                        assert(old(self)@[i].key != old(self)@[j].key);
                    };
                }
                r
            },
        }
    }

    /// Hands custody of the product keyed by `(creator, serial_number)` to
    /// `new_owner`, exactly as [`crate::transfer_ownership`] does. Fails
    /// with `NotFound` when the store holds no such record. A failed call
    /// leaves the store exactly as it was.
    pub fn transfer_ownership(
        &mut self,
        creator: Principal,
        serial_number: &String,
        caller: Principal,
        new_owner: Principal,
    ) -> (r: Result<(), SupplyChainError>)
        requires
            old(self).wf(),
        ensures
            final(self).wf(),
            ({
                let key = KeyView { creator: creator, serial_number: serial_number@ };
                if !store_contains_key(old(self)@, key) {
                    r == Err::<(), SupplyChainError>(SupplyChainError::NotFound) && final(self)@
                        == old(self)@
                } else {
                    let ix = store_index_of(old(self)@, key);
                    let l = old(self)@[ix];
                    match transfer_ownership_check(l.product, caller) {
                        Ok(()) => r matches Ok(()) && final(self)@ == old(self)@.update(
                            ix,
                            LedgerView { product: transferred_product(l.product, new_owner), ..l },
                        ),
                        Err(err) => r == Err::<(), SupplyChainError>(err) && final(self)@ == old(
                            self,
                        )@,
                    }
                }
            }),
    {
        match self.find_index(creator, serial_number) {
            None => Err(SupplyChainError::NotFound),
            Some(ix) => {
                proof {
                    lemma_store_index_unique(
                        self@,
                        KeyView { creator: creator, serial_number: serial_number@ },
                        ix as int,
                    );
                }
                let ledger = &mut self.ledgers[ix];
                let r = crate::transfer_ownership(ledger, caller, new_owner);
                proof {
                    let l = old(self)@[ix as int];
                    match transfer_ownership_check(l.product, caller) {
                        Ok(()) => {
                            assert(self@ =~= old(self)@.update(
                                ix as int,
                                LedgerView { product: transferred_product(l.product, new_owner), ..l },
                            ));
                        },
                        Err(_) => {
                            assert(self@ =~= old(self)@);
                        },
                    }
                    assert forall|i: int, j: int|
                        0 <= i < self@.len() && 0 <= j < self@.len() && i != j implies (
                    #[trigger] self@[i]).key != (#[trigger] self@[j]).key by {
                        assert(old(self)@[i].key != old(self)@[j].key);
                    };
                }
                r
            },
        }
    }
}

} // verus!
