use vstd::prelude::*;
use crate::ledger::ExternalError;

verus! {

/// The key under which a store holds a record.
pub type RecordId = u64;

/// What a store holds, as mathematics: the records by id, and the number of
/// ids handed out so far.
pub struct StoreView<R> {
    pub records: Map<RecordId, R>,
    pub next_id: nat,
}

impl<R> StoreView<R> {
    /// Every id in use was handed out, and the ids handed out fit the id
    /// type.
    pub open spec fn wf(self) -> bool {
        &&& self.next_id <= u64::MAX
        &&& forall|id: RecordId| self.records.contains_key(id) ==> (id as nat) < self.next_id
    }

    /// The store that holds nothing and has handed out no id.
    pub open spec fn empty() -> StoreView<R> {
        StoreView { records: Map::empty(), next_id: 0 }
    }

    /// The id that the next inserted record gets.
    pub open spec fn fresh_id(self) -> RecordId {
        self.next_id as u64
    }

    /// The record held under `id`, if there is one.
    pub open spec fn get(self, id: RecordId) -> Option<R> {
        if self.records.contains_key(id) {
            Some(self.records[id])
        } else {
            None
        }
    }

    /// Whether every record that the store holds is `good`.
    pub open spec fn all(self, good: spec_fn(R) -> bool) -> bool {
        forall|id: RecordId| self.records.contains_key(id) ==> good(#[trigger] self.records[id])
    }

    /// The store after `record` was put under a fresh id.
    pub open spec fn insert(self, record: R) -> StoreView<R> {
        StoreView {
            records: self.records.insert(self.fresh_id(), record),
            next_id: self.next_id + 1,
        }
    }

    /// The store after the record under `id` was replaced by `record`; the
    /// same store where `id` is not in use.
    pub open spec fn replace(self, id: RecordId, record: R) -> StoreView<R> {
        if self.records.contains_key(id) {
            StoreView { records: self.records.insert(id, record), next_id: self.next_id }
        } else {
            self
        }
    }

    /// The store after the record under `id` was taken out. The id stays
    /// spent.
    pub open spec fn remove(self, id: RecordId) -> StoreView<R> {
        StoreView { records: self.records.remove(id), next_id: self.next_id }
    }

    /// The store after a record whose creation waited for an outside service
    /// was settled: inserted where the service succeeded, left out where it
    /// failed.
    pub open spec fn settle(self, record: R, outcome: Result<(), ExternalError>) -> StoreView<R> {
        if outcome is Ok {
            self.insert(record)
        } else {
            self
        }
    }

    /// The id of a record whose creation waited for an outside service, or
    /// the failure of that service.
    pub open spec fn settled_id(self, outcome: Result<(), ExternalError>) -> Result<
        RecordId,
        ExternalError,
    > {
        match outcome {
            Ok(_) => Ok(self.fresh_id()),
            Err(e) => Err(e),
        }
    }

    /// A fresh id is not in use, and the record inserted under it is found
    /// there while every other record stays where it was.
    pub proof fn lemma_insert(self, record: R)
        requires
            self.wf(),
        ensures
            self.get(self.fresh_id()) is None,
            self.insert(record).get(self.fresh_id()) == Some(record),
            forall|id: RecordId| id != self.fresh_id() ==> self.insert(record).get(id) == self.get(id),
    {
    }

    /// A removed record is gone for good: its id is not in use afterwards,
    /// and no later insertion brings it back.
    pub proof fn lemma_remove(self, id: RecordId, record: R)
        requires
            self.wf(),
            self.records.contains_key(id),
        ensures
            self.remove(id).get(id) is None,
            self.remove(id).wf(),
            self.remove(id).insert(record).get(id) is None,
    {
    }
}

/// A keyed store of records of one kind. Every record is given an id when it
/// is inserted; an id is never handed out twice, also not after its record
/// has been removed.
pub struct Store<R> {
    slots: Vec<Option<R>>,
}

impl<R> View for Store<R> {
    type V = StoreView<R>;

    closed spec fn view(&self) -> StoreView<R> {
        StoreView {
            records: Map::new(
                |id: RecordId| (id as int) < self.slots@.len() && self.slots@[id as int] is Some,
                |id: RecordId| self.slots@[id as int]->0,
            ),
            next_id: self.slots@.len(),
        }
    }
}

impl<R> Store<R> {
    /// What a store holds is always well formed.
    pub proof fn lemma_wf(&self)
        ensures
            self@.wf(),
    {
        vstd::std_specs::vec::axiom_spec_len(&self.slots);
        assert(self.slots.len() == self.slots@.len());
    }

    /// An empty store.
    pub fn new() -> (store: Store<R>)
        ensures
            store@ == StoreView::<R>::empty(),
    {
        let store = Store { slots: Vec::new() };
        assert(store@.records =~= Map::<RecordId, R>::empty());
        store
    }

    /// Puts `record` under a fresh id and returns that id.
    pub fn insert(&mut self, record: R) -> (id: RecordId)
        ensures
            id == old(self)@.fresh_id(),
            final(self)@ == old(self)@.insert(record),
    {
        let n: usize = self.slots.len();
        self.slots.push(Some(record));
        let id: RecordId = n as u64;
        assert(self@.records =~= old(self)@.insert(record).records);
        id
    }

    /// Whether a record is held under `id`.
    pub fn contains(&self, id: RecordId) -> (found: bool)
        ensures
            found == self@.records.contains_key(id),
    {
        if id >= self.slots.len() as u64 {
            false
        } else {
            self.slots[id as usize].is_some()
        }
    }

    /// The record held under `id`, if there is one.
    pub fn get(&self, id: RecordId) -> (found: Option<&R>)
        ensures
            self@.get(id) matches Some(record) ==> found == Some(&record),
            self@.get(id) is None ==> found is None,
    {
        if id >= self.slots.len() as u64 {
            None
        } else {
            self.slots[id as usize].as_ref()
        }
    }

    /// Replaces the record held under `id` by `record`. Where no record is
    /// held under `id`, the store stays as it is and `record` comes back.
    pub fn replace(&mut self, id: RecordId, record: R) -> (rejected: Option<R>)
        ensures
            final(self)@ == old(self)@.replace(id, record),
            old(self)@.records.contains_key(id) ==> rejected is None,
            !old(self)@.records.contains_key(id) ==> rejected == Some(record),
    {
        if id >= self.slots.len() as u64 {
            return Some(record);
        }
        let idx: usize = id as usize;
        if self.slots[idx].is_none() {
            return Some(record);
        }
        self.slots[idx] = Some(record);
        assert(self.slots@ == old(self).slots@.update(idx as int, Some(record)));
        assert(self@.records =~= old(self)@.replace(id, record).records);
        None
    }

    /// Takes the record held under `id` out of the store, if there is one.
    /// The id is not used again.
    pub fn remove(&mut self, id: RecordId) -> (removed: Option<R>)
        ensures
            removed == old(self)@.get(id),
            final(self)@ == old(self)@.remove(id),
    {
        if id >= self.slots.len() as u64 {
            assert(self@.records =~= old(self)@.remove(id).records);
            return None;
        }
        let idx: usize = id as usize;
        let taken = self.slots[idx].take();
        assert(self.slots@ == old(self).slots@.update(idx as int, None::<R>));
        assert(self@.records =~= old(self)@.remove(id).records);
        taken
    }

    /// Ends the creation of a record that waited for an outside service.
    /// Where the service succeeded, the record is stored under a fresh id,
    /// which is returned. Where it failed, the store stays as it is and the
    /// failure is returned as it came.
    pub fn settle(&mut self, record: R, outcome: Result<(), ExternalError>) -> (r: Result<
        RecordId,
        ExternalError,
    >)
        ensures
            r == old(self)@.settled_id(outcome),
            final(self)@ == old(self)@.settle(record, outcome),
    {
        match outcome {
            Err(e) => Err(e),
            Ok(_) => Ok(self.insert(record)),
        }
    }
}

} // verus!
