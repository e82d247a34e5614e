//! A keyed collection of [`Record`]s plus a single-slot cursor.
//!
//! The driving simulator calls `touch(key, ...)` once per request to select
//! (creating if absent) the object's record and move the cursor to it, then
//! `record_outcome(hit)` to count the outcome on the cursor's record, then
//! `snapshot()` to read back the current aggregate view. Before any `touch`,
//! the cursor is the sentinel `-1` and resolves to no record, so
//! `record_outcome` is a no-op and `snapshot` returns the sentinel tuple.

use std::collections::HashMap;
use vstd::prelude::*;

use crate::record::{Record, RecordModel};

verus! {

broadcast use vstd::std_specs::hash::group_hash_axioms;

/// Bit pattern (`f32::to_bits`) of IEEE-754 single-precision minus one: the
/// size component of the sentinel snapshot returned while no record is
/// selected.
pub const SENTINEL_SIZE_BITS: u32 = 0xBF80_0000;

/// Owns one record per object key; `cursor` is the key most recently passed
/// to `touch`, or `-1` before the first call.
pub struct Store {
    records: HashMap<i32, Record>,
    cursor: i32,
}

/// Mathematical model of a [`Store`]: a map from key to record model, and
/// the cursor key.
pub ghost struct StoreModel {
    pub records: Map<i32, RecordModel>,
    pub cursor: i32,
}

impl StoreModel {
    /// Every record held by the store is well formed.
    pub open spec fn wf(self) -> bool {
        forall|k: i32| self.records.contains_key(k) ==> (#[trigger] self.records[k]).wf()
    }

    /// Whether the cursor currently resolves to a record.
    pub open spec fn has_current(self) -> bool {
        self.records.contains_key(self.cursor)
    }

    /// The store after `touch(key, size_bits, data_type, request_seq)`: the
    /// cursor moves to `key`; a new record is created for an absent key,
    /// while for a present key only the size is overwritten —
    /// `last_request` and `data_type` keep their creation-time values.
    pub open spec fn touch(
        self,
        key: i32,
        size_bits: u32,
        data_type: i32,
        request_seq: i32,
    ) -> StoreModel {
        let rec = if self.records.contains_key(key) {
            self.records[key].with_size(size_bits)
        } else {
            RecordModel {
                size_bits,
                hit: 0i32,
                miss: 0i32,
                last_request: request_seq,
                data_type,
            }
        };
        StoreModel { records: self.records.insert(key, rec), cursor: key }
    }

    /// The store after `record_outcome(is_hit)`: the cursor's record counts
    /// one outcome; with no current record the store is unchanged.
    pub open spec fn record_outcome(self, is_hit: bool) -> StoreModel {
        if self.has_current() {
            StoreModel {
                records: self.records.insert(
                    self.cursor,
                    self.records[self.cursor].record_outcome(is_hit),
                ),
                ..self
            }
        } else {
            self
        }
    }

    /// What `snapshot` returns: the cursor's record view, or the all-unset
    /// sentinel tuple when no record is selected.
    pub open spec fn snapshot(self) -> (u32, i32, i32, i32) {
        if self.has_current() {
            self.records[self.cursor].snapshot()
        } else {
            (SENTINEL_SIZE_BITS, -1i32, -1i32, -1i32)
        }
    }
}

/// The model of a freshly created store: no records, cursor unset.
pub open spec fn empty_store_model() -> StoreModel {
    StoreModel { records: Map::<i32, RecordModel>::empty(), cursor: -1i32 }
}

impl View for Store {
    type V = StoreModel;

    closed spec fn view(&self) -> StoreModel {
        StoreModel {
            records: self.records@.map_values(|r: Record| r@),
            cursor: self.cursor,
        }
    }
}

impl Store {
    /// An empty store: no records, cursor at the sentinel `-1`.
    pub fn new() -> (s: Store)
        ensures
            s@ == empty_store_model(),
            s@.wf(),
    {
        let s = Store { records: HashMap::new(), cursor: -1 };
        proof {
            assert(s@.records =~= empty_store_model().records);
        }
        s
    }

    /// Select the record for `key`, creating it if absent, and move the
    /// cursor to `key`. On a repeat touch only the size is overwritten;
    /// `last_request` and `data_type` stay as set at creation. Returns an
    /// independent copy of the selected record.
    pub fn touch(&mut self, key: i32, size_bits: u32, data_type: i32, request_seq: i32) -> (r:
        Record)
        requires
            old(self)@.wf(),
        ensures
            final(self)@ == old(self)@.touch(key, size_bits, data_type, request_seq),
            final(self)@.wf(),
            final(self)@.has_current(),
            r@ == final(self)@.records[key],
    {
        self.cursor = key;
        let found: Option<Record> = match self.records.get(&key) {
            Some(existing) => Some(*existing),
            None => None,
        };
        let rec: Record = match found {
            Some(existing) => {
                let mut updated: Record = existing;
                updated.set_size(size_bits);
                updated
            },
            None => Record::create(size_bits, data_type, request_seq),
        };
        self.records.insert(key, rec);
        proof {
            assert(self@.records =~= old(self)@.touch(
                key,
                size_bits,
                data_type,
                request_seq,
            ).records);
        }
        rec
    }

    /// Count one outcome on the cursor's record. Before any `touch`, or
    /// whenever the cursor resolves to no record, this is a no-op: it never
    /// fails and never creates a record.
    pub fn record_outcome(&mut self, is_hit: bool)
        requires
            old(self)@.wf(),
            old(self)@.has_current() ==> old(self)@.records[old(self)@.cursor].total_requests()
                < i32::MAX,
        ensures
            final(self)@ == old(self)@.record_outcome(is_hit),
            final(self)@.wf(),
    {
        let cursor: i32 = self.cursor;
        let found: Option<Record> = match self.records.get(&cursor) {
            Some(existing) => Some(*existing),
            None => None,
        };
        match found {
            Some(existing) => {
                let mut updated: Record = existing;
                updated.record_outcome(is_hit);
                self.records.insert(cursor, updated);
                proof {
                    assert(self@.records =~= old(self)@.record_outcome(is_hit).records);
                }
            },
            None => {},
        }
    }

    /// Read back `(size_bits, total_requests, last_request, data_type)` for
    /// the cursor's record, or the sentinel tuple
    /// `(SENTINEL_SIZE_BITS, -1, -1, -1)` when no record is selected.
    pub fn snapshot(&self) -> (t: (u32, i32, i32, i32))
        requires
            self@.wf(),
        ensures
            t == self@.snapshot(),
    {
        match self.records.get(&self.cursor) {
            Some(rec) => {
                proof {
                    assert(rec@ == self@.records[self@.cursor]);
                }
                rec.snapshot()
            },
            None => (SENTINEL_SIZE_BITS, -1, -1, -1),
        }
    }
}

/// A fresh store with no records.
pub fn new_store() -> (s: Store)
    ensures
        s@ == empty_store_model(),
        s@.wf(),
{
    Store::new()
}

/// Touching a key never touched before and then taking a snapshot yields
/// exactly the size just given, zero total requests, the request sequence
/// number just given, and the type id just given.
pub proof fn lemma_touch_new_key_then_snapshot(
    pre: StoreModel,
    key: i32,
    size_bits: u32,
    data_type: i32,
    request_seq: i32,
)
    requires
        !pre.records.contains_key(key),
    ensures
        pre.touch(key, size_bits, data_type, request_seq).snapshot() == (
            size_bits,
            0i32,
            request_seq,
            data_type,
        ),
{
}

/// Repeat-touch quirk: touching a key already present changes only that
/// record's size. Its counters, `last_request` and `data_type` keep their
/// old values, every other record is untouched, and no key appears or
/// disappears.
pub proof fn lemma_repeat_touch_changes_only_size(
    pre: StoreModel,
    key: i32,
    size_bits: u32,
    data_type: i32,
    request_seq: i32,
)
    requires
        pre.records.contains_key(key),
    ensures
        pre.touch(key, size_bits, data_type, request_seq).records[key] == pre.records[key]
            .with_size(size_bits),
        pre.touch(key, size_bits, data_type, request_seq).records[key].hit == pre.records[key].hit,
        pre.touch(key, size_bits, data_type, request_seq).records[key].miss == pre.records[key]
            .miss,
        pre.touch(key, size_bits, data_type, request_seq).records[key].last_request
            == pre.records[key].last_request,
        pre.touch(key, size_bits, data_type, request_seq).records[key].data_type
            == pre.records[key].data_type,
        pre.touch(key, size_bits, data_type, request_seq).snapshot() == (
            size_bits,
            pre.records[key].total_requests() as i32,
            pre.records[key].last_request,
            pre.records[key].data_type,
        ),
        forall|k: i32|
            k != key && pre.records.contains_key(k) ==> pre.touch(
                key,
                size_bits,
                data_type,
                request_seq,
            ).records[k] == pre.records[k],
        pre.touch(key, size_bits, data_type, request_seq).records.dom() == pre.records.dom(),
{
    assert(pre.touch(key, size_bits, data_type, request_seq).records.dom() =~= pre.records.dom());
}

/// At store level, one recorded outcome adds exactly one to the current
/// record's total, changes no other record, moves no cursor and creates no
/// record; with no current record the store is unchanged.
pub proof fn lemma_store_record_outcome(pre: StoreModel, is_hit: bool)
    requires
        pre.wf(),
        pre.has_current() ==> pre.records[pre.cursor].total_requests() < i32::MAX,
    ensures
        pre.record_outcome(is_hit).cursor == pre.cursor,
        pre.record_outcome(is_hit).records.dom() == pre.records.dom(),
        pre.has_current() ==> pre.record_outcome(is_hit).records[pre.cursor].total_requests()
            == pre.records[pre.cursor].total_requests() + 1,
        forall|k: i32|
            k != pre.cursor && pre.records.contains_key(k) ==> pre.record_outcome(
                is_hit,
            ).records[k] == pre.records[k],
        !pre.has_current() ==> pre.record_outcome(is_hit) == pre,
{
    assert(pre.record_outcome(is_hit).records.dom() =~= pre.records.dom());
}

/// Before any `touch`, a snapshot is the all-unset sentinel tuple: the bit
/// pattern of minus one for the size, and `-1` for every other component.
pub proof fn lemma_snapshot_before_any_touch()
    ensures
        empty_store_model().snapshot() == (SENTINEL_SIZE_BITS, -1i32, -1i32, -1i32),
{
}

/// Before any `touch`, `record_outcome` is a no-op: the store is unchanged
/// and in particular no record is created.
pub proof fn lemma_record_outcome_before_any_touch(is_hit: bool)
    ensures
        empty_store_model().record_outcome(is_hit) == empty_store_model(),
        !empty_store_model().record_outcome(is_hit).has_current(),
{
}

} // verus!
