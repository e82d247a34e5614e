//! One object's statistics: size, hit/miss counters, the sequence number of
//! the request that created the record, and a categorical type id.
//!
//! The object's size is carried as the bit pattern of an IEEE-754
//! single-precision number (`f32::to_bits`). The store never interprets the
//! size arithmetically, so holding the raw bits keeps every operation on it
//! exact; callers that want the numeric value convert with `f32::from_bits`.

use vstd::prelude::*;

verus! {

/// Statistics for a single object. Owned by a `Store` once inserted there;
/// values handed back to callers are independent copies.
#[derive(Clone, Copy, Debug)]
pub struct Record {
    size_bits: u32,
    hit: i32,
    miss: i32,
    last_request: i32,
    data_type: i32,
}

/// Mathematical model of a [`Record`].
pub ghost struct RecordModel {
    pub size_bits: u32,
    pub hit: i32,
    pub miss: i32,
    pub last_request: i32,
    pub data_type: i32,
}

impl RecordModel {
    /// Well-formedness: counters are non-negative and their sum fits in an
    /// `i32`, so `total_requests` can be computed without overflow.
    pub open spec fn wf(self) -> bool {
        &&& 0 <= self.hit
        &&& 0 <= self.miss
        &&& self.hit + self.miss <= i32::MAX
    }

    /// Total number of outcomes recorded: hits plus misses.
    pub open spec fn total_requests(self) -> int {
        self.hit + self.miss
    }

    /// The same record with only the size replaced.
    pub open spec fn with_size(self, size_bits: u32) -> RecordModel {
        RecordModel { size_bits, ..self }
    }

    /// The record after one outcome: a hit bumps `hit`, a miss bumps `miss`,
    /// and nothing else changes.
    pub open spec fn record_outcome(self, is_hit: bool) -> RecordModel {
        if is_hit {
            RecordModel { hit: (self.hit + 1) as i32, ..self }
        } else {
            RecordModel { miss: (self.miss + 1) as i32, ..self }
        }
    }

    /// The read-only view a caller gets: size bits, total requests,
    /// creation-time request sequence number, and type id.
    pub open spec fn snapshot(self) -> (u32, i32, i32, i32) {
        (self.size_bits, self.total_requests() as i32, self.last_request, self.data_type)
    }
}

impl View for Record {
    type V = RecordModel;

    closed spec fn view(&self) -> RecordModel {
        RecordModel {
            size_bits: self.size_bits,
            hit: self.hit,
            miss: self.miss,
            last_request: self.last_request,
            data_type: self.data_type,
        }
    }
}

impl Record {
    /// A fresh record: zero hits and misses, `last_request` set to the
    /// sequence number of the request that created it.
    pub fn create(size_bits: u32, data_type: i32, initial_request_seq: i32) -> (r: Record)
        ensures
            r@ == (RecordModel {
                size_bits,
                hit: 0i32,
                miss: 0i32,
                last_request: initial_request_seq,
                data_type,
            }),
            r@.wf(),
    {
        Record { size_bits, hit: 0, miss: 0, last_request: initial_request_seq, data_type }
    }

    /// Count one outcome: a hit increments `hit`, a miss increments `miss`;
    /// no other field changes.
    pub fn record_outcome(&mut self, is_hit: bool)
        requires
            old(self)@.wf(),
            old(self)@.total_requests() < i32::MAX,
        ensures
            final(self)@ == old(self)@.record_outcome(is_hit),
            final(self)@.wf(),
    {
        if is_hit {
            self.hit = self.hit + 1;
        } else {
            self.miss = self.miss + 1;
        }
    }

    /// Hits plus misses.
    pub fn total_requests(&self) -> (n: i32)
        requires
            self@.wf(),
        ensures
            n == self@.total_requests(),
    {
        self.hit + self.miss
    }

    /// Read-only copy of the record's aggregate view:
    /// `(size_bits, total_requests, last_request, data_type)`.
    pub fn snapshot(&self) -> (t: (u32, i32, i32, i32))
        requires
            self@.wf(),
        ensures
            t == self@.snapshot(),
    {
        (self.size_bits, self.hit + self.miss, self.last_request, self.data_type)
    }

    /// Overwrite the size; every other field keeps its value.
    pub fn set_size(&mut self, size_bits: u32)
        ensures
            final(self)@ == old(self)@.with_size(size_bits),
    {
        self.size_bits = size_bits;
    }

    /// Overwrite the last-request sequence number; every other field keeps
    /// its value.
    pub fn set_last_request(&mut self, request: i32)
        ensures
            final(self)@ == (RecordModel { last_request: request, ..old(self)@ }),
    {
        self.last_request = request;
    }

    pub fn size_bits(&self) -> (b: u32)
        ensures
            b == self@.size_bits,
    {
        self.size_bits
    }

    pub fn hit_count(&self) -> (n: i32)
        ensures
            n == self@.hit,
    {
        self.hit
    }

    pub fn miss_count(&self) -> (n: i32)
        ensures
            n == self@.miss,
    {
        self.miss
    }

    pub fn last_request(&self) -> (n: i32)
        ensures
            n == self@.last_request,
    {
        self.last_request
    }

    pub fn data_type(&self) -> (n: i32)
        ensures
            n == self@.data_type,
    {
        self.data_type
    }
}

/// One recorded outcome adds exactly one to `total_requests`, never
/// decreases either counter, and leaves size, `last_request` and
/// `data_type` untouched.
pub proof fn lemma_record_outcome_counts(rec: RecordModel, is_hit: bool)
    requires
        rec.wf(),
        rec.total_requests() < i32::MAX,
    ensures
        rec.record_outcome(is_hit).wf(),
        rec.record_outcome(is_hit).total_requests() == rec.total_requests() + 1,
        rec.record_outcome(is_hit).hit >= rec.hit,
        rec.record_outcome(is_hit).miss >= rec.miss,
        is_hit ==> rec.record_outcome(is_hit).hit == rec.hit + 1
            && rec.record_outcome(is_hit).miss == rec.miss,
        !is_hit ==> rec.record_outcome(is_hit).miss == rec.miss + 1
            && rec.record_outcome(is_hit).hit == rec.hit,
        rec.record_outcome(is_hit).size_bits == rec.size_bits,
        rec.record_outcome(is_hit).last_request == rec.last_request,
        rec.record_outcome(is_hit).data_type == rec.data_type,
{
}

/// The second component of a snapshot is exactly `total_requests`, the sum
/// of the hit and miss counters.
pub proof fn lemma_snapshot_reports_total(rec: RecordModel)
    requires
        rec.wf(),
    ensures
        rec.snapshot().1 == rec.total_requests(),
{
}

} // verus!
