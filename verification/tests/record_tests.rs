use stats_store::record::Record;

#[test]
fn create_starts_with_zero_counters() {
    let r = Record::create((3.5f32).to_bits(), 7, 42);
    assert_eq!(f32::from_bits(r.size_bits()), 3.5f32);
    assert_eq!(r.hit_count(), 0);
    assert_eq!(r.miss_count(), 0);
    assert_eq!(r.total_requests(), 0);
    assert_eq!(r.last_request(), 42);
    assert_eq!(r.data_type(), 7);
}

#[test]
fn record_outcome_increments_one_counter() {
    let mut r = Record::create(0, 1, 0);
    r.record_outcome(true);
    assert_eq!((r.hit_count(), r.miss_count()), (1, 0));
    r.record_outcome(false);
    assert_eq!((r.hit_count(), r.miss_count()), (1, 1));
    r.record_outcome(true);
    assert_eq!((r.hit_count(), r.miss_count()), (2, 1));
    assert_eq!(r.total_requests(), 3);
}

#[test]
fn standalone_snapshot_matches_fields() {
    let mut r = Record::create((9.25f32).to_bits(), 2, 11);
    r.record_outcome(false);
    let t = r.snapshot();
    assert_eq!(f32::from_bits(t.0), 9.25f32);
    assert_eq!((t.1, t.2, t.3), (1, 11, 2));
}

#[test]
fn set_size_changes_only_size() {
    let mut r = Record::create((1.0f32).to_bits(), 2, 3);
    r.record_outcome(true);
    r.set_size((2.0f32).to_bits());
    let t = r.snapshot();
    assert_eq!(f32::from_bits(t.0), 2.0f32);
    assert_eq!((t.1, t.2, t.3), (1, 3, 2));
}

#[test]
fn set_last_request_changes_only_last_request() {
    let mut r = Record::create((1.0f32).to_bits(), 2, 3);
    r.set_last_request(99);
    let t = r.snapshot();
    assert_eq!(f32::from_bits(t.0), 1.0f32);
    assert_eq!((t.1, t.2, t.3), (0, 99, 2));
}
