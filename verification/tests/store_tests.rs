use stats_store::store::{new_store, Store, SENTINEL_SIZE_BITS};

fn bits(x: f32) -> u32 {
    x.to_bits()
}

fn as_f32(b: u32) -> f32 {
    f32::from_bits(b)
}

#[test]
fn snapshot_before_any_touch_is_sentinel() {
    let s = new_store();
    let t = s.snapshot();
    assert_eq!(t.0, SENTINEL_SIZE_BITS);
    assert_eq!(as_f32(t.0), -1.0f32);
    assert_eq!((t.1, t.2, t.3), (-1, -1, -1));
}

#[test]
fn record_outcome_before_any_touch_is_noop() {
    let mut s = new_store();
    s.record_outcome(false);
    s.record_outcome(true);
    let t = s.snapshot();
    assert_eq!(as_f32(t.0), -1.0f32);
    assert_eq!((t.1, t.2, t.3), (-1, -1, -1));
}

#[test]
fn touch_new_key_then_snapshot() {
    let mut s = Store::new();
    s.touch(5, bits(100.0), 2, 10);
    let t = s.snapshot();
    assert_eq!(as_f32(t.0), 100.0f32);
    assert_eq!((t.1, t.2, t.3), (0, 10, 2));
}

#[test]
fn hit_is_counted_on_current_record() {
    let mut s = Store::new();
    s.touch(5, bits(100.0), 2, 10);
    s.record_outcome(true);
    let t = s.snapshot();
    assert_eq!(as_f32(t.0), 100.0f32);
    assert_eq!((t.1, t.2, t.3), (1, 10, 2));
}

#[test]
fn repeat_touch_overwrites_only_size() {
    let mut s = Store::new();
    s.touch(5, bits(100.0), 2, 10);
    s.record_outcome(true);
    s.touch(5, bits(200.0), 2, 20);
    let t = s.snapshot();
    assert_eq!(as_f32(t.0), 200.0f32);
    // last_request stays 10, not 20; the hit survives the repeat touch.
    assert_eq!((t.1, t.2, t.3), (1, 10, 2));
}

#[test]
fn second_key_leaves_first_record_untouched() {
    let mut s = Store::new();
    s.touch(5, bits(100.0), 2, 10);
    s.record_outcome(true);
    s.touch(5, bits(200.0), 2, 20);
    s.touch(7, bits(50.0), 1, 21);
    let t7 = s.snapshot();
    assert_eq!(as_f32(t7.0), 50.0f32);
    assert_eq!((t7.1, t7.2, t7.3), (0, 21, 1));
    // Re-select key 5 without changing its size: it still reports its own
    // statistics, untouched by everything done to key 7.
    s.touch(5, bits(200.0), 2, 22);
    let t5 = s.snapshot();
    assert_eq!(as_f32(t5.0), 200.0f32);
    assert_eq!((t5.1, t5.2, t5.3), (1, 10, 2));
}

#[test]
fn misses_and_hits_accumulate_separately() {
    let mut s = Store::new();
    s.touch(9, bits(8.5), 4, 1);
    s.record_outcome(false);
    s.record_outcome(false);
    s.record_outcome(true);
    let t = s.snapshot();
    assert_eq!(as_f32(t.0), 8.5f32);
    assert_eq!((t.1, t.2, t.3), (3, 1, 4));
}

#[test]
fn touch_returns_copy_of_selected_record() {
    let mut s = Store::new();
    let r = s.touch(3, bits(12.0), 6, 2);
    assert_eq!(as_f32(r.size_bits()), 12.0f32);
    assert_eq!(r.hit_count(), 0);
    assert_eq!(r.miss_count(), 0);
    assert_eq!(r.last_request(), 2);
    assert_eq!(r.data_type(), 6);
    s.record_outcome(true);
    let again = s.touch(3, bits(12.0), 6, 3);
    assert_eq!(again.hit_count(), 1);
    assert_eq!(again.total_requests(), 1);
    // The first copy is independent of the store's own record.
    assert_eq!(r.hit_count(), 0);
}

#[test]
fn cursor_key_minus_one_is_an_ordinary_key() {
    // Touching key -1 makes the sentinel cursor resolve to a real record.
    let mut s = Store::new();
    s.touch(-1, bits(7.0), 3, 5);
    s.record_outcome(true);
    let t = s.snapshot();
    assert_eq!(as_f32(t.0), 7.0f32);
    assert_eq!((t.1, t.2, t.3), (1, 5, 3));
}
