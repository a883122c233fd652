use worldgen::spline::{order_key, segment_index, validate_locations, SplineError};

fn key(v: f32) -> i32 {
    order_key(v.to_bits())
}

#[test]
fn order_keys_follow_float_order() {
    let values = [f32::NEG_INFINITY, -64.0, -1.5, -0.0, 0.0, 1e-30, 2.5, 64.0, f32::INFINITY];
    for w in values.windows(2) {
        assert!(key(w[0]) < key(w[1]));
    }
    assert_eq!(key(0.0), 0);
    assert_eq!(key(-0.0), -1);
}

#[test]
fn validate_spline_locations() {
    assert_eq!(validate_locations(&vec![]), Err(SplineError::EmptyPoints));
    assert_eq!(validate_locations(&vec![key(1.0), key(0.0)]), Err(SplineError::Unsorted));
    assert_eq!(validate_locations(&vec![key(1.0), key(1.0)]), Err(SplineError::Unsorted));
    assert_eq!(validate_locations(&vec![key(-64.0), key(-32.0), key(0.0), key(32.0)]), Ok(()));
    assert_eq!(validate_locations(&vec![key(5.0)]), Ok(()));
}

#[test]
fn spline_segments() {
    let keys = vec![key(-64.0), key(-32.0), key(0.0), key(32.0), key(64.0)];
    assert_eq!(segment_index(&keys, key(-100.0)), -1);
    assert_eq!(segment_index(&keys, key(-64.0)), 0);
    assert_eq!(segment_index(&keys, key(-40.0)), 0);
    assert_eq!(segment_index(&keys, key(0.0)), 2);
    assert_eq!(segment_index(&keys, key(-0.0)), 1);
    assert_eq!(segment_index(&keys, key(31.9)), 2);
    assert_eq!(segment_index(&keys, key(64.0)), 4);
    assert_eq!(segment_index(&keys, key(1000.0)), 4);
    assert_eq!(segment_index(&vec![], key(3.0)), -1);
}
