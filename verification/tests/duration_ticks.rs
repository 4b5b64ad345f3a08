use processbot::duration_ticks::{elapsed_since, ticks};

#[test]
fn ticks_without_timer_is_none() {
    assert_eq!(ticks(None, 60), None);
    assert_eq!(ticks(None, 1), None);
    assert_eq!(ticks(None, 0), None);
}

#[test]
fn ticks_before_first_interval_is_zero() {
    assert_eq!(ticks(Some(0), 60), Some(0));
    assert_eq!(ticks(Some(59), 60), Some(0));
}

#[test]
fn ticks_is_floor_of_quotient() {
    assert_eq!(ticks(Some(60), 60), Some(1));
    assert_eq!(ticks(Some(119), 60), Some(1));
    assert_eq!(ticks(Some(120), 60), Some(2));
    assert_eq!(ticks(Some(u64::MAX), 1), Some(u64::MAX));
    assert_eq!(ticks(Some(7), 2), Some(3));
}

#[test]
fn ticks_never_decreases_with_time() {
    let mut last = 0;
    for d in 0..500u64 {
        let n = ticks(Some(d), 7).unwrap();
        assert!(n >= last);
        last = n;
    }
    assert_eq!(last, 71);
}

#[test]
fn elapsed_since_measures_whole_seconds() {
    assert_eq!(elapsed_since(None, 100), None);
    assert_eq!(elapsed_since(Some(40), 100), Some(60));
    assert_eq!(elapsed_since(Some(100), 100), Some(0));
    assert_eq!(elapsed_since(Some(101), 100), None);
}
