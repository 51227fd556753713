use chrono::Utc;
use tap_tempo::{TapTempo, Tempo, Timestamp};

fn at(secs: i64, subsec_nanos: u32) -> Timestamp {
    Timestamp::new(secs, subsec_nanos).unwrap()
}

#[test]
fn test_new_has_recorded_nothing() {
    let tap_tempo = TapTempo::new();
    assert_eq!(tap_tempo.tap_count(), 0);
    assert_eq!(tap_tempo.start_datetime(), None);
}

#[test]
fn test_default_is_new() {
    let tap_tempo = TapTempo::default();
    assert_eq!(tap_tempo.tap_count(), 0);
    assert_eq!(tap_tempo.start_datetime(), None);
}

#[test]
fn test_first_tap_at_sets_start_and_reports_nothing() {
    let mut tap_tempo = TapTempo::new();
    let tempo = tap_tempo.tap_at(at(639_878_400, 7));
    assert_eq!(tempo, None);
    assert_eq!(tap_tempo.tap_count(), 1);
    assert_eq!(tap_tempo.start_datetime(), Some(at(639_878_400, 7)));
}

#[test]
fn test_second_tap_at_reports_estimate() {
    let mut tap_tempo = TapTempo::new();
    assert_eq!(tap_tempo.tap_at(at(100, 0)), None);
    let tempo = tap_tempo.tap_at(at(100, 500_000_000));
    assert_eq!(tempo, Some(Tempo { intervals: 1, elapsed_millis: 500 }));
    assert_eq!(tap_tempo.tap_count(), 2);
    assert_eq!(tap_tempo.start_datetime(), Some(at(100, 0)));
}

#[test]
fn test_second_tap_at_the_same_moment_reports_estimate() {
    let mut tap_tempo = TapTempo::new();
    assert_eq!(tap_tempo.tap_at(at(100, 0)), None);
    let tempo = tap_tempo.tap_at(at(100, 0));
    assert_eq!(tempo, Some(Tempo { intervals: 1, elapsed_millis: 0 }));
}

#[test]
fn test_taps_measure_from_the_first_tap() {
    let mut tap_tempo = TapTempo::new();
    assert_eq!(tap_tempo.tap_at(at(50, 0)), None);
    assert_eq!(tap_tempo.tap_at(at(50, 500_000_000)), Some(Tempo { intervals: 1, elapsed_millis: 500 }));
    assert_eq!(tap_tempo.tap_at(at(51, 0)), Some(Tempo { intervals: 2, elapsed_millis: 1000 }));
    assert_eq!(tap_tempo.tap_at(at(51, 500_000_000)), Some(Tempo { intervals: 3, elapsed_millis: 1500 }));
    assert_eq!(tap_tempo.tap_count(), 4);
    assert_eq!(tap_tempo.start_datetime(), Some(at(50, 0)));
}

#[test]
fn test_tap_before_the_start_reports_nothing_but_counts() {
    let mut tap_tempo = TapTempo::new();
    assert_eq!(tap_tempo.tap_at(at(50, 0)), None);
    assert_eq!(tap_tempo.tap_at(at(49, 999_999_999)), None);
    assert_eq!(tap_tempo.tap_count(), 2);
    assert_eq!(tap_tempo.start_datetime(), Some(at(50, 0)));
    assert_eq!(tap_tempo.tap_at(at(52, 0)), Some(Tempo { intervals: 2, elapsed_millis: 2000 }));
    assert_eq!(tap_tempo.tap_count(), 3);
}

#[test]
fn test_count_equals_number_of_taps() {
    for n in [0u128, 1, 2, 3, 10, 257] {
        let mut tap_tempo = TapTempo::new();
        let mut i: u128 = 0;
        while i < n {
            tap_tempo.tap_at(at(1_000 + i as i64, 0));
            i += 1;
        }
        assert_eq!(tap_tempo.tap_count(), n);
        assert_eq!(tap_tempo.start_datetime().is_some(), n >= 1);
    }
}

#[test]
fn test_count_equals_number_of_taps_by_the_clock() {
    let mut tap_tempo = TapTempo::new();
    for n in 1..=20u128 {
        tap_tempo.tap();
        assert_eq!(tap_tempo.tap_count(), n);
    }
}

#[test]
fn test_tap_keeps_the_first_reading_as_start() {
    let mut tap_tempo = TapTempo::new();
    let before = Utc::now();
    assert_eq!(tap_tempo.tap(), None);
    let after = Utc::now();
    let start = tap_tempo.start_datetime().unwrap();
    assert!(before.timestamp() <= start.secs());
    assert!(start.secs() <= after.timestamp());
    assert!(start.subsec_nanos() < 1_000_000_000);
    tap_tempo.tap();
    tap_tempo.tap();
    assert_eq!(tap_tempo.start_datetime(), Some(start));
}

#[test]
fn test_tap_reports_one_interval_less_than_taps() {
    let mut tap_tempo = TapTempo::new();
    assert_eq!(tap_tempo.tap(), None);
    for n in 2..=5u128 {
        if let Some(tempo) = tap_tempo.tap() {
            assert_eq!(tempo.intervals, n - 1);
            assert!(tempo.elapsed_millis < 60_000);
        }
    }
}
