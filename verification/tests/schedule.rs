use grand_pattern_bench_v2::{conservation_check_due, in_anomaly_window, ANOMALY_TICKS, CHECK_INTERVAL};

#[test]
fn anomaly_window_edges() {
    assert_eq!(ANOMALY_TICKS, 100);
    assert!(!in_anomaly_window(2999, Some(3000)));
    assert!(in_anomaly_window(3000, Some(3000)));
    assert!(in_anomaly_window(3099, Some(3000)));
    assert!(!in_anomaly_window(3100, Some(3000)));
    assert!(!in_anomaly_window(0, None));
    assert!(!in_anomaly_window(5000, None));
}

#[test]
fn anomaly_window_lasts_exactly_its_length() {
    let active = (0..10_000usize).filter(|&t| in_anomaly_window(t, Some(5000))).count();
    assert_eq!(active, 100);
}

#[test]
fn anomaly_window_near_the_top_of_usize() {
    assert!(in_anomaly_window(usize::MAX, Some(usize::MAX - 5)));
    assert!(!in_anomaly_window(usize::MAX - 6, Some(usize::MAX - 5)));
}

#[test]
fn conservation_check_cadence() {
    assert_eq!(CHECK_INTERVAL, 100);
    assert!(conservation_check_due(200, 1, 1));
    assert!(conservation_check_due(0, 3, 4));
    assert!(!conservation_check_due(250, 1, 1));
    assert!(!conservation_check_due(300, 0, 1));
    assert!(!conservation_check_due(300, 1, 0));
}
