use hydra_installer::progress::{
    eta, percentage, sample_due, snapshot, speed, Percentage, Ratio, SAMPLE_INTERVAL_MS,
};

fn value(r: Ratio) -> f64 {
    r.num as f64 / r.den as f64
}

#[test]
fn speed_is_bytes_per_second() {
    assert_eq!(speed(5000, 2000), Ratio { num: 5_000_000, den: 2000 });
    assert_eq!(value(speed(5000, 2000)), 2500.0);
}

#[test]
fn speed_is_zero_before_time_passes() {
    assert_eq!(speed(5000, 0), Ratio { num: 0, den: 1 });
}

#[test]
fn percentage_of_known_total() {
    assert_eq!(percentage(250, Some(1000)), Percentage::Known(Ratio { num: 25_000, den: 1000 }));
    assert_eq!(percentage(1000, Some(1000)), Percentage::Known(Ratio { num: 100_000, den: 1000 }));
    assert_eq!(percentage(0, Some(1000)), Percentage::Known(Ratio { num: 0, den: 1000 }));
}

#[test]
fn percentage_unknown_without_total() {
    assert_eq!(percentage(250, None), Percentage::Unknown);
    assert_eq!(percentage(0, None), Percentage::Unknown);
}

#[test]
fn percentage_of_empty_body_is_complete() {
    assert_eq!(percentage(0, Some(0)), Percentage::Known(Ratio { num: 100, den: 1 }));
}

#[test]
fn percentage_stays_within_bounds() {
    for (d, t) in [(0u64, 1u64), (1, 3), (7, 7), (u64::MAX, u64::MAX), (12345, 99999)] {
        match snapshot(d, Some(t), 500).percentage {
            Percentage::Known(r) => {
                let v = value(r);
                assert!(v >= 0.0 && v <= 100.0);
            }
            Percentage::Unknown => panic!("a known total gives a known percentage"),
        }
    }
    assert_eq!(snapshot(10, None, 500).percentage, Percentage::Unknown);
}

#[test]
fn eta_is_remaining_over_speed() {
    // 1000 bytes in 2 s: 500 B/s; 3000 bytes left: 6 s.
    let r = eta(1000, Some(4000), 2000).unwrap();
    assert_eq!(r, Ratio { num: 3000 * 2000, den: 1000 * 1000 });
    assert_eq!(value(r), 6.0);
    let p = snapshot(1000, Some(4000), 2000);
    assert_eq!(value(p.eta.unwrap()), 3000.0 / value(p.speed));
}

#[test]
fn eta_absent_when_rate_is_zero() {
    assert_eq!(eta(1000, Some(4000), 0), None);
    assert_eq!(eta(0, Some(4000), 2000), None);
}

#[test]
fn eta_absent_when_nothing_remains() {
    assert_eq!(eta(4000, Some(4000), 2000), None);
    assert_eq!(eta(5000, Some(4000), 2000), None);
    assert_eq!(eta(1000, None, 2000), None);
}

#[test]
fn eta_with_largest_values() {
    let r = eta(1, Some(u64::MAX), u64::MAX).unwrap();
    assert_eq!(r.num, (u64::MAX as u128 - 1) * u64::MAX as u128);
    assert_eq!(r.den, 1000);
}

#[test]
fn snapshot_carries_counts() {
    let p = snapshot(300, Some(600), 1500);
    assert_eq!(p.downloaded, 300);
    assert_eq!(p.total, Some(600));
    assert_eq!(value(p.speed), 200.0);
}

#[test]
fn sampling_waits_for_the_interval() {
    assert_eq!(SAMPLE_INTERVAL_MS, 100);
    assert!(!sample_due(0, 99));
    assert!(sample_due(0, 100));
    assert!(sample_due(250, 400));
    assert!(!sample_due(400, 250));
    assert!(!sample_due(u64::MAX - 10, u64::MAX));
}
