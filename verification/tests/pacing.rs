use pulr::datatypes::OutputType;
use pulr::pacing::{skip_past, Beacon, IntervalLoop, Pace, Resend};
use pulr::tools::SleepTricks;

const MS: u64 = 1_000_000;

#[test]
fn sweeps_in_time_are_an_interval_apart() {
    let mut pace = IntervalLoop::new(100 * MS, 0);
    assert_eq!(pace.next_iter, 100 * MS);
    let mut wakes = Vec::new();
    for (k, busy) in [30u64, 99, 1, 50].into_iter().enumerate() {
        let now = k as u64 * 100 * MS + busy * MS;
        match pace.sleep(now) {
            Pace::OnTime { wait } => wakes.push(now + wait),
            Pace::Overrun { .. } => panic!("late"),
        }
    }
    assert_eq!(wakes, vec![100 * MS, 200 * MS, 300 * MS, 400 * MS]);
    assert_eq!(pace.next_iter, 500 * MS);
}

#[test]
fn an_overrun_starts_the_count_anew() {
    let mut pace = IntervalLoop::new(100 * MS, 0);
    let late = pace.sleep(130 * MS);
    assert_eq!(late, Pace::Overrun { late: 30 * MS });
    assert!(!late.on_time());
    assert_eq!(pace.next_iter, 230 * MS);
    let next = pace.sleep(200 * MS);
    assert_eq!(next, Pace::OnTime { wait: 30 * MS });
    assert!(next.on_time());
    assert_eq!(pace.next_iter, 330 * MS);
    assert_eq!(pace.sleep(330 * MS), Pace::Overrun { late: 0 });
    assert_eq!(pace.next_iter, 430 * MS);
    assert_eq!(pace.interval, 100 * MS);
}

#[test]
fn the_warning_of_an_overrun() {
    let pace = IntervalLoop::new(100 * MS, 0);
    assert_eq!(pace.warning(30 * MS), "WARNING: loop timeout (100 ms + 30 ms)");
    assert_eq!(pace.warning(1_234_567), "WARNING: loop timeout (100 ms + 1.234 ms)");
    let odd = IntervalLoop::new(2_500_000, 0);
    assert_eq!(odd.warning(0), "WARNING: loop timeout (2.5 ms + 0 ms)");
    assert_eq!(odd.warning(10_000), "WARNING: loop timeout (2.5 ms + 0.01 ms)");
}

#[test]
fn skipping_whole_intervals() {
    assert_eq!(skip_past(10, 5, 10), 15);
    assert_eq!(skip_past(10, 5, 14), 15);
    assert_eq!(skip_past(10, 5, 15), 20);
    assert_eq!(skip_past(10, 5, 1000), 1005);
    assert_eq!(skip_past(10, 5, 1003), 1005);
    assert_eq!(skip_past(0, 1, 0), 1);
    assert_eq!(skip_past(7, 1000, 7), 1007);
}

#[test]
fn a_silent_beacon_pings_once() {
    let second = 1000 * MS;
    let mut beacon = Beacon::new(OutputType::Stdout, 2 * second, 0);
    assert!(beacon.enabled);
    assert_eq!(beacon.next_beacon, 2 * second);
    assert_eq!(beacon.ping(second), None);
    assert_eq!(beacon.next_beacon, 2 * second);
    let now = 2 * second + 7 * 2 * second;
    assert_eq!(beacon.ping(now), Some(String::new()));
    assert_eq!(beacon.next_beacon, now + 2 * second);
    assert_eq!(beacon.ping(now), None);
    assert_eq!(beacon.ping(now + 2 * second - 1), None);
    assert_eq!(beacon.ping(now + 2 * second), Some(String::new()));
    assert_eq!(beacon.next_beacon, now + 4 * second);
    assert_eq!(beacon.ping(now + 5 * second), Some(String::new()));
    assert_eq!(beacon.next_beacon, now + 6 * second);
}

#[test]
fn a_beacon_without_interval_is_off() {
    for interval in [0u64, 1, 999] {
        let mut beacon = Beacon::new(OutputType::StdoutCsv, interval, 5);
        assert!(!beacon.enabled);
        assert_eq!(beacon.ping(5), None);
        assert_eq!(beacon.ping(1_000_000_000_000), None);
        assert_eq!(beacon.next_beacon, 5 + interval);
    }
    let mut least = Beacon::new(OutputType::StdoutNdJson, 1000, 0);
    assert!(least.enabled);
    assert_eq!(least.ping(999), None);
    assert_eq!(least.ping(1000), Some(String::new()));
    assert_eq!(least.next_beacon, 2000);
}

#[test]
fn the_resend_schedule() {
    assert_eq!(Resend::new(None, 5), None);
    assert_eq!(Resend::new(Some(0), 5), None);
    let mut resend = Resend::new(Some(10), 5).unwrap();
    assert_eq!(resend, Resend { interval: 10, next: 15 });
    assert!(!resend.tick(14));
    assert_eq!(resend.next, 15);
    assert!(resend.tick(15));
    assert_eq!(resend.next, 25);
    assert!(!resend.tick(24));
    assert!(resend.tick(99));
    assert_eq!(resend.next, 105);
    assert!(!resend.tick(99));
}

#[test]
fn waiting_for_a_moment() {
    assert_eq!(100u64.sleep_until(40), Some(60));
    assert_eq!(100u64.sleep_until(99), Some(1));
    assert_eq!(100u64.sleep_until(100), None);
    assert_eq!(100u64.sleep_until(500), None);
    assert_eq!(0u64.sleep_until(0), None);
}
