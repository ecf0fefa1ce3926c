use chrono::{NaiveDateTime, TimeZone, Utc};
use youtube_live_manager::scheduler::{Scheduler, TimerStep, POLL_SLICE_MS, seconds_between};

/// Drives a timer from `start_ms` to `end_ms` as its driver would, sleeping
/// what each poll asks (or one slice once it is done), and counts firings.
/// `cancel_at_ms` cancels it at that moment.
fn drive(t: &mut Scheduler, start_ms: u64, end_ms: u64, cancel_at_ms: Option<u64>) -> (u32, Vec<u64>) {
    let mut now = start_ms;
    let mut fired = 0;
    let mut fire_times = Vec::new();
    while now <= end_ms {
        if let Some(c) = cancel_at_ms {
            if now >= c && !t.is_cancelled() {
                t.cancel();
            }
        }
        match t.poll(now) {
            TimerStep::Sleep(ms) => {
                assert!(ms > 0 && ms <= POLL_SLICE_MS);
                now += ms;
            }
            TimerStep::Fire => {
                fired += 1;
                fire_times.push(now);
                now += POLL_SLICE_MS;
            }
            TimerStep::Finished => now += POLL_SLICE_MS,
        }
    }
    (fired, fire_times)
}

#[test]
fn test_scheduler_fires() {
    let mut t = Scheduler::new(1, 0);
    let (count, times) = drive(&mut t, 0, 1500, None);
    assert_eq!(count, 1);
    assert!(times[0] >= 1000 && times[0] <= 1200);
}

#[test]
fn test_scheduler_cancel() {
    let mut t = Scheduler::new(2, 0);
    let (count, _) = drive(&mut t, 0, 500 + 2000, Some(500));
    assert_eq!(count, 0);
    assert!(t.is_cancelled());
    assert!(!t.has_fired());
}

#[test]
fn timer_never_fires_early() {
    let mut t = Scheduler::new(2, 10_000);
    assert_eq!(t.poll(10_000), TimerStep::Sleep(100));
    assert_eq!(t.poll(11_950), TimerStep::Sleep(50));
    assert_eq!(t.poll(11_999), TimerStep::Sleep(1));
    assert_eq!(t.poll(12_000), TimerStep::Fire);
    assert_eq!(t.poll(12_001), TimerStep::Finished);
    assert!(t.has_fired());
}

#[test]
fn cancel_after_deadline_but_before_poll_prevents_firing() {
    let mut t = Scheduler::new(1, 0);
    t.cancel();
    assert_eq!(t.poll(5_000), TimerStep::Finished);
    assert!(!t.has_fired());
}

#[test]
fn zero_delay_fires_on_first_poll() {
    let mut t = Scheduler::new(0, 42);
    assert_eq!(t.poll(42), TimerStep::Fire);
}

#[test]
fn huge_delay_saturates() {
    let mut t = Scheduler::new(u64::MAX, 5);
    assert_eq!(t.poll(u64::MAX - 1), TimerStep::Sleep(1));
    assert_eq!(t.poll(u64::MAX), TimerStep::Fire);
}

#[test]
fn seconds_between_clamps_past_to_zero() {
    assert_eq!(seconds_between(1_000, 400), 600);
    assert_eq!(seconds_between(400, 1_000), 0);
    assert_eq!(seconds_between(7, 7), 0);
    assert_eq!(seconds_between(i64::MAX, i64::MIN), u64::MAX);
}

#[test]
fn seconds_until_ten_minutes_ahead() {
    let tz = chrono_tz::Asia::Ho_Chi_Minh;
    let target = Utc::now().with_timezone(&tz) + chrono::Duration::minutes(10);
    let text = target.format("%Y-%m-%dT%H:%M").to_string();
    let naive = NaiveDateTime::parse_from_str(&text, "%Y-%m-%dT%H:%M").unwrap();
    let expected = tz.from_local_datetime(&naive).single().unwrap().timestamp() - Utc::now().timestamp();
    let got = Scheduler::calculate_seconds_until(&text, "Asia/Ho_Chi_Minh").unwrap() as i64;
    assert!((got - expected).abs() <= 1);
    assert!(got >= 539 && got <= 601);
}

#[test]
fn seconds_until_past_is_zero() {
    assert_eq!(Scheduler::calculate_seconds_until("2020-01-15T14:30", "Europe/Paris"), Some(0));
}

#[test]
fn seconds_until_rejects_unknown_zone() {
    assert_eq!(Scheduler::calculate_seconds_until("2030-01-15T14:30", "Mars/Olympus"), None);
}

#[test]
fn seconds_until_rejects_bad_datetime() {
    assert_eq!(Scheduler::calculate_seconds_until("2030-01-15 14:30", "UTC"), None);
    assert_eq!(Scheduler::calculate_seconds_until("", "UTC"), None);
}

#[test]
fn seconds_until_rejects_skipped_local_time() {
    // 02:30 does not exist in New York on the day clocks go forward.
    assert_eq!(Scheduler::calculate_seconds_until("2024-03-10T02:30", "America/New_York"), None);
}

#[test]
fn seconds_until_far_future_is_positive() {
    let s = Scheduler::calculate_seconds_until("2999-01-01T00:00", "UTC").unwrap();
    assert!(s > 30_000_000_000);
}
