use summer_boot::http2::config::{KeepAlive, Service2Options};
use summer_boot::time::Duration;

fn secs(s: u64) -> Duration {
    Duration::from_secs(s)
}

#[test]
fn duration_parts() {
    let d = Duration::new(3, 2_500_000_000);
    assert_eq!(d.as_secs(), 5);
    assert_eq!(d.subsec_nanos(), 500_000_000);
    let m = Duration::from_millis(1_250);
    assert_eq!(m.as_secs(), 1);
    assert_eq!(m.subsec_nanos(), 250_000_000);
    assert!(Duration::zero().is_zero());
    assert!(!Duration::new(0, 1).is_zero());
    assert_eq!(Duration::new(1, 0), Duration::from_millis(1_000));
    assert_ne!(Duration::new(1, 0), Duration::new(0, 999_999_999));
}

#[test]
fn normalize_maps_zero_timeout_to_disabled() {
    assert_eq!(KeepAlive::Timeout(Duration::zero()).normalize(), KeepAlive::Disabled);
    assert_eq!(KeepAlive::Timeout(secs(3)).normalize(), KeepAlive::Timeout(secs(3)));
    assert_eq!(KeepAlive::Os.normalize(), KeepAlive::Os);
    assert_eq!(KeepAlive::Disabled.normalize(), KeepAlive::Disabled);
}

#[test]
fn normalize_is_idempotent() {
    for ka in [
        KeepAlive::Timeout(Duration::zero()),
        KeepAlive::Timeout(Duration::new(0, 7)),
        KeepAlive::Os,
        KeepAlive::Disabled,
    ] {
        assert_eq!(ka.normalize().normalize(), ka.normalize());
    }
}

#[test]
fn keep_alive_enabled_and_duration() {
    assert!(KeepAlive::Timeout(secs(1)).enabled());
    assert!(KeepAlive::Os.enabled());
    assert!(!KeepAlive::Disabled.enabled());
    assert_eq!(KeepAlive::Timeout(secs(9)).duration(), Some(secs(9)));
    assert_eq!(KeepAlive::Os.duration(), None);
    assert_eq!(KeepAlive::Disabled.duration(), None);
}

#[test]
fn keep_alive_default_is_five_seconds() {
    assert_eq!(KeepAlive::default(), KeepAlive::Timeout(secs(5)));
}

#[test]
fn keep_alive_from_duration() {
    assert_eq!(KeepAlive::from(secs(7)), KeepAlive::Timeout(secs(7)));
    assert_eq!(KeepAlive::from(Duration::zero()), KeepAlive::Disabled);
    assert_eq!(KeepAlive::from(Some(secs(2))), KeepAlive::Timeout(secs(2)));
    assert_eq!(KeepAlive::from(Some(Duration::zero())), KeepAlive::Disabled);
    assert_eq!(KeepAlive::from(None::<Duration>), KeepAlive::Disabled);
}

#[test]
fn options_store_normalized_keep_alive() {
    let opts = Service2Options::new(KeepAlive::Timeout(Duration::zero()), secs(1), secs(2));
    assert_eq!(opts.keep_alive(), KeepAlive::Disabled);
    let opts = Service2Options::new(KeepAlive::Timeout(secs(4)), secs(1), secs(2));
    assert_eq!(opts.keep_alive(), KeepAlive::Timeout(secs(4)));
    let opts = Service2Options::new(KeepAlive::Os, secs(1), secs(2));
    assert_eq!(opts.keep_alive(), KeepAlive::Os);
}

#[test]
fn options_default() {
    let opts = Service2Options::default();
    assert_eq!(opts.keep_alive(), KeepAlive::Timeout(secs(5)));
    let request = opts.client_request_deadline().expect("five-second request timeout");
    assert_eq!(request.timeout, secs(5));
    assert!(opts.client_disconnect_deadline().is_none());
}

#[test]
fn keep_alive_deadline_by_policy() {
    let before = std::time::Instant::now();
    let opts = Service2Options::new(KeepAlive::Timeout(secs(3)), Duration::zero(), Duration::zero());
    let d = opts.keep_alive_deadline().expect("timeout policy has a deadline");
    let after = std::time::Instant::now();
    assert_eq!(d.timeout, secs(3));
    assert!(before <= d.start && d.start <= after);

    let os = Service2Options::new(KeepAlive::Os, Duration::zero(), Duration::zero());
    assert!(os.keep_alive_deadline().is_none());
    let off = Service2Options::new(KeepAlive::Disabled, Duration::zero(), Duration::zero());
    assert!(off.keep_alive_deadline().is_none());
    let zero = Service2Options::new(KeepAlive::Timeout(Duration::zero()), secs(1), secs(1));
    assert!(zero.keep_alive_deadline().is_none());
}

#[test]
fn deadlines_from_given_clock_reading() {
    let now = std::time::Instant::now();
    let opts = Service2Options::new(KeepAlive::Timeout(secs(8)), Duration::new(0, 10), Duration::zero());
    let ka = opts.keep_alive_deadline_from(now).unwrap();
    assert_eq!(ka.start, now);
    assert_eq!(ka.timeout, secs(8));
    let req = opts.client_request_deadline_from(now).unwrap();
    assert_eq!(req.start, now);
    assert_eq!(req.timeout, Duration::new(0, 10));
    assert!(opts.client_disconnect_deadline_from(now).is_none());

    let opts = Service2Options::new(KeepAlive::Disabled, Duration::zero(), secs(30));
    assert!(opts.keep_alive_deadline_from(now).is_none());
    assert!(opts.client_request_deadline_from(now).is_none());
    let dis = opts.client_disconnect_deadline_from(now).unwrap();
    assert_eq!(dis.start, now);
    assert_eq!(dis.timeout, secs(30));
}

#[test]
fn client_deadlines_measured_from_now() {
    let before = std::time::Instant::now();
    let opts = Service2Options::new(KeepAlive::Os, secs(11), secs(12));
    let req = opts.client_request_deadline().unwrap();
    let dis = opts.client_disconnect_deadline().unwrap();
    let after = std::time::Instant::now();
    assert_eq!(req.timeout, secs(11));
    assert_eq!(dis.timeout, secs(12));
    assert!(before <= req.start && req.start <= after);
    assert!(before <= dis.start && dis.start <= after);
}
