use iot_client_template::WatchdogHandler;

#[test]
fn disabled_watchdog_never_pulses() {
    let mut w = WatchdogHandler::new(None, 0);
    assert!(!w.is_enabled());
    assert_eq!(w.interval_us(), u64::MAX);
    for now in [0, 1, 1_000_000, u64::MAX] {
        assert!(!w.notify(now));
    }
}

#[test]
fn enabled_watchdog_uses_half_the_interval() {
    let w = WatchdogHandler::new(Some(1_000_000), 5);
    assert!(w.is_enabled());
    assert_eq!(w.interval_us(), 500_000);
}

#[test]
fn pulse_comes_only_after_half_the_interval() {
    let mut w = WatchdogHandler::new(Some(1_000_000), 100);
    assert!(!w.notify(100));
    assert!(!w.notify(400_000));
    assert!(!w.notify(500_100));
    assert!(w.notify(500_101));
    assert!(!w.notify(500_101));
    assert!(!w.notify(1_000_101));
    assert!(w.notify(1_000_102));
}

#[test]
fn pulses_are_spaced_by_the_interval() {
    let mut w = WatchdogHandler::new(Some(20), 0);
    let mut last_pulse = 0u64;
    let mut pulses = 0;
    for now in 0..200u64 {
        if w.notify(now) {
            assert!(now - last_pulse > 10);
            last_pulse = now;
            pulses += 1;
        }
    }
    assert_eq!(pulses, 18);
}

#[test]
fn clock_reading_earlier_does_not_pulse() {
    let mut w = WatchdogHandler::new(Some(10), 1_000);
    assert!(!w.notify(0));
    assert!(w.notify(1_006));
}
