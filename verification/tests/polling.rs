use corsair_void::device::polling::{
    PollAction, PollEvent, PollStep, Poller, ReadOutcome, ERROR_PAUSE_MS,
    HOTPLUG_FALLBACK_TIMEOUT_MS,
};
use corsair_void::device::protocol::{
    BatteryStatus, ConnectionStatus, HeadsetStatus, POLL_INTERVAL_MS,
};
use corsair_void::device::DeviceEvent;

const READ: PollAction = PollAction::Read {
    timeout_ms: POLL_INTERVAL_MS,
};
const PAUSE: PollAction = PollAction::Pause { ms: ERROR_PAUSE_MS };
const WAIT: PollAction = PollAction::AwaitHotplug {
    timeout_ms: HOTPLUG_FALLBACK_TIMEOUT_MS,
};

fn status(battery_percent: u8) -> HeadsetStatus {
    HeadsetStatus {
        mic_up: false,
        battery_percent,
        battery_status: BatteryStatus::Normal,
        connection: ConnectionStatus::WirelessConnected,
    }
}

fn silent(action: PollAction) -> PollStep {
    PollStep { emit: None, action }
}

fn reading(needs_health_check: bool, now: u64) -> Poller {
    let mut poller = Poller::new();
    assert_eq!(poller.action(), PollAction::Open);
    let opened = poller.step(PollEvent::Opened { needs_health_check }, now);
    assert_eq!(opened.emit, Some(DeviceEvent::Connected));
    assert_eq!(opened.action, PollAction::RequestStatus);
    assert_eq!(
        poller.step(PollEvent::Sent { ok: false }, now),
        silent(PollAction::RequestNotifications)
    );
    assert_eq!(poller.step(PollEvent::Sent { ok: false }, now), silent(READ));
    assert!(poller.opened());
    poller
}

#[test]
fn a_missing_device_is_waited_for() {
    let mut poller = Poller::new();
    assert_eq!(poller.step(PollEvent::OpenFailed, 0), silent(WAIT));
    assert!(!poller.opened());
    assert_eq!(poller.step(PollEvent::Woken, 9), silent(PollAction::Open));
}

#[test]
fn statuses_are_reported() {
    let mut poller = reading(true, 1_000);
    let step = poller.step(PollEvent::Read(ReadOutcome::Status(status(70))), 1_100);
    assert_eq!(step.emit, Some(DeviceEvent::StatusUpdate(status(70))));
    assert_eq!(step.action, READ);
    assert_eq!(
        poller.step(PollEvent::Read(ReadOutcome::Nothing), 1_200),
        silent(READ)
    );
}

#[test]
fn ten_failures_in_a_row_disconnect() {
    let mut poller = reading(true, 0);
    for n in 1..10 {
        assert_eq!(
            poller.step(PollEvent::Read(ReadOutcome::Failed), n),
            silent(PAUSE)
        );
        assert_eq!(poller.step(PollEvent::Paused, n), silent(READ));
        // A timeout in between changes nothing.
        assert_eq!(
            poller.step(PollEvent::Read(ReadOutcome::Nothing), n),
            silent(PAUSE)
        );
        assert_eq!(poller.step(PollEvent::Paused, n), silent(READ));
    }
    let last = poller.step(PollEvent::Read(ReadOutcome::Failed), 10);
    assert_eq!(last.emit, Some(DeviceEvent::Disconnected));
    assert_eq!(last.action, WAIT);
}

#[test]
fn data_clears_the_failures() {
    let mut poller = reading(true, 0);
    for _ in 0..9 {
        let _ = poller.step(PollEvent::Read(ReadOutcome::Failed), 1);
        let _ = poller.step(PollEvent::Paused, 1);
    }
    assert_eq!(poller.consecutive_errors, 9);
    let _ = poller.step(PollEvent::Read(ReadOutcome::Status(status(1))), 2);
    assert_eq!(poller.consecutive_errors, 0);
    assert_eq!(
        poller.step(PollEvent::Read(ReadOutcome::Failed), 3),
        silent(PAUSE)
    );
}

#[test]
fn the_notification_request_is_repeated() {
    let mut poller = reading(false, 0);
    assert_eq!(
        poller.step(PollEvent::Read(ReadOutcome::Nothing), 4_999),
        silent(READ)
    );
    assert_eq!(
        poller.step(PollEvent::Read(ReadOutcome::Nothing), 5_000),
        silent(PollAction::RequestNotifications)
    );
    assert_eq!(poller.step(PollEvent::Sent { ok: true }, 5_001), silent(READ));
    assert_eq!(poller.last_notif_request, 5_000);
    // One that cannot be written counts as a failure.
    let _ = poller.step(PollEvent::Read(ReadOutcome::Nothing), 10_000);
    assert_eq!(
        poller.step(PollEvent::Sent { ok: false }, 10_000),
        silent(PAUSE)
    );
    assert_eq!(poller.consecutive_errors, 1);
}

#[test]
fn a_silent_dongle_is_checked_and_given_up() {
    let mut poller = reading(true, 0);
    let _ = poller.step(PollEvent::Read(ReadOutcome::Nothing), 29_999);
    assert_eq!(
        poller.step(PollEvent::Sent { ok: true }, 30_000),
        silent(PollAction::RequestStatus)
    );
    assert_eq!(
        poller.step(PollEvent::Sent { ok: true }, 30_001),
        silent(READ)
    );
    assert_eq!(
        poller.step(PollEvent::Read(ReadOutcome::Nothing), 34_998),
        silent(READ)
    );
    let _ = poller.step(PollEvent::Read(ReadOutcome::Nothing), 34_999);
    let last = poller.step(PollEvent::Sent { ok: true }, 35_001);
    assert_eq!(last.emit, Some(DeviceEvent::Disconnected));
    assert_eq!(last.action, WAIT);
}

#[test]
fn an_answer_ends_the_check() {
    let mut poller = reading(true, 0);
    let _ = poller.step(PollEvent::Read(ReadOutcome::Nothing), 30_000);
    let _ = poller.step(PollEvent::Sent { ok: true }, 30_000);
    let _ = poller.step(PollEvent::Sent { ok: true }, 30_000);
    assert_eq!(poller.health_check_at, Some(30_000));
    let _ = poller.step(PollEvent::Read(ReadOutcome::Status(status(5))), 30_100);
    assert_eq!(poller.health_check_at, None);
    assert_eq!(poller.last_data_received, 30_100);
}

#[test]
fn a_check_that_cannot_be_written_disconnects() {
    let mut poller = reading(true, 0);
    let _ = poller.step(PollEvent::Read(ReadOutcome::Nothing), 30_000);
    let _ = poller.step(PollEvent::Sent { ok: true }, 30_000);
    let last = poller.step(PollEvent::Sent { ok: false }, 30_000);
    assert_eq!(last.emit, Some(DeviceEvent::Disconnected));
}

#[test]
fn live_backends_may_be_silent() {
    let mut poller = reading(false, 0);
    for now in [40_000, 80_000, 120_000] {
        assert_eq!(
            poller.step(PollEvent::Read(ReadOutcome::Nothing), now),
            silent(PollAction::RequestNotifications)
        );
        assert_eq!(poller.step(PollEvent::Sent { ok: true }, now), silent(READ));
    }
}

#[test]
fn a_device_found_again_starts_afresh() {
    let mut poller = reading(true, 0);
    for _ in 0..10 {
        let _ = poller.step(PollEvent::Read(ReadOutcome::Failed), 1);
        let _ = poller.step(PollEvent::Paused, 1);
    }
    assert_eq!(poller.action(), WAIT);
    let _ = poller.step(PollEvent::Woken, 2);
    let again = poller.step(
        PollEvent::Opened {
            needs_health_check: true,
        },
        3,
    );
    assert_eq!(again.emit, Some(DeviceEvent::Connected));
    let _ = poller.step(PollEvent::Sent { ok: true }, 4);
    let _ = poller.step(PollEvent::Sent { ok: true }, 50_000);
    assert_eq!(poller, reading(true, 50_000));
}

#[test]
fn unexpected_events_change_nothing() {
    let mut poller = Poller::new();
    let before = poller;
    assert_eq!(
        poller.step(PollEvent::Read(ReadOutcome::Status(status(1))), 7),
        silent(PollAction::Open)
    );
    assert_eq!(poller, before);
}
