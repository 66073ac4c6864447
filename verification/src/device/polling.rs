//! The polling loop of the headset as a state machine: it is told what came of its last action
//! and says what to do next and what to report.

use vstd::prelude::*;

use crate::device::protocol::{HeadsetStatus, POLL_INTERVAL_MS};
use crate::device::DeviceEvent;

verus! {

/// Failures in a row after which the device counts as disconnected.
pub const MAX_CONSECUTIVE_ERRORS: u32 = 10;

/// How often the notification request is repeated, in milliseconds.
pub const NOTIF_REFRESH_INTERVAL_MS: u64 = 5_000;

/// How long the device may stay silent before it is asked for its status, in milliseconds.
pub const NO_DATA_TIMEOUT_MS: u64 = 30_000;

/// How long the device may take to answer that, in milliseconds.
pub const HEALTH_CHECK_TIMEOUT_MS: u64 = 5_000;

/// How long to wait for a hotplug event before the device is looked for again, in milliseconds.
pub const HOTPLUG_FALLBACK_TIMEOUT_MS: u64 = 5_000;

/// How long to pause after a failure, in milliseconds.
pub const ERROR_PAUSE_MS: u64 = 500;

/// What came of reading the device.
#[derive(Debug, Clone, Copy, PartialEq, Eq, Structural)]
pub enum ReadOutcome {
    Status(HeadsetStatus),
    /// Nothing new within the polling interval.
    Nothing,
    Failed,
}

/// What came of the last action.
#[derive(Debug, Clone, Copy, PartialEq, Eq, Structural)]
pub enum PollEvent {
    Opened { needs_health_check: bool },
    OpenFailed,
    /// A request was written, or writing it failed.
    Sent { ok: bool },
    Read(ReadOutcome),
    Paused,
    /// A hotplug event came or the wait for it timed out.
    Woken,
}

/// What to do next.
#[derive(Debug, Clone, Copy, PartialEq, Eq, Structural)]
pub enum PollAction {
    /// Drop the hotplug events that have piled up, then open the device.
    Open,
    RequestStatus,
    RequestNotifications,
    Read { timeout_ms: u64 },
    Pause { ms: u64 },
    AwaitHotplug { timeout_ms: u64 },
}

/// What the loop is waiting for.
#[derive(Debug, Clone, Copy, PartialEq, Eq, Structural)]
pub enum PollPhase {
    Opening,
    InitialStatus,
    InitialNotifications,
    Reading,
    Refreshing,
    Checking,
    Pausing,
    Waiting,
}

/// What to report, if anything, and what to do next.
#[derive(Debug, Clone, Copy, PartialEq, Eq, Structural)]
pub struct PollStep {
    pub emit: Option<DeviceEvent>,
    pub action: PollAction,
}

/// The state of the polling loop. Times are in milliseconds on any clock that does not run
/// backwards.
#[derive(Debug, Clone, Copy, PartialEq, Eq, Structural)]
pub struct Poller {
    pub phase: PollPhase,
    pub needs_health_check: bool,
    pub consecutive_errors: u32,
    pub last_notif_request: u64,
    pub last_data_received: u64,
    /// When the device was asked for its status because it had been silent for too long.
    pub health_check_at: Option<u64>,
}

/// The time from `since` to `now`.
pub open spec fn elapsed(since: u64, now: u64) -> int {
    if now >= since {
        now - since
    } else {
        0
    }
}

/// The action whose outcome a phase waits for.
pub open spec fn pending_action(phase: PollPhase) -> PollAction {
    match phase {
        PollPhase::Opening => PollAction::Open,
        PollPhase::InitialStatus => PollAction::RequestStatus,
        PollPhase::InitialNotifications => PollAction::RequestNotifications,
        PollPhase::Reading => PollAction::Read { timeout_ms: POLL_INTERVAL_MS },
        PollPhase::Refreshing => PollAction::RequestNotifications,
        PollPhase::Checking => PollAction::RequestStatus,
        PollPhase::Pausing => PollAction::Pause { ms: ERROR_PAUSE_MS },
        PollPhase::Waiting => PollAction::AwaitHotplug { timeout_ms: HOTPLUG_FALLBACK_TIMEOUT_MS },
    }
}

/// The state before the first action: the device is about to be opened, and nothing has been asked,
/// read or failed yet.
pub open spec fn initial_poller() -> Poller {
    Poller {
        phase: PollPhase::Opening,
        needs_health_check: true,
        consecutive_errors: 0,
        last_notif_request: 0,
        last_data_received: 0,
        health_check_at: None,
    }
}

impl Poller {
    /// The device is open.
    pub open spec fn is_open(self) -> bool {
        !(self.phase is Opening) && !(self.phase is Waiting)
    }

    /// Holds of every state that the loop can reach: a device with too many failures is not read
    /// again, and a device that needs no check is never checked.
    pub open spec fn wf(self) -> bool {
        &&& self.phase is Reading || self.phase is Pausing ==> self.consecutive_errors
            < MAX_CONSECUTIVE_ERRORS
        &&& self.phase is Refreshing ==> self.consecutive_errors <= MAX_CONSECUTIVE_ERRORS
        &&& self.phase is Checking ==> self.needs_health_check
        &&& self.is_open() && !(self.phase is InitialStatus)
            && !(self.phase is InitialNotifications) && !self.needs_health_check
            ==> self.health_check_at is None
    }

    /// The state in which phase `phase` has been entered.
    pub open spec fn entering(self, phase: PollPhase) -> Poller {
        Poller { phase, ..self }
    }

    /// The state after the end of a round at time `now`: the device is given up when it did not
    /// answer a check in time or has failed too often; after a failure the loop pauses before it
    /// reads again.
    pub open spec fn after_round(self, now: u64) -> Poller {
        if self.health_check_at matches Some(at) && elapsed(at, now) >= HEALTH_CHECK_TIMEOUT_MS {
            self.entering(PollPhase::Waiting)
        } else if self.consecutive_errors >= MAX_CONSECUTIVE_ERRORS {
            self.entering(PollPhase::Waiting)
        } else if self.consecutive_errors > 0 {
            self.entering(PollPhase::Pausing)
        } else {
            self.entering(PollPhase::Reading)
        }
    }

    /// The device has been silent for so long that it has to be asked for its status.
    pub open spec fn check_due(self, now: u64) -> bool {
        &&& self.needs_health_check
        &&& self.health_check_at is None
        &&& elapsed(self.last_data_received, now) >= NO_DATA_TIMEOUT_MS
    }

    /// The state after the notification request, if it was due, is done.
    pub open spec fn after_refresh(self, now: u64) -> Poller {
        if self.check_due(now) {
            self.entering(PollPhase::Checking)
        } else {
            self.after_round(now)
        }
    }

    /// The state once the outcome of a read is noted: data clears the failures and answers a
    /// check, a timeout changes nothing.
    pub open spec fn noting(self, outcome: ReadOutcome, now: u64) -> Poller {
        match outcome {
            ReadOutcome::Status(_) => Poller {
                consecutive_errors: 0,
                last_data_received: now,
                health_check_at: None,
                ..self
            },
            ReadOutcome::Nothing => self,
            ReadOutcome::Failed => Poller {
                consecutive_errors: (self.consecutive_errors + 1) as u32,
                ..self
            },
        }
    }

    /// The state after a read.
    pub open spec fn after_read(self, outcome: ReadOutcome, now: u64) -> Poller {
        let noted = self.noting(outcome, now);
        if elapsed(noted.last_notif_request, now) >= NOTIF_REFRESH_INTERVAL_MS {
            Poller { last_notif_request: now, ..noted }.entering(PollPhase::Refreshing)
        } else {
            noted.after_refresh(now)
        }
    }

    /// The state after `event` at time `now`. An event that the phase does not wait for changes
    /// nothing.
    pub open spec fn next(self, event: PollEvent, now: u64) -> Poller {
        match (self.phase, event) {
            (PollPhase::Opening, PollEvent::Opened { needs_health_check }) => Poller {
                needs_health_check,
                ..self
            }.entering(PollPhase::InitialStatus),
            (PollPhase::Opening, PollEvent::OpenFailed) => self.entering(PollPhase::Waiting),
            (PollPhase::InitialStatus, PollEvent::Sent { ok }) => self.entering(
                PollPhase::InitialNotifications,
            ),
            (PollPhase::InitialNotifications, PollEvent::Sent { ok }) => Poller {
                phase: PollPhase::Reading,
                needs_health_check: self.needs_health_check,
                consecutive_errors: 0,
                last_notif_request: now,
                last_data_received: now,
                health_check_at: None,
            },
            (PollPhase::Reading, PollEvent::Read(outcome)) => self.after_read(outcome, now),
            (PollPhase::Refreshing, PollEvent::Sent { ok }) => if ok {
                self.after_refresh(now)
            } else {
                Poller {
                    consecutive_errors: (self.consecutive_errors + 1) as u32,
                    ..self
                }.after_refresh(now)
            },
            (PollPhase::Checking, PollEvent::Sent { ok }) => if ok {
                Poller { health_check_at: Some(now), ..self }.after_round(now)
            } else {
                self.entering(PollPhase::Waiting)
            },
            (PollPhase::Pausing, PollEvent::Paused) => self.entering(PollPhase::Reading),
            (PollPhase::Waiting, PollEvent::Woken) => self.entering(PollPhase::Opening),
            _ => self,
        }
    }

    /// What is reported on `event` at time `now`: that the device was opened, that it was given
    /// up, or the status that was read.
    pub open spec fn emitted(self, event: PollEvent, now: u64) -> Option<DeviceEvent> {
        let next = self.next(event, now);
        if !self.is_open() && next.is_open() {
            Some(DeviceEvent::Connected)
        } else if self.is_open() && !next.is_open() {
            Some(DeviceEvent::Disconnected)
        } else if self.phase is Reading {
            match event {
                PollEvent::Read(ReadOutcome::Status(status)) => Some(
                    DeviceEvent::StatusUpdate(status),
                ),
                _ => None,
            }
        } else {
            None
        }
    }

    /// The loop before its first action.
    pub fn new() -> (r: Self)
        ensures
            r.wf(),
            r == initial_poller(),
    {
        Poller {
            phase: PollPhase::Opening,
            needs_health_check: true,
            consecutive_errors: 0,
            last_notif_request: 0,
            last_data_received: 0,
            health_check_at: None,
        }
    }

    /// The action whose outcome is waited for.
    pub fn action(&self) -> (r: PollAction)
        ensures
            r == pending_action(self.phase),
    {
        match self.phase {
            PollPhase::Opening => PollAction::Open,
            PollPhase::InitialStatus => PollAction::RequestStatus,
            PollPhase::InitialNotifications => PollAction::RequestNotifications,
            PollPhase::Reading => PollAction::Read { timeout_ms: POLL_INTERVAL_MS },
            PollPhase::Refreshing => PollAction::RequestNotifications,
            PollPhase::Checking => PollAction::RequestStatus,
            PollPhase::Pausing => PollAction::Pause { ms: ERROR_PAUSE_MS },
            PollPhase::Waiting => PollAction::AwaitHotplug {
                timeout_ms: HOTPLUG_FALLBACK_TIMEOUT_MS,
            },
        }
    }

    fn end_round(&mut self, now: u64)
        ensures
            *final(self) == old(self).after_round(now),
    {
        let unanswered = match self.health_check_at {
            Some(at) => now.saturating_sub(at) >= HEALTH_CHECK_TIMEOUT_MS,
            None => false,
        };
        if unanswered || self.consecutive_errors >= MAX_CONSECUTIVE_ERRORS {
            self.phase = PollPhase::Waiting;
        } else if self.consecutive_errors > 0 {
            self.phase = PollPhase::Pausing;
        } else {
            self.phase = PollPhase::Reading;
        }
    }

    fn refreshed(&mut self, now: u64)
        ensures
            *final(self) == old(self).after_refresh(now),
    {
        if self.needs_health_check && self.health_check_at.is_none() && now.saturating_sub(
            self.last_data_received,
        ) >= NO_DATA_TIMEOUT_MS {
            self.phase = PollPhase::Checking;
        } else {
            self.end_round(now);
        }
    }

    fn read(&mut self, outcome: ReadOutcome, now: u64)
        requires
            old(self).consecutive_errors < MAX_CONSECUTIVE_ERRORS,
        ensures
            *final(self) == old(self).after_read(outcome, now),
    {
        match outcome {
            ReadOutcome::Status(_) => {
                self.consecutive_errors = 0;
                self.last_data_received = now;
                self.health_check_at = None;
            },
            // A stale handle gives timeouts, not errors: a timeout must not clear the failures.
            ReadOutcome::Nothing => {},
            ReadOutcome::Failed => {
                self.consecutive_errors = self.consecutive_errors + 1;
            },
        }
        if now.saturating_sub(self.last_notif_request) >= NOTIF_REFRESH_INTERVAL_MS {
            self.last_notif_request = now;
            self.phase = PollPhase::Refreshing;
        } else {
            self.refreshed(now);
        }
    }

    /// Takes note of `event`, which happened at time `now`, and says what to report and what to
    /// do next.
    pub fn step(&mut self, event: PollEvent, now: u64) -> (r: PollStep)
        requires
            old(self).wf(),
        ensures
            final(self).wf(),
            *final(self) == old(self).next(event, now),
            r.emit == old(self).emitted(event, now),
            r.action == pending_action(final(self).phase),
            (old(self).phase is Reading || old(self).phase is Refreshing)
                && old(self).consecutive_errors + 1 < MAX_CONSECUTIVE_ERRORS
                && old(self).health_check_at is None ==> r.emit != Some(DeviceEvent::Disconnected),
    {
        let was_open = self.opened();
        let was_reading = match self.phase {
            PollPhase::Reading => true,
            _ => false,
        };
        match (self.phase, event) {
            (PollPhase::Opening, PollEvent::Opened { needs_health_check }) => {
                self.needs_health_check = needs_health_check;
                self.phase = PollPhase::InitialStatus;
            },
            (PollPhase::Opening, PollEvent::OpenFailed) => {
                self.phase = PollPhase::Waiting;
            },
            (PollPhase::InitialStatus, PollEvent::Sent { ok: _ }) => {
                self.phase = PollPhase::InitialNotifications;
            },
            (PollPhase::InitialNotifications, PollEvent::Sent { ok: _ }) => {
                self.consecutive_errors = 0;
                self.last_notif_request = now;
                self.last_data_received = now;
                self.health_check_at = None;
                self.phase = PollPhase::Reading;
            },
            (PollPhase::Reading, PollEvent::Read(outcome)) => {
                self.read(outcome, now);
            },
            (PollPhase::Refreshing, PollEvent::Sent { ok }) => {
                if !ok {
                    self.consecutive_errors = self.consecutive_errors + 1;
                }
                self.refreshed(now);
            },
            (PollPhase::Checking, PollEvent::Sent { ok }) => {
                if ok {
                    self.health_check_at = Some(now);
                    self.end_round(now);
                } else {
                    self.phase = PollPhase::Waiting;
                }
            },
            (PollPhase::Pausing, PollEvent::Paused) => {
                self.phase = PollPhase::Reading;
            },
            (PollPhase::Waiting, PollEvent::Woken) => {
                self.phase = PollPhase::Opening;
            },
            _ => {},
        }
        let is_open = self.opened();
        let emit = if !was_open && is_open {
            Some(DeviceEvent::Connected)
        } else if was_open && !is_open {
            Some(DeviceEvent::Disconnected)
        } else if was_reading {
            match event {
                PollEvent::Read(ReadOutcome::Status(status)) => Some(
                    DeviceEvent::StatusUpdate(status),
                ),
                _ => None,
            }
        } else {
            None
        };
        PollStep { emit, action: self.action() }
    }

    /// Whether the device is open.
    pub fn opened(&self) -> (r: bool)
        ensures
            r == self.is_open(),
    {
        match self.phase {
            PollPhase::Opening => false,
            PollPhase::Waiting => false,
            _ => true,
        }
    }
}

/// What happened, and when.
pub struct Timed {
    pub event: PollEvent,
    pub now: u64,
}

/// The state after all of `trace`.
pub open spec fn run(p: Poller, trace: Seq<Timed>) -> Poller
    decreases trace.len(),
{
    if trace.len() == 0 {
        p
    } else {
        run(p.next(trace[0].event, trace[0].now), trace.drop_first())
    }
}

/// Everything that is reported along `trace`.
pub open spec fn reports(p: Poller, trace: Seq<Timed>) -> Seq<DeviceEvent>
    decreases trace.len(),
{
    if trace.len() == 0 {
        Seq::empty()
    } else {
        let rest = reports(p.next(trace[0].event, trace[0].now), trace.drop_first());
        match p.emitted(trace[0].event, trace[0].now) {
            Some(e) => seq![e] + rest,
            None => rest,
        }
    }
}

/// Connections and disconnections take turns, and statuses come between a connection and the
/// disconnection after it; `open` tells whether the device is connected at the start.
pub open spec fn in_sessions(open: bool, events: Seq<DeviceEvent>) -> bool
    decreases events.len(),
{
    if events.len() == 0 {
        true
    } else {
        match events[0] {
            DeviceEvent::Connected => !open && in_sessions(true, events.drop_first()),
            DeviceEvent::Disconnected => open && in_sessions(false, events.drop_first()),
            DeviceEvent::StatusUpdate(_) => open && in_sessions(true, events.drop_first()),
        }
    }
}

/// A read that failed, or a repeated notification request that could not be written.
pub open spec fn is_failure(p: Poller, event: PollEvent) -> bool {
    ||| p.phase is Reading && event == PollEvent::Read(ReadOutcome::Failed)
    ||| p.phase is Refreshing && event == PollEvent::Sent { ok: false }
}

/// How many failures there are along `trace`.
pub open spec fn failures(p: Poller, trace: Seq<Timed>) -> nat
    decreases trace.len(),
{
    if trace.len() == 0 {
        0
    } else {
        let rest = failures(p.next(trace[0].event, trace[0].now), trace.drop_first());
        if is_failure(p, trace[0].event) {
            rest + 1
        } else {
            rest
        }
    }
}

/// The device gives no status along `trace`.
pub open spec fn no_data(trace: Seq<Timed>) -> bool {
    forall|i: int|
        0 <= i < trace.len() ==> !((#[trigger] trace[i]).event matches PollEvent::Read(
            ReadOutcome::Status(_),
        ))
}

/// Whatever happens, what is reported forms sessions: a device is reported as connected before
/// its statuses and as disconnected after them, and never twice in a row.
pub proof fn reports_form_sessions(p: Poller, trace: Seq<Timed>)
    ensures
        in_sessions(p.is_open(), reports(p, trace)),
    decreases trace.len(),
{
    if trace.len() > 0 {
        let next = p.next(trace[0].event, trace[0].now);
        let rest = reports(next, trace.drop_first());
        reports_form_sessions(next, trace.drop_first());
        match p.emitted(trace[0].event, trace[0].now) {
            Some(e) => {
                assert((seq![e] + rest).drop_first() == rest);
            },
            None => {},
        }
    }
}

/// A status that is read is reported: data never makes the device count as disconnected.
pub proof fn data_is_reported(p: Poller, status: HeadsetStatus, now: u64)
    requires
        p.phase is Reading,
    ensures
        p.next(PollEvent::Read(ReadOutcome::Status(status)), now).is_open(),
        p.emitted(PollEvent::Read(ReadOutcome::Status(status)), now) == Some(
            DeviceEvent::StatusUpdate(status),
        ),
        p.next(PollEvent::Read(ReadOutcome::Status(status)), now).consecutive_errors == 0,
{
}

/// A timeout leaves the number of failures as it is.
pub proof fn timeouts_do_not_clear_failures(p: Poller, now: u64)
    requires
        p.phase is Reading,
    ensures
        p.next(PollEvent::Read(ReadOutcome::Nothing), now).consecutive_errors
            == p.consecutive_errors,
{
}

proof fn lemma_failures_add_up(p: Poller, trace: Seq<Timed>)
    requires
        p.wf(),
        p.is_open(),
        !(p.phase is InitialStatus),
        !(p.phase is InitialNotifications),
        no_data(trace),
        !reports(p, trace).contains(DeviceEvent::Disconnected),
    ensures
        run(p, trace).wf(),
        run(p, trace).consecutive_errors == p.consecutive_errors + failures(p, trace),
    decreases trace.len(),
{
    if trace.len() > 0 {
        let event = trace[0].event;
        let now = trace[0].now;
        let next = p.next(event, now);
        let rest = trace.drop_first();
        assert(!(trace[0].event matches PollEvent::Read(ReadOutcome::Status(_))));
        assert(no_data(rest)) by {
            assert forall|i: int| 0 <= i < rest.len() implies !((#[trigger] rest[i]).event matches
                PollEvent::Read(ReadOutcome::Status(_))) by {
                assert(rest[i] == trace[i + 1]);
            }
        }
        match p.emitted(event, now) {
            Some(e) => {
                assert((seq![e] + reports(next, rest))[0] == e);
                assert(e != DeviceEvent::Disconnected);
                assert forall|d: DeviceEvent| reports(next, rest).contains(d) implies reports(
                    p,
                    trace,
                ).contains(d) by {
                    let k = choose|k: int|
                        0 <= k < reports(next, rest).len() && reports(next, rest)[k] == d;
                    assert((seq![e] + reports(next, rest))[k + 1] == d);
                }
            },
            None => {},
        }
        lemma_failures_add_up(next, rest);
    }
}

/// A device without a word from it is given up after ten failures, however many timeouts come
/// between them: where it is still being read, it was reported as disconnected in between or has
/// failed less often.
pub proof fn ten_failures_disconnect(p: Poller, trace: Seq<Timed>)
    requires
        p.wf(),
        p.phase is Reading,
        no_data(trace),
        failures(p, trace) >= MAX_CONSECUTIVE_ERRORS,
        run(p, trace).phase is Reading,
    ensures
        reports(p, trace).contains(DeviceEvent::Disconnected),
{
    if !reports(p, trace).contains(DeviceEvent::Disconnected) {
        lemma_failures_add_up(p, trace);
    }
}

/// A dongle that has been silent for 30 seconds is asked for its status, at the latest after a
/// notification request that is due.
pub proof fn silence_is_checked(p: Poller, now: u64, later: u64, ok: bool)
    requires
        p.wf(),
        p.phase is Reading,
        p.needs_health_check,
        p.health_check_at is None,
        now >= p.last_data_received + NO_DATA_TIMEOUT_MS,
        later >= now,
    ensures
        ({
            let next = p.next(PollEvent::Read(ReadOutcome::Nothing), now);
            ||| next.phase is Checking
            ||| next.phase is Refreshing && next.next(
                PollEvent::Sent { ok },
                later,
            ).phase is Checking
        }),
{
}

/// A dongle that does not answer a check within 5 seconds counts as disconnected, at the latest
/// after a notification request that is due.
pub proof fn unanswered_check_disconnects(p: Poller, asked: u64, now: u64, later: u64, ok: bool)
    requires
        p.wf(),
        p.phase is Reading,
        p.health_check_at == Some(asked),
        now >= asked + HEALTH_CHECK_TIMEOUT_MS,
        later >= now,
    ensures
        ({
            let event = PollEvent::Read(ReadOutcome::Nothing);
            let next = p.next(event, now);
            ||| p.emitted(event, now) == Some(DeviceEvent::Disconnected)
            ||| next.phase is Refreshing && next.emitted(PollEvent::Sent { ok }, later) == Some(
                DeviceEvent::Disconnected,
            )
        }),
{
}

/// A backend that reads live state is never asked for its status while it is being read, and
/// counts as disconnected for its failures alone, however long it has nothing new to report.
pub proof fn live_backends_are_not_checked(p: Poller, event: PollEvent, now: u64)
    requires
        p.wf(),
        p.is_open(),
        !p.needs_health_check,
    ensures
        !(p.next(event, now).phase is Checking),
        p.emitted(event, now) == Some(DeviceEvent::Disconnected) ==> p.next(
            event,
            now,
        ).consecutive_errors >= MAX_CONSECUTIVE_ERRORS,
{
}

/// A device that is found again starts with a clean slate, whatever happened before.
pub proof fn reopening_starts_afresh(
    p: Poller,
    needs: bool,
    a: u64,
    b: u64,
    c: u64,
    x: bool,
    y: bool,
)
    requires
        p.phase is Opening,
    ensures
        ({
            let opened = p.next(PollEvent::Opened { needs_health_check: needs }, a);
            let asked = opened.next(PollEvent::Sent { ok: x }, b);
            asked.next(PollEvent::Sent { ok: y }, c) == Poller {
                phase: PollPhase::Reading,
                needs_health_check: needs,
                consecutive_errors: 0,
                last_notif_request: c,
                last_data_received: c,
                health_check_at: None,
            }
        }),
{
}

/// An open device counts as disconnected only for a reason: it has failed ten times in a row, or a
/// status request that was sent because of its silence has gone unanswered for five seconds, or that
/// request could not be written. Silence alone is none, however long it lasts and whether or not the
/// device is one that is checked.
pub proof fn disconnections_have_a_reason(p: Poller, event: PollEvent, now: u64)
    requires
        p.wf(),
        p.emitted(event, now) == Some(DeviceEvent::Disconnected),
    ensures
        p.is_open(),
        ({
            let failed = event == PollEvent::Read(ReadOutcome::Failed) || event == (
            PollEvent::Sent { ok: false });
            ||| p.consecutive_errors >= 10
            ||| p.consecutive_errors == 9 && failed
            ||| p.health_check_at matches Some(asked) && now >= asked + 5_000
            ||| p.phase is Checking && event == (PollEvent::Sent { ok: false })
        }),
{
}

/// A device that is read or asked for notifications, has failed less than nine times in a row and
/// has no check to answer stays connected, whatever comes next and however late.
pub proof fn healthy_devices_stay_connected(p: Poller, event: PollEvent, now: u64)
    requires
        p.phase is Reading || p.phase is Refreshing,
        p.consecutive_errors + 1 < 10,
        p.health_check_at is None,
    ensures
        p.next(event, now).is_open(),
        p.emitted(event, now) != Some(DeviceEvent::Disconnected),
{
}

/// An open device that has a reason to be given up is: at the end of a round with ten failures or
/// with a check that five seconds have not answered, and when a check cannot be written.
pub proof fn reasons_disconnect(p: Poller, event: PollEvent, now: u64)
    requires
        p.wf(),
        p.is_open(),
        !(p.phase is InitialStatus),
        !(p.phase is InitialNotifications),
    ensures
        ({
            let next = p.next(event, now);
            let given_up = p.emitted(event, now) == Some(DeviceEvent::Disconnected);
            &&& given_up == (next.phase is Waiting)
            &&& p.phase is Checking && event == (PollEvent::Sent { ok: false }) ==> given_up
            &&& (next.phase is Reading || next.phase is Pausing) && next != p
                ==> next.consecutive_errors < 10
            &&& (next.phase is Reading || next.phase is Pausing) && next != p && !(
            event is Paused) ==> (next.health_check_at matches Some(asked) ==> now < asked
                + 5_000)
        }),
{
}

/// A connection is reported exactly when the device was opened, and a status exactly when it was
/// read, as it was read.
pub proof fn reports_are_what_happened(p: Poller, event: PollEvent, now: u64, status: HeadsetStatus)
    ensures
        p.emitted(event, now) == Some(DeviceEvent::Connected) <==> p.phase is Opening
            && event is Opened,
        p.emitted(event, now) == Some(DeviceEvent::StatusUpdate(status)) <==> p.phase is Reading
            && event == PollEvent::Read(ReadOutcome::Status(status)),
        p.emitted(event, now) is Some && !p.is_open() ==> event is Opened,
{
}

/// The failures in a row are counted: a read that fails and a repeated notification request that
/// fails add one, a status and a device that was just opened clear them, nothing else touches them.
pub proof fn failures_are_counted(p: Poller, event: PollEvent, now: u64)
    requires
        p.wf(),
    ensures
        ({
            let after = p.next(event, now).consecutive_errors;
            if p.phase is Reading && event == PollEvent::Read(ReadOutcome::Failed) {
                after == p.consecutive_errors + 1
            } else if p.phase is Refreshing && event == (PollEvent::Sent { ok: false }) {
                after == p.consecutive_errors + 1
            } else if p.phase is Reading && event matches PollEvent::Read(ReadOutcome::Status(_)) {
                after == 0
            } else if p.phase is InitialNotifications && event is Sent {
                after == 0
            } else {
                after == p.consecutive_errors
            }
        }),
{
}

/// The clocks are kept: silence is counted from the last status or the opening, the notification
/// request from when it was last sent, and a check from when it was sent until it is answered.
pub proof fn clocks_are_kept(p: Poller, event: PollEvent, now: u64)
    ensures
        ({
            let next = p.next(event, now);
            let answered = p.phase is Reading && event matches PollEvent::Read(
                ReadOutcome::Status(_),
            );
            let begun = p.phase is InitialNotifications && event is Sent;
            let checked = p.phase is Checking && event == (PollEvent::Sent { ok: true });
            &&& next.last_data_received == if answered || begun {
                now
            } else {
                p.last_data_received
            }
            &&& next.health_check_at == if answered || begun {
                None
            } else if checked {
                Some(now)
            } else {
                p.health_check_at
            }
            &&& next.last_notif_request == if begun || (p.phase is Reading
                && next.phase is Refreshing) {
                now
            } else {
                p.last_notif_request
            }
            &&& next.needs_health_check == match event {
                PollEvent::Opened { needs_health_check } => if p.phase is Opening {
                    needs_health_check
                } else {
                    p.needs_health_check
                },
                _ => p.needs_health_check,
            }
        }),
{
}

/// The notification request is repeated after a read exactly when five seconds have passed since it
/// was last sent.
pub proof fn notifications_are_requested_again(p: Poller, outcome: ReadOutcome, now: u64)
    requires
        p.phase is Reading,
    ensures
        p.next(PollEvent::Read(outcome), now).phase is Refreshing <==> now >= p.last_notif_request
            + 5_000,
{
}

/// After a read, or after the requests that it made due, the device is asked for its status exactly
/// when it is one that is checked, has no check to answer and has given no status for thirty
/// seconds. Otherwise it is given up exactly when a check has gone unanswered for five seconds or it
/// has failed ten times in a row, read again after a pause if it has failed less often, and read
/// again at once if it has not.
pub proof fn rounds_end_as_the_device_is(p: Poller, event: PollEvent, now: u64)
    requires
        p.wf(),
        p.phase is Reading && event is Read || p.phase is Refreshing && event is Sent || p.phase
            is Checking && event == (PollEvent::Sent { ok: true }),
        !(p.next(event, now).phase is Refreshing),
    ensures
        ({
            let next = p.next(event, now);
            let unanswered = next.health_check_at matches Some(asked) && now >= asked + 5_000;
            let failing = next.consecutive_errors >= 10;
            &&& next.phase is Checking <==> next.needs_health_check && next.health_check_at is None
                && now >= next.last_data_received + 30_000
            &&& next.phase is Waiting <==> !(next.phase is Checking) && (unanswered || failing)
            &&& next.phase is Pausing <==> !(next.phase is Checking) && !unanswered && 0
                < next.consecutive_errors < 10
            &&& next.phase is Reading <==> !(next.phase is Checking) && !unanswered
                && next.consecutive_errors == 0
        }),
{
}

/// A pause, a wait and the first requests lead on whatever came of them, and an event that nothing
/// waits for is passed over.
pub proof fn the_loop_goes_on(p: Poller, event: PollEvent, now: u64)
    ensures
        p.phase is Waiting && event is Woken ==> p.next(event, now).phase is Opening,
        p.phase is Opening && event is OpenFailed ==> p.next(event, now).phase is Waiting,
        p.phase is Opening && event is Opened ==> p.next(event, now).phase is InitialStatus,
        p.phase is InitialStatus && event is Sent ==> p.next(event, now).phase
            is InitialNotifications,
        p.phase is InitialNotifications && event is Sent ==> p.next(event, now).phase is Reading,
        p.phase is Pausing && event is Paused ==> p.next(event, now).phase is Reading,
        p.phase is Checking && event == (PollEvent::Sent { ok: true }) && p.consecutive_errors == 0
            ==> p.next(event, now).phase is Reading,
        (match pending_action(p.phase) {
            PollAction::Open => !(event is Opened) && !(event is OpenFailed),
            PollAction::RequestStatus | PollAction::RequestNotifications => !(event is Sent),
            PollAction::Read { .. } => !(event is Read),
            PollAction::Pause { .. } => !(event is Paused),
            PollAction::AwaitHotplug { .. } => !(event is Woken),
        }) ==> p.next(event, now) == p && p.emitted(event, now) is None,
{
}

/// Each phase waits for one thing: reading for a tenth of a second at most, pausing for half a
/// second, waiting for a new device for five seconds at most, and every other phase for what it has
/// asked for.
pub proof fn phases_have_their_action(phase: PollPhase)
    ensures
        pending_action(phase) is Open <==> phase is Opening,
        pending_action(phase) is RequestStatus <==> phase is InitialStatus || phase is Checking,
        pending_action(phase) is RequestNotifications <==> phase is InitialNotifications || phase
            is Refreshing,
        pending_action(phase) is Read <==> phase is Reading,
        pending_action(phase) matches PollAction::Read { timeout_ms } ==> timeout_ms == 100,
        pending_action(phase) matches PollAction::Pause { ms } ==> ms == 500,
        pending_action(phase) matches PollAction::AwaitHotplug { timeout_ms } ==> timeout_ms
            == 5_000,
        pending_action(phase) is Pause <==> phase is Pausing,
        pending_action(phase) is AwaitHotplug <==> phase is Waiting,
{
}

/// A step reports a disconnection only where the device has failed ten times in a row, has left a
/// check unanswered for five seconds or could not be sent one.
pub proof fn steps_disconnect_for_a_reason(
    poller: &mut Poller,
    event: PollEvent,
    now: u64,
    step: PollStep,
)
    requires
        old(poller).wf(),
        call_ensures(Poller::step, (poller, event, now), step),
    ensures
        step.emit == Some(DeviceEvent::Disconnected) ==> {
            ||| old(poller).consecutive_errors >= 10
            ||| old(poller).consecutive_errors == 9 && final(poller).consecutive_errors == 10
            ||| old(poller).health_check_at matches Some(asked) && now >= asked + 5_000
            ||| old(poller).phase is Checking && event == (PollEvent::Sent { ok: false })
        },
        step.emit == Some(DeviceEvent::Disconnected) <==> old(poller).is_open()
            && final(poller).phase is Waiting,
{
}

} // verus!
