//! The state behind the tray icon and what changes it.

pub mod icon;
pub mod menu;

use vstd::prelude::*;

use crate::audio::{audio_error_text, is_boost_level, AudioError};
use crate::autostart::AutoStartOutcome;
use crate::config::Config;
use crate::device::protocol::{
    battery_text, connected, BatteryStatus, HeadsetStatus, LOW_BATTERY_THRESHOLD,
};
use crate::device::DeviceEvent;
use crate::ipc::{
    battery_texts_survive, message_of, received_boosts_are_supported, response_line, response_of,
    responses_arrive, statuses_fit, IpcMessage, IpcResponse, ResponseView, MAX_IPC_LINE,
};

verus! {

/// What the tray keeps track of.
#[derive(Debug, Clone, Copy, PartialEq, Eq, Structural)]
pub struct AppState {
    pub last_mic_up: Option<bool>,
    /// The user has unmuted the microphone by hand while it is up.
    pub mute_override: bool,
    pub low_battery_alerted: bool,
    pub battery_percent: u8,
    pub battery_status: BatteryStatus,
    /// The device is open, from a connection until the disconnection after it.
    pub device_open: bool,
    /// The headset has reported that it is connected, since the device was opened. This can
    /// fluctuate.
    pub headset_connected: bool,
    pub boost_db: u8,
}

pub open spec fn initial_state(boost_db: u8) -> AppState {
    AppState {
        last_mic_up: None,
        mute_override: false,
        low_battery_alerted: false,
        battery_percent: 0,
        battery_status: BatteryStatus::Disconnected,
        device_open: false,
        headset_connected: false,
        boost_db,
    }
}

impl Default for AppState {
    fn default() -> (r: Self)
        ensures
            r == initial_state(0),
    {
        AppState {
            last_mic_up: None,
            mute_override: false,
            low_battery_alerted: false,
            battery_percent: 0,
            battery_status: BatteryStatus::Disconnected,
            device_open: false,
            headset_connected: false,
            boost_db: 0,
        }
    }
}

/// Who mutes the microphone.
#[derive(Debug, Clone, Copy, PartialEq, Eq, Structural)]
pub enum MuteControl {
    /// The headset itself: raising the microphone mutes it in hardware, and the tray only shows
    /// where the microphone is.
    Firmware,
    /// The tray, through the audio interface of the system. `muted` is what that says of the
    /// capture device, if it says anything.
    Software { muted: Option<bool> },
}

/// What to do about the capture device after a change of the microphone.
#[derive(Debug, Clone, Copy, PartialEq, Eq, Structural)]
pub enum MicAction {
    Keep,
    /// Mute it and play the cue for that.
    Mute,
    /// Unmute it and play the cue for that.
    Unmute,
}

/// What to do about the boost after a change of the connection.
#[derive(Debug, Clone, Copy, PartialEq, Eq, Structural)]
pub enum LinkAction {
    Keep,
    /// The headset is back: look for the capture device again and restore the boost.
    Resume,
    /// The headset is gone: stop the boost, keeping its level.
    StopBoost,
}

/// What to do after a device event.
#[derive(Debug, Clone, Copy, PartialEq, Eq, Structural)]
pub struct EventOutcome {
    pub mic: MicAction,
    pub low_battery_alert: bool,
    pub link: LinkAction,
}

/// What to do when the headset was connected `before` or not, and is `after` or not.
pub open spec fn link_action(before: bool, after: bool) -> LinkAction {
    if before == after {
        LinkAction::Keep
    } else if after {
        LinkAction::Resume
    } else {
        LinkAction::StopBoost
    }
}

impl AppState {
    /// The action on a status with the microphone at `mic_up`: mute where it was raised, unless
    /// the user has overridden that, and unmute where it was lowered.
    pub open spec fn mic_action(self, mic_up: bool, control: MuteControl) -> MicAction {
        if control is Firmware {
            MicAction::Keep
        } else if self.last_mic_up == Some(false) && mic_up && !self.mute_override {
            MicAction::Mute
        } else if self.last_mic_up == Some(true) && !mic_up {
            MicAction::Unmute
        } else {
            MicAction::Keep
        }
    }

    /// The override after a status with the microphone at `mic_up`: it starts where the capture
    /// device turns out to be unmuted although the microphone has stayed up, and ends where the
    /// microphone is down.
    pub open spec fn override_after(self, mic_up: bool, control: MuteControl) -> bool {
        match control {
            MuteControl::Firmware => self.mute_override,
            MuteControl::Software { muted } => mic_up && (self.mute_override || (self.last_mic_up
                == Some(true) && muted == Some(false))),
        }
    }

    /// The state after the microphone was seen at `mic_up`.
    pub open spec fn after_mic(self, mic_up: bool, control: MuteControl) -> AppState {
        AppState {
            last_mic_up: Some(mic_up),
            mute_override: self.override_after(mic_up, control),
            ..self
        }
    }

    /// The battery is not low, or is being charged.
    pub open spec fn battery_fine(self) -> bool {
        self.battery_percent > LOW_BATTERY_THRESHOLD || self.battery_status is Charging
    }

    /// The low battery is to be announced.
    pub open spec fn alert_due(self) -> bool {
        !self.battery_fine() && !self.low_battery_alerted && self.device_open
    }

    /// The state after the battery was looked at.
    pub open spec fn after_battery(self) -> AppState {
        AppState {
            low_battery_alerted: if self.alert_due() {
                true
            } else if self.battery_fine() {
                false
            } else {
                self.low_battery_alerted
            },
            ..self
        }
    }

    /// The state with what a status tells of the connection and the battery.
    pub open spec fn with_status(self, status: HeadsetStatus) -> AppState {
        AppState {
            headset_connected: connected(status.connection),
            battery_percent: status.battery_percent,
            battery_status: status.battery_status,
            ..self
        }
    }

    /// The state after a device event.
    pub open spec fn after_event(self, event: DeviceEvent, control: MuteControl) -> AppState {
        match event {
            DeviceEvent::StatusUpdate(status) => self.with_status(status).after_mic(
                status.mic_up,
                control,
            ).after_battery(),
            DeviceEvent::Connected => AppState { device_open: true, ..self },
            DeviceEvent::Disconnected => AppState {
                device_open: false,
                headset_connected: false,
                last_mic_up: None,
                ..self
            },
        }
    }

    /// The headset can be reached: the dongle is there, and the headset is connected to it.
    pub open spec fn linked(self) -> bool {
        self.device_open && self.headset_connected
    }

    /// What to do after a device event.
    pub open spec fn outcome(self, event: DeviceEvent, control: MuteControl) -> EventOutcome {
        EventOutcome {
            mic: match event {
                DeviceEvent::StatusUpdate(status) => self.mic_action(status.mic_up, control),
                _ => MicAction::Keep,
            },
            low_battery_alert: event matches DeviceEvent::StatusUpdate(status)
                && self.with_status(status).alert_due(),
            link: link_action(self.linked(), self.after_event(event, control).linked()),
        }
    }

    /// The state at the start.
    pub fn new(boost_db: u8) -> (r: Self)
        ensures
            r == initial_state(boost_db),
    {
        let mut state = AppState::default();
        state.boost_db = boost_db;
        state
    }
}

/// Takes note of where the microphone is and says what to do about the capture device.
pub fn handle_mic_change(
    state: &mut AppState,
    status: &HeadsetStatus,
    control: MuteControl,
) -> (r: MicAction)
    ensures
        *final(state) == old(state).after_mic(status.mic_up, control),
        r == old(state).mic_action(status.mic_up, control),
{
    let mic_up = status.mic_up;
    let mut action = MicAction::Keep;
    if let MuteControl::Software { muted } = control {
        if let Some(prev) = state.last_mic_up {
            if prev != mic_up {
                if mic_up {
                    if !state.mute_override {
                        action = MicAction::Mute;
                    }
                } else {
                    action = MicAction::Unmute;
                }
            } else if mic_up && !state.mute_override {
                if let Some(false) = muted {
                    state.mute_override = true;
                }
            }
        }
        if !mic_up {
            state.mute_override = false;
        }
    }
    state.last_mic_up = Some(mic_up);
    action
}

/// Whether the low battery is to be announced now: once, until the battery is above the threshold
/// or being charged.
pub fn handle_low_battery(state: &mut AppState) -> (r: bool)
    ensures
        *final(state) == old(state).after_battery(),
        r == old(state).alert_due(),
{
    let charging = state.battery_status == BatteryStatus::Charging;
    if state.battery_percent <= LOW_BATTERY_THRESHOLD && !charging && !state.low_battery_alerted
        && state.device_open {
        state.low_battery_alerted = true;
        true
    } else {
        if state.battery_percent > LOW_BATTERY_THRESHOLD || charging {
            state.low_battery_alerted = false;
        }
        false
    }
}

/// Takes note of a device event and says what to do.
pub fn handle_device_event(
    state: &mut AppState,
    event: &DeviceEvent,
    control: MuteControl,
) -> (r: EventOutcome)
    ensures
        *final(state) == old(state).after_event(*event, control),
        r == old(state).outcome(*event, control),
        final(state).boost_db == old(state).boost_db,
        match *event {
            DeviceEvent::StatusUpdate(status) => {
                &&& final(state).battery_percent == status.battery_percent
                &&& final(state).battery_status == status.battery_status
                &&& final(state).last_mic_up == Some(status.mic_up)
                &&& final(state).headset_connected == connected(status.connection)
                &&& final(state).device_open == old(state).device_open
            },
            DeviceEvent::Connected => *final(state) == (AppState {
                device_open: true,
                ..*old(state)
            }),
            DeviceEvent::Disconnected => *final(state) == (AppState {
                device_open: false,
                headset_connected: false,
                last_mic_up: None,
                ..*old(state)
            }),
        },
{
    let before = state.device_open && state.headset_connected;
    let mut mic = MicAction::Keep;
    let mut low_battery_alert = false;
    match event {
        DeviceEvent::StatusUpdate(status) => {
            state.headset_connected = status.is_connected();
            state.battery_percent = status.battery_percent;
            state.battery_status = status.battery_status;
            mic = handle_mic_change(state, status, control);
            low_battery_alert = handle_low_battery(state);
        },
        DeviceEvent::Connected => {
            state.device_open = true;
        },
        DeviceEvent::Disconnected => {
            state.device_open = false;
            state.headset_connected = false;
            state.last_mic_up = None;
        },
    }
    let after = state.device_open && state.headset_connected;
    let link = if before == after {
        LinkAction::Keep
    } else if after {
        LinkAction::Resume
    } else {
        LinkAction::StopBoost
    };
    EventOutcome { mic, low_battery_alert, link }
}

/// The boost to set on the capture device once it has been looked for: the saved level, where the
/// device was found and the level is not that of no boost.
pub fn boost_to_apply(found: &Result<bool, AudioError>, boost_db: u8) -> (r: Option<u8>)
    ensures
        r == if *found matches Ok(true) && boost_db > 0 {
            Some(boost_db)
        } else {
            None
        },
{
    match found {
        Ok(true) => if boost_db > 0 {
            Some(boost_db)
        } else {
            None
        },
        _ => None,
    }
}

/// What to do after an IPC command.
#[derive(Debug)]
pub struct IpcOutcome {
    pub response: IpcResponse,
    /// The configuration has changed and is to be saved.
    pub save: bool,
    /// The instance is to end, once the response is sent.
    pub stop: bool,
}

/// The response to a status request.
pub open spec fn status_response(state: AppState) -> ResponseView {
    ResponseView::Status {
        mic_up: state.last_mic_up == Some(true),
        battery_percent: state.battery_percent,
        battery_status: battery_text(state.battery_status),
        boost_db: state.boost_db,
        connected: state.device_open,
    }
}

/// The state and the configuration with the boost at `db`.
pub open spec fn with_boost(state: AppState, config: Config, db: u8) -> (AppState, Config) {
    (
        AppState { boost_db: db, ..state },
        Config {
            general: crate::config::GeneralConfig { mic_boost_db: db, ..config.general },
            ..config
        },
    )
}

/// Carries out an IPC command. For a boost, `applied` is what came of setting it on the capture
/// device; for the other commands it does not matter.
pub fn handle_ipc_command(
    msg: &IpcMessage,
    state: &mut AppState,
    config: &mut Config,
    applied: Result<(), AudioError>,
) -> (r: IpcOutcome)
    ensures
        match *msg {
            IpcMessage::Status => {
                &&& r.response@ == status_response(*old(state))
                &&& !r.save && !r.stop
                &&& *final(state) == *old(state)
                &&& *final(config) == *old(config)
            },
            IpcMessage::Boost(db) => match applied {
                Ok(()) => {
                    &&& r.response is Done
                    &&& r.save && !r.stop
                    &&& (*final(state), *final(config)) == with_boost(
                        *old(state),
                        *old(config),
                        db,
                    )
                },
                Err(e) => {
                    &&& r.response@ == ResponseView::Error(
                        "Failed to set boost: "@ + audio_error_text(e@),
                    )
                    &&& !r.save && !r.stop
                    &&& *final(state) == *old(state)
                    &&& *final(config) == *old(config)
                },
            },
            IpcMessage::Stop => {
                &&& r.response is Done
                &&& !r.save && r.stop
                &&& *final(state) == *old(state)
                &&& *final(config) == *old(config)
            },
        },
{
    match msg {
        IpcMessage::Status => {
            let mic_up = match state.last_mic_up {
                Some(up) => up,
                None => false,
            };
            IpcOutcome {
                response: IpcResponse::Status {
                    mic_up,
                    battery_percent: state.battery_percent,
                    battery_status: state.battery_status.to_string(),
                    boost_db: state.boost_db,
                    connected: state.device_open,
                },
                save: false,
                stop: false,
            }
        },
        IpcMessage::Boost(db) => match applied {
            Ok(()) => {
                state.boost_db = *db;
                config.general.mic_boost_db = *db;
                IpcOutcome { response: IpcResponse::Done, save: true, stop: false }
            },
            Err(e) => {
                let mut message = "Failed to set boost: ".to_owned();
                message.append(e.to_string().as_str());
                IpcOutcome { response: IpcResponse::Error(message), save: false, stop: false }
            },
        },
        IpcMessage::Stop => IpcOutcome { response: IpcResponse::Done, save: false, stop: true },
    }
}

/// What to do about an auto-start toggle.
#[derive(Debug, Clone, Copy, PartialEq, Eq, Structural)]
pub struct AutoStartEffect {
    /// The configuration has changed and is to be saved.
    pub save: bool,
    /// What to set the checkbox back to.
    pub checkbox: Option<bool>,
}

/// Takes note of what came of an auto-start toggle: a success is kept in the configuration, a
/// failure sets the checkbox back.
pub fn handle_auto_start_outcome(outcome: &AutoStartOutcome, config: &mut Config) -> (r:
    AutoStartEffect)
    ensures
        match outcome.result {
            Ok(()) => {
                &&& r.save && r.checkbox is None
                &&& *final(config) == (Config {
                    general: crate::config::GeneralConfig {
                        auto_start: outcome.enabled,
                        ..old(config).general
                    },
                    ..*old(config)
                })
            },
            Err(_) => {
                &&& !r.save && r.checkbox == Some(!outcome.enabled)
                &&& *final(config) == *old(config)
            },
        },
{
    match &outcome.result {
        Ok(()) => {
            config.general.auto_start = outcome.enabled;
            AutoStartEffect { save: true, checkbox: None }
        },
        Err(_) => AutoStartEffect { save: false, checkbox: Some(!outcome.enabled) },
    }
}

/// A stretch of device events, each with who mutes the microphone then.
pub type Trace = Seq<(DeviceEvent, MuteControl)>;

/// The state before event number `i` of the trace, or after all of it.
pub open spec fn state_at(start: AppState, trace: Trace, i: int) -> AppState
    decreases i,
{
    if i <= 0 {
        start
    } else {
        let (event, control) = trace[i - 1];
        state_at(start, trace, i - 1).after_event(event, control)
    }
}

/// What is done after event number `i` of the trace.
pub open spec fn outcome_at(start: AppState, trace: Trace, i: int) -> EventOutcome {
    state_at(start, trace, i).outcome(trace[i].0, trace[i].1)
}

/// The event is a status with the battery above the threshold or charging.
pub open spec fn reports_recharge(event: DeviceEvent) -> bool {
    event matches DeviceEvent::StatusUpdate(status) && (status.battery_percent
        > LOW_BATTERY_THRESHOLD || status.battery_status is Charging)
}

/// The low battery was announced at event number `k`, and until event number `i` no status has
/// told of a recharge.
pub open spec fn announced_at(start: AppState, trace: Trace, k: int, i: int) -> bool {
    &&& 0 <= k < i
    &&& outcome_at(start, trace, k).low_battery_alert
    &&& forall|m: int| k < m < i ==> !reports_recharge(#[trigger] trace[m].0)
}

/// The low battery was announced before event number `i`, and no status has told of a recharge
/// since.
pub open spec fn announced(start: AppState, trace: Trace, i: int) -> bool {
    exists|k: int| #[trigger] announced_at(start, trace, k, i)
}

proof fn lemma_announced(boost_db: u8, trace: Trace, i: int)
    requires
        0 <= i <= trace.len(),
    ensures
        state_at(initial_state(boost_db), trace, i).low_battery_alerted == announced(
            initial_state(boost_db),
            trace,
            i,
        ),
    decreases i,
{
    let start = initial_state(boost_db);
    if i > 0 {
        lemma_announced(boost_db, trace, i - 1);
        let before = state_at(start, trace, i - 1);
        let event = trace[i - 1].0;
        if outcome_at(start, trace, i - 1).low_battery_alert {
            assert(announced_at(start, trace, i - 1, i));
        } else if reports_recharge(event) {
            if announced(start, trace, i) {
                let k = choose|k: int| #[trigger] announced_at(start, trace, k, i);
                assert(k < i - 1 ==> !reports_recharge(trace[i - 1].0));
            }
        } else {
            if announced(start, trace, i - 1) {
                let k = choose|k: int| #[trigger] announced_at(start, trace, k, i - 1);
                assert(announced_at(start, trace, k, i));
            }
            if announced(start, trace, i) {
                let k = choose|k: int| #[trigger] announced_at(start, trace, k, i);
                assert(k < i - 1);
                assert(announced_at(start, trace, k, i - 1));
            }
        }
    }
}

/// A low battery is announced, and announced once. From the start on, a status makes the tray
/// announce it exactly if the device is open, the battery is at the threshold or below and not
/// charging, and it has not been announced since the last status that told of a recharge.
pub proof fn low_battery_is_announced_once(boost_db: u8, trace: Trace, i: int)
    requires
        0 <= i < trace.len(),
    ensures
        outcome_at(initial_state(boost_db), trace, i).low_battery_alert <==> {
            &&& trace[i].0 is StatusUpdate
            &&& !reports_recharge(trace[i].0)
            &&& state_at(initial_state(boost_db), trace, i).device_open
            &&& !announced(initial_state(boost_db), trace, i)
        },
{
    lemma_announced(boost_db, trace, i);
}

/// The device counts as open from a connection until the disconnection after it.
pub proof fn device_is_open_while_connected(start: AppState, trace: Trace, i: int)
    requires
        0 <= i < trace.len(),
    ensures
        state_at(start, trace, i + 1).device_open == match trace[i].0 {
            DeviceEvent::Connected => true,
            DeviceEvent::Disconnected => false,
            DeviceEvent::StatusUpdate(_) => state_at(start, trace, i).device_open,
        },
{
    reveal_with_fuel(state_at, 2);
}

/// The headset counts as connected as its last status says, and as not connected from a
/// disconnection until the next status.
pub proof fn headset_is_connected_as_reported(start: AppState, trace: Trace, i: int)
    requires
        0 <= i < trace.len(),
    ensures
        state_at(start, trace, i + 1).headset_connected == match trace[i].0 {
            DeviceEvent::StatusUpdate(status) => connected(status.connection),
            DeviceEvent::Disconnected => false,
            DeviceEvent::Connected => state_at(start, trace, i).headset_connected,
        },
{
    reveal_with_fuel(state_at, 2);
}

/// Where the headset mutes its microphone itself, the tray never mutes or unmutes anything.
pub proof fn firmware_muting_is_left_alone(state: AppState, event: DeviceEvent)
    ensures
        state.outcome(event, MuteControl::Firmware).mic is Keep,
        state.after_event(event, MuteControl::Firmware).mute_override == state.mute_override,
{
}

/// The event is a status with the microphone at `up`, and the tray is who mutes.
pub open spec fn shows_mic(entry: (DeviceEvent, MuteControl), up: bool) -> bool {
    &&& entry.1 is Software
    &&& entry.0 matches DeviceEvent::StatusUpdate(status)
    &&& status.mic_up == up
}

/// Raising the microphone mutes it, unless the user has overridden that, and lowering it unmutes
/// it.
pub proof fn moving_the_mic_mutes_and_unmutes(state: AppState, entry: (DeviceEvent, MuteControl))
    ensures
        state.last_mic_up == Some(false) && shows_mic(entry, true) && !state.mute_override
            ==> state.outcome(entry.0, entry.1).mic is Mute,
        state.last_mic_up == Some(true) && shows_mic(entry, false) ==> state.outcome(
            entry.0,
            entry.1,
        ).mic is Unmute,
{
}

/// A user who unmutes the microphone by hand while it is up is respected: until a status shows it
/// down, nothing mutes it again, whatever else happens.
pub proof fn manual_unmute_is_respected(start: AppState, trace: Trace, i: int)
    requires
        start.last_mic_up == Some(true),
        0 <= i < trace.len(),
        shows_mic(trace[0], true),
        trace[0].1 == (MuteControl::Software { muted: Some(false) }),
        forall|m: int| 0 <= m < trace.len() ==> !#[trigger] shows_mic(trace[m], false),
    ensures
        outcome_at(start, trace, i).mic is Keep,
        state_at(start, trace, i + 1).mute_override,
    decreases i,
{
    reveal_with_fuel(state_at, 2);
    assert(!shows_mic(trace[i], false));
    if i > 0 {
        manual_unmute_is_respected(start, trace, i - 1);
    }
}

/// The next movement of the microphone, down and up again, engages the muting again, whatever the
/// user had overridden and whatever happened to the device before.
pub proof fn next_raise_mutes_again(start: AppState, trace: Trace, i: int)
    requires
        0 <= i,
        i + 1 < trace.len(),
        shows_mic(trace[i], false),
        shows_mic(trace[i + 1], true),
    ensures
        outcome_at(start, trace, i + 1).mic is Mute,
        !state_at(start, trace, i + 1).mute_override,
{
    reveal_with_fuel(state_at, 2);
}

/// The boost is stopped exactly when the headset goes and resumed exactly when it comes back, and
/// what happens to the device leaves the boost level alone.
pub proof fn link_actions_follow_the_link(
    state: AppState,
    event: DeviceEvent,
    control: MuteControl,
)
    ensures
        ({
            let next = state.after_event(event, control);
            match state.outcome(event, control).link {
                LinkAction::Keep => state.linked() == next.linked(),
                LinkAction::Resume => !state.linked() && next.linked(),
                LinkAction::StopBoost => state.linked() && !next.linked(),
            }
        }),
        state.after_event(event, control).boost_db == state.boost_db,
{
}

/// The state and the configuration hold the same boost, and it is a supported level.
pub open spec fn boosts_agree(state: AppState, config: Config) -> bool {
    state.boost_db == config.general.mic_boost_db && is_boost_level(state.boost_db)
}

/// A tray that starts with a valid configuration starts in agreement with it.
pub proof fn boosts_agree_at_the_start(config: Config)
    requires
        config.valid(),
    ensures
        boosts_agree(initial_state(config.general.mic_boost_db), config),
{
}

/// A boost that arrives over IPC leaves the state and the configuration in agreement on a
/// supported level.
pub proof fn received_boosts_agree(line: Seq<char>, db: u8, state: AppState, config: Config)
    requires
        message_of(line) == Some(IpcMessage::Boost(db)),
    ensures
        boosts_agree(with_boost(state, config, db).0, with_boost(state, config, db).1),
{
    received_boosts_are_supported(line, db);
}

/// Device events do not disturb that agreement.
pub proof fn device_events_keep_the_boost(
    state: AppState,
    config: Config,
    event: DeviceEvent,
    control: MuteControl,
)
    requires
        boosts_agree(state, config),
    ensures
        boosts_agree(state.after_event(event, control), config),
{
}

/// The response to a status request is read by the command line as it was sent by the tray, and
/// read whole.
pub proof fn status_responses_arrive(state: AppState)
    ensures
        response_of(response_line(status_response(state))) == status_response(state),
        response_line(status_response(state)).len() <= MAX_IPC_LINE,
{
    statuses_fit(status_response(state), state.battery_status);
    battery_texts_survive(state.battery_status);
    responses_arrive(status_response(state));
}

/// A status is taken over as it is, whatever the state before: where the microphone is, whether the
/// headset is connected, and how full and in what condition the battery is. Other events tell
/// nothing of the battery and leave what is known of it.
pub proof fn statuses_are_taken_over(state: AppState, event: DeviceEvent, control: MuteControl)
    ensures
        ({
            let next = state.after_event(event, control);
            match event {
                DeviceEvent::StatusUpdate(status) => {
                    &&& next.battery_percent == status.battery_percent
                    &&& next.battery_status == status.battery_status
                    &&& next.last_mic_up == Some(status.mic_up)
                    &&& next.headset_connected <==> status.connection is Wired
                        || status.connection is WirelessConnected
                },
                _ => {
                    &&& next.battery_percent == state.battery_percent
                    &&& next.battery_status == state.battery_status
                    &&& next.low_battery_alerted == state.low_battery_alerted
                    &&& next.mute_override == state.mute_override
                    &&& next.last_mic_up == if event is Disconnected {
                        None
                    } else {
                        state.last_mic_up
                    }
                },
            }
        }),
{
}

/// A status that comes twice changes nothing the second time, and nothing is done about it.
pub proof fn repeated_statuses_change_nothing(
    state: AppState,
    status: HeadsetStatus,
    muted: Option<bool>,
)
    requires
        muted != Some(false),
    ensures
        ({
            let event = DeviceEvent::StatusUpdate(status);
            let control = MuteControl::Software { muted };
            let once = state.after_event(event, control);
            &&& once.after_event(event, control) == once
            &&& once.outcome(event, control) == (EventOutcome {
                mic: MicAction::Keep,
                low_battery_alert: false,
                link: LinkAction::Keep,
            })
        }),
{
}

/// The microphone is muted only where a status shows that it was raised, and unmuted only where one
/// shows that it was lowered.
pub proof fn only_movements_mute(state: AppState, event: DeviceEvent, control: MuteControl)
    ensures
        ({
            let next = state.after_event(event, control);
            let mic = state.outcome(event, control).mic;
            &&& mic is Mute <==> {
                &&& control is Software
                &&& state.last_mic_up == Some(false)
                &&& event is StatusUpdate
                &&& next.last_mic_up == Some(true)
                &&& !state.mute_override
            }
            &&& mic is Unmute <==> {
                &&& control is Software
                &&& state.last_mic_up == Some(true)
                &&& event is StatusUpdate
                &&& next.last_mic_up == Some(false)
            }
        }),
{
}

/// An override begins only where the capture device is found unmuted while the microphone stays up,
/// and ends only, and always, where the tray sees the microphone down.
pub proof fn overrides_have_a_cause(state: AppState, event: DeviceEvent, control: MuteControl)
    ensures
        ({
            let next = state.after_event(event, control);
            &&& !state.mute_override && next.mute_override <==> {
                &&& !state.mute_override
                &&& shows_mic((event, control), true)
                &&& control == (MuteControl::Software { muted: Some(false) })
                &&& state.last_mic_up == Some(true)
            }
            &&& state.mute_override && !next.mute_override <==> state.mute_override && shows_mic(
                (event, control),
                false,
            )
        }),
{
}

/// A battery at 20 % or less that is not charging is announced with the first status that tells of
/// it while the device is open, and the alert is armed again by a status with more than 20 % or with
/// a battery that charges, and by nothing else.
pub proof fn alerts_follow_the_battery(
    state: AppState,
    status: HeadsetStatus,
    control: MuteControl,
)
    ensures
        ({
            let event = DeviceEvent::StatusUpdate(status);
            let next = state.after_event(event, control);
            let low = status.battery_percent <= 20 && status.battery_status
                != BatteryStatus::Charging;
            &&& reports_recharge(event) == !low
            &&& state.outcome(event, control).low_battery_alert <==> low && state.device_open
                && !state.low_battery_alerted
            &&& next.low_battery_alerted <==> low && (state.device_open
                || state.low_battery_alerted)
        }),
{
}

/// Other events than a status neither announce a low battery nor mute or unmute anything.
pub proof fn only_statuses_alert(state: AppState, event: DeviceEvent, control: MuteControl)
    requires
        !(event is StatusUpdate),
    ensures
        !state.outcome(event, control).low_battery_alert,
        state.outcome(event, control).mic is Keep,
{
}

/// The headset is reached exactly while the device is open and its last status since then told of a
/// connection, and the boost is stopped or resumed with that.
pub proof fn the_boost_follows_the_headset(
    state: AppState,
    event: DeviceEvent,
    control: MuteControl,
)
    ensures
        ({
            let next = state.after_event(event, control);
            let before = state.device_open && state.headset_connected;
            let after = next.device_open && next.headset_connected;
            let link = state.outcome(event, control).link;
            &&& link is Resume <==> !before && after
            &&& link is StopBoost <==> before && !after
            &&& event is Disconnected ==> !after
        }),
{
}

/// A boost is noted as it is, in the state and in the configuration, and nothing else changes.
pub proof fn boosts_are_noted(state: AppState, config: Config, db: u8)
    ensures
        ({
            let (s, c) = with_boost(state, config, db);
            &&& s.boost_db == db
            &&& c.general.mic_boost_db == db
            &&& s.last_mic_up == state.last_mic_up && s.mute_override == state.mute_override
            &&& s.low_battery_alerted == state.low_battery_alerted
            &&& s.battery_percent == state.battery_percent
            &&& s.battery_status == state.battery_status
            &&& s.device_open == state.device_open
            &&& s.headset_connected == state.headset_connected
            &&& c.general.auto_start == config.general.auto_start
            &&& c.sound == config.sound
        }),
{
}

/// The response to a status request tells what the last status told, the boost and whether the
/// device is open.
pub proof fn responses_tell_the_state(state: AppState, status: HeadsetStatus, control: MuteControl)
    ensures
        status_response(state.after_event(DeviceEvent::StatusUpdate(status), control)) == (
        ResponseView::Status {
            mic_up: status.mic_up,
            battery_percent: status.battery_percent,
            battery_status: battery_text(status.battery_status),
            boost_db: state.boost_db,
            connected: state.device_open,
        }),
{
}

/// The saved boost is restored, at its level, exactly where the capture device is there and the
/// level is not that of no boost.
pub proof fn saved_boosts_are_restored(
    found: &Result<bool, AudioError>,
    boost_db: u8,
    applied: Option<u8>,
)
    requires
        call_ensures(boost_to_apply, (found, boost_db), applied),
    ensures
        applied is Some <==> *found == Ok::<bool, AudioError>(true) && boost_db != 0,
        applied matches Some(db) ==> db == boost_db,
{
}

/// Handling a status takes over its battery, whatever the state was, and handling another event
/// leaves what is known of the battery.
pub proof fn handled_statuses_are_taken_over(
    state: &mut AppState,
    event: &DeviceEvent,
    control: MuteControl,
    outcome: EventOutcome,
)
    requires
        call_ensures(handle_device_event, (state, event, control), outcome),
    ensures
        match *event {
            DeviceEvent::StatusUpdate(status) => {
                &&& final(state).battery_percent == status.battery_percent
                &&& final(state).battery_status == status.battery_status
                &&& final(state).last_mic_up == Some(status.mic_up)
            },
            _ => {
                &&& final(state).battery_percent == old(state).battery_percent
                &&& final(state).battery_status == old(state).battery_status
            },
        },
        final(state).boost_db == old(state).boost_db,
{
    statuses_are_taken_over(*old(state), *event, control);
}

/// A boost that was applied is noted and saved, one that was not changes nothing and is answered
/// with the reason, and the other commands change nothing.
pub proof fn commands_are_carried_out(
    msg: &IpcMessage,
    state: &mut AppState,
    config: &mut Config,
    applied: Result<(), AudioError>,
    outcome: IpcOutcome,
)
    requires
        call_ensures(handle_ipc_command, (msg, state, config, applied), outcome),
    ensures
        outcome.save <==> *msg is Boost && applied is Ok,
        outcome.stop <==> *msg is Stop,
        !outcome.save ==> *final(state) == *old(state) && *final(config) == *old(config),
        outcome.save ==> *msg == IpcMessage::Boost(final(state).boost_db)
            && final(config).general.mic_boost_db == final(state).boost_db
            && final(config).general.auto_start == old(config).general.auto_start
            && final(config).sound == old(config).sound,
        outcome.response is Status <==> *msg is Status,
        outcome.response is Error <==> *msg is Boost && applied is Err,
{
}

/// An auto-start toggle that succeeded is kept, one that failed is taken back, and nothing else of
/// the configuration changes.
pub proof fn toggles_are_kept_or_taken_back(
    outcome: &AutoStartOutcome,
    config: &mut Config,
    effect: AutoStartEffect,
)
    requires
        call_ensures(handle_auto_start_outcome, (outcome, config), effect),
    ensures
        effect.save == outcome.result is Ok,
        final(config).general.auto_start == if outcome.result is Ok {
            outcome.enabled
        } else {
            old(config).general.auto_start
        },
        effect.checkbox == if outcome.result is Ok {
            None
        } else {
            Some(!outcome.enabled)
        },
        final(config).general.mic_boost_db == old(config).general.mic_boost_db,
        final(config).sound == old(config).sound,
{
}

/// The tray starts with the boost that it is given, whatever that is, without a device and with
/// nothing known of the headset.
pub proof fn the_tray_starts_with_the_boost(boost_db: u8, state: AppState)
    requires
        call_ensures(AppState::new, (boost_db,), state),
    ensures
        state.boost_db == boost_db,
        !state.device_open && !state.headset_connected,
        state.last_mic_up is None,
        !state.mute_override && !state.low_battery_alerted,
{
}

} // verus!
