use corsair_void::audio::AudioError;
use corsair_void::cli::{
    parse_boost_db, print_response, run_cli, CliAction, CliEvent, CliStep, Command, Complaint,
};
use corsair_void::device::protocol::{BatteryStatus, ConnectionStatus, HeadsetStatus};
use corsair_void::device::DeviceError;
use corsair_void::config::Config;
use corsair_void::ipc::{IpcMessage, IpcResponse};
use corsair_void::tray::{handle_ipc_command, AppState};

fn goes_on(step: CliStep) -> CliAction {
    assert!(step.lines.is_empty());
    assert!(matches!(step.complaint, Complaint::Nothing));
    step.action
}

fn succeeds(step: CliStep) -> Vec<String> {
    assert!(matches!(step.complaint, Complaint::Nothing));
    assert_eq!(step.action, CliAction::Exit { code: 0 });
    step.lines
}

fn logs(step: CliStep) -> String {
    assert!(step.lines.is_empty());
    assert_eq!(step.action, CliAction::Exit { code: 1 });
    match step.complaint {
        Complaint::Log(message) => message,
        other => panic!("{:?}", other),
    }
}

fn prints_error(step: CliStep) -> String {
    assert!(step.lines.is_empty());
    assert_eq!(step.action, CliAction::Exit { code: 1 });
    match step.complaint {
        Complaint::Print(message) => message,
        other => panic!("{:?}", other),
    }
}

const BOOST: Command = Command::Boost { db: 5 };

#[test]
fn boost_arguments_are_levels() {
    for db in 0..=255_u8 {
        let expected = if db == 0 || db == 5 || db == 10 {
            Ok(db)
        } else {
            Err("boost must be 0, 5, or 10 dB".to_string())
        };
        assert_eq!(parse_boost_db(&db.to_string()), expected);
    }
    for text in ["", "five", "256", "-5", " 5", "5.0"] {
        assert_eq!(
            parse_boost_db(text),
            Err(format!("'{}' is not a valid number", text))
        );
    }
    assert_eq!(parse_boost_db("+5"), Ok(5));
}

#[test]
fn a_running_instance_is_asked_first() {
    for (command, message) in [
        (Command::Status, IpcMessage::Status),
        (BOOST, IpcMessage::Boost(5)),
        (Command::Stop, IpcMessage::Stop),
    ] {
        assert_eq!(goes_on(run_cli(command, CliEvent::Start)), CliAction::ProbeInstance);
        assert_eq!(
            goes_on(run_cli(command, CliEvent::InstanceProbed { running: true })),
            CliAction::Send(message)
        );
        assert_eq!(IpcMessage::parse(&message.serialize()), Some(message));
    }
}

#[test]
fn without_an_instance_commands_are_direct() {
    for unreachable in [false, true] {
        let event = || {
            if unreachable {
                CliEvent::Replied(Err("timed out".to_string()))
            } else {
                CliEvent::InstanceProbed { running: false }
            }
        };
        assert_eq!(goes_on(run_cli(Command::Status, event())), CliAction::OpenDevice);
        assert_eq!(goes_on(run_cli(BOOST, event())), CliAction::OpenDevice);
        assert_eq!(
            prints_error(run_cli(Command::Stop, event())),
            "No running instance found"
        );
    }
}

#[test]
fn the_status_is_read_from_the_headset() {
    let next = |event: CliEvent| run_cli(Command::Status, event);
    assert_eq!(goes_on(next(CliEvent::DeviceOpened(Ok(())))), CliAction::RequestStatus);
    assert_eq!(
        goes_on(next(CliEvent::StatusRequested(Ok(())))),
        CliAction::ReadStatus { timeout_ms: 1000 }
    );
    let status = HeadsetStatus {
        mic_up: true,
        battery_percent: 78,
        battery_status: BatteryStatus::Normal,
        connection: ConnectionStatus::WirelessConnected,
    };
    let step = next(CliEvent::StatusRead(Ok(Some(status))));
    assert_eq!(
        step.lines,
        vec!["Mic: Muted (UP)", "Battery: 78% (Normal)", "Connection: Connected"]
    );
    assert_eq!(step.action, CliAction::FindAudio);
    assert!(matches!(step.complaint, Complaint::Nothing));
    assert_eq!(goes_on(next(CliEvent::AudioFound(Ok(true)))), CliAction::GetBoost);
    assert_eq!(succeeds(next(CliEvent::BoostRead(Ok(5)))), vec!["Boost: +5 dB"]);
    let failed = CliEvent::BoostRead(Err(AudioError::DeviceNotFound));
    assert_eq!(succeeds(next(failed)), vec!["Boost: N/A"]);
    assert!(succeeds(next(CliEvent::AudioFound(Ok(false)))).is_empty());
    let failed = CliEvent::AudioFound(Err(AudioError::DeviceNotFound));
    assert!(succeeds(next(failed)).is_empty());
}

#[test]
fn a_status_that_cannot_be_read_fails() {
    let next = |event: CliEvent| run_cli(Command::Status, event);
    let error = || DeviceError::Communication("gone".to_string());
    assert_eq!(
        logs(next(CliEvent::DeviceOpened(Err(DeviceError::NotFound)))),
        "Headset not found"
    );
    assert_eq!(
        logs(next(CliEvent::StatusRequested(Err(error())))),
        "Failed to request status: Communication error: gone"
    );
    assert_eq!(logs(next(CliEvent::StatusRead(Ok(None)))), "No response from headset");
    assert_eq!(
        logs(next(CliEvent::StatusRead(Err(error())))),
        "Failed to read status: Communication error: gone"
    );
}

#[test]
fn the_boost_is_set_directly() {
    let next = |event: CliEvent| run_cli(BOOST, event);
    assert_eq!(goes_on(next(CliEvent::DeviceOpened(Ok(())))), CliAction::FindAudio);
    assert_eq!(
        logs(next(CliEvent::DeviceOpened(Err(DeviceError::NotFound)))),
        "Headset not found"
    );
    assert_eq!(goes_on(next(CliEvent::AudioFound(Ok(true)))), CliAction::SetBoost(5));
    assert_eq!(
        succeeds(next(CliEvent::BoostSet(Ok(())))),
        vec!["Boost set to +5 dB"]
    );
    assert_eq!(
        logs(next(CliEvent::AudioFound(Ok(false)))),
        "Corsair audio device not found"
    );
    assert_eq!(
        logs(next(CliEvent::AudioFound(Err(AudioError::DeviceNotFound)))),
        "Corsair Void capture device not found"
    );
    assert_eq!(
        logs(next(CliEvent::BoostSet(Err(AudioError::ApiError("x".to_string()))))),
        "Failed to set boost: Audio API error: x"
    );
}

#[test]
fn replies_are_printed() {
    let status = |connected: bool| IpcResponse::Status {
        mic_up: false,
        battery_percent: 9,
        battery_status: "Low".to_string(),
        boost_db: 10,
        connected,
    };
    assert_eq!(
        succeeds(print_response(&Command::Status, &status(true))),
        vec![
            "Mic: Active (DOWN)",
            "Battery: 9% (Low)",
            "Boost: +10 dB",
            "Status: Connected"
        ]
    );
    assert_eq!(
        succeeds(print_response(&Command::Status, &status(false))).last().map(|l| l.as_str()),
        Some("Status: Disconnected")
    );
    assert_eq!(
        prints_error(print_response(&BOOST, &IpcResponse::Error("no".to_string()))),
        "Error: no"
    );
    assert_eq!(succeeds(print_response(&Command::Status, &IpcResponse::Done)), vec!["OK"]);
}

#[test]
fn a_refused_command_fails() {
    let refused = IpcResponse::Error("Failed to set boost: no device".to_string());
    let reply = CliEvent::Replied(Ok(IpcResponse::parse(&refused.serialize())));
    assert_eq!(
        prints_error(run_cli(BOOST, reply)),
        "Error: Failed to set boost: no device"
    );
}

#[test]
fn the_status_command_shows_what_the_tray_knows() {
    let mut state = AppState {
        last_mic_up: Some(true),
        battery_percent: 42,
        battery_status: BatteryStatus::Charging,
        device_open: true,
        ..AppState::new(10)
    };
    let mut config = Config::default();
    let outcome = handle_ipc_command(&IpcMessage::Status, &mut state, &mut config, Ok(()));
    let reply = CliEvent::Replied(Ok(IpcResponse::parse(&outcome.response.serialize())));
    assert_eq!(
        succeeds(run_cli(Command::Status, reply)),
        vec![
            "Mic: Muted (UP)",
            "Battery: 42% (Charging)",
            "Boost: +10 dB",
            "Status: Connected"
        ]
    );
}

#[test]
fn a_confirmed_command_succeeds() {
    let confirmed = || CliEvent::Replied(Ok(IpcResponse::parse(&IpcResponse::Done.serialize())));
    assert_eq!(succeeds(run_cli(Command::Stop, confirmed())), vec!["Instance stopped"]);
    assert_eq!(succeeds(run_cli(BOOST, confirmed())), vec!["Boost set to +5 dB"]);
}
