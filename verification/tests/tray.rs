use corsair_void::audio::AudioError;
use corsair_void::autostart::{
    run_systemctl, set_auto_start, systemctl_action, unit_file, AutoStartAction, AutoStartEvent,
    AutoStartOutcome, SystemctlRun,
};
use corsair_void::config::Config;
use corsair_void::device::protocol::{BatteryStatus, ConnectionStatus, HeadsetStatus};
use corsair_void::device::DeviceEvent;
use corsair_void::ipc::{IpcMessage, IpcResponse};
use corsair_void::tray::icon::{generate_icon, ICON_SIZE};
use corsair_void::tray::menu::{
    boost_checks, build_menu, handle_device_events, handle_menu_choice, refresh, tooltip,
    update_menu_text, EntryKind, MenuAction, MenuChoice,
};
use corsair_void::tray::{
    boost_to_apply, handle_auto_start_outcome, handle_device_event, handle_ipc_command,
    handle_low_battery, handle_mic_change, AppState, LinkAction, MicAction, MuteControl,
};

fn status(mic_up: bool, battery_percent: u8, battery_status: BatteryStatus) -> HeadsetStatus {
    HeadsetStatus {
        mic_up,
        battery_percent,
        battery_status,
        connection: ConnectionStatus::WirelessConnected,
    }
}

fn mic(mic_up: bool) -> HeadsetStatus {
    status(mic_up, 80, BatteryStatus::Normal)
}

fn software(muted: bool) -> MuteControl {
    MuteControl::Software { muted: Some(muted) }
}

fn open_state() -> AppState {
    AppState {
        device_open: true,
        headset_connected: true,
        battery_percent: 80,
        battery_status: BatteryStatus::Normal,
        ..AppState::default()
    }
}

#[test]
fn the_first_state_is_empty() {
    let state = AppState::new(5);
    assert_eq!(state, AppState { boost_db: 5, ..AppState::default() });
    assert_eq!(state.last_mic_up, None);
    assert!(!state.mute_override);
    assert!(!state.low_battery_alerted);
    assert_eq!(state.battery_percent, 0);
    assert_eq!(state.battery_status, BatteryStatus::Disconnected);
    assert!(!state.device_open);
    assert!(!state.headset_connected);
}

#[test]
fn moving_the_microphone_mutes_and_unmutes() {
    let mut state = open_state();
    // The first status tells where the microphone is, not that it moved.
    assert_eq!(handle_mic_change(&mut state, &mic(false), software(false)), MicAction::Keep);
    assert_eq!(handle_mic_change(&mut state, &mic(true), software(false)), MicAction::Mute);
    assert_eq!(handle_mic_change(&mut state, &mic(true), software(true)), MicAction::Keep);
    assert_eq!(handle_mic_change(&mut state, &mic(false), software(true)), MicAction::Unmute);
    assert_eq!(handle_mic_change(&mut state, &mic(false), software(false)), MicAction::Keep);
}

#[test]
fn a_manual_unmute_is_respected_until_the_next_movement() {
    let mut state = open_state();
    let _ = handle_mic_change(&mut state, &mic(false), software(false));
    let _ = handle_mic_change(&mut state, &mic(true), software(false));
    assert!(!state.mute_override);
    assert_eq!(handle_mic_change(&mut state, &mic(true), software(false)), MicAction::Keep);
    assert!(state.mute_override);
    for muted in [true, false] {
        assert_eq!(handle_mic_change(&mut state, &mic(true), software(muted)), MicAction::Keep);
        assert!(state.mute_override);
    }
    assert_eq!(handle_mic_change(&mut state, &mic(false), software(false)), MicAction::Unmute);
    assert!(!state.mute_override);
    assert_eq!(handle_mic_change(&mut state, &mic(false), software(false)), MicAction::Keep);
    assert_eq!(handle_mic_change(&mut state, &mic(true), software(false)), MicAction::Mute);
}

#[test]
fn an_unknown_mute_state_overrides_nothing() {
    let mut state = open_state();
    state.last_mic_up = Some(true);
    let control = MuteControl::Software { muted: None };
    assert_eq!(handle_mic_change(&mut state, &mic(true), control), MicAction::Keep);
    assert!(!state.mute_override);
}

#[test]
fn the_next_movement_mutes_again_after_a_disconnection() {
    let mut state = open_state();
    state.last_mic_up = Some(true);
    state.mute_override = true;
    let mut mic_action = |event: DeviceEvent| {
        handle_device_event(&mut state, &event, software(false)).mic
    };
    assert_eq!(mic_action(DeviceEvent::Disconnected), MicAction::Keep);
    assert_eq!(mic_action(DeviceEvent::Connected), MicAction::Keep);
    assert_eq!(mic_action(DeviceEvent::StatusUpdate(mic(false))), MicAction::Keep);
    assert_eq!(mic_action(DeviceEvent::StatusUpdate(mic(true))), MicAction::Mute);
    assert!(!state.mute_override);
}

#[test]
fn a_disconnection_while_the_microphone_is_up_keeps_the_override() {
    let mut state = open_state();
    state.last_mic_up = Some(true);
    state.mute_override = true;
    let _ = handle_device_event(&mut state, &DeviceEvent::Disconnected, software(false));
    let _ = handle_device_event(&mut state, &DeviceEvent::Connected, software(false));
    let up = DeviceEvent::StatusUpdate(mic(true));
    assert_eq!(handle_device_event(&mut state, &up, software(false)).mic, MicAction::Keep);
    assert!(state.mute_override);
}

#[test]
fn a_dongle_that_is_back_has_no_headset_until_it_reports() {
    let mut state = AppState::new(5);
    let link = |state: &mut AppState, event: DeviceEvent| {
        handle_device_event(state, &event, MuteControl::Firmware).link
    };
    let _ = link(&mut state, DeviceEvent::Connected);
    let _ = link(&mut state, DeviceEvent::StatusUpdate(mic(false)));
    assert!(state.headset_connected);
    assert_eq!(link(&mut state, DeviceEvent::Disconnected), LinkAction::StopBoost);
    assert!(!state.headset_connected);
    assert_eq!(link(&mut state, DeviceEvent::Connected), LinkAction::Keep);
    assert_eq!(pixel(&generate_icon(&state), 16, 16), [0xff, 0x8c, 0x00, 0xff]);
    assert_eq!(
        link(&mut state, DeviceEvent::StatusUpdate(mic(false))),
        LinkAction::Resume
    );
    assert_eq!(pixel(&generate_icon(&state), 16, 16), [0x00, 0xb4, 0xd8, 0xff]);
}

#[test]
fn firmware_muting_is_only_shown() {
    let mut state = open_state();
    for up in [false, true, true, false, true] {
        let action = handle_mic_change(&mut state, &mic(up), MuteControl::Firmware);
        assert_eq!(action, MicAction::Keep);
        assert_eq!(state.last_mic_up, Some(up));
        assert!(!state.mute_override);
    }
}

fn alerts(state: &mut AppState, percent: u8, battery_status: BatteryStatus) -> bool {
    let event = DeviceEvent::StatusUpdate(status(false, percent, battery_status));
    handle_device_event(state, &event, MuteControl::Firmware).low_battery_alert
}

#[test]
fn a_low_battery_is_announced_once() {
    let mut state = AppState::new(0);
    // Not before the device is open.
    assert!(!alerts(&mut state, 10, BatteryStatus::Low));
    let _ = handle_device_event(&mut state, &DeviceEvent::Connected, MuteControl::Firmware);
    assert!(!alerts(&mut state, 21, BatteryStatus::Normal));
    assert!(alerts(&mut state, 20, BatteryStatus::Low));
    assert!(!alerts(&mut state, 19, BatteryStatus::Low));
    assert!(!alerts(&mut state, 3, BatteryStatus::Critical));
    // Charging, or a level above the threshold, arms it again.
    assert!(!alerts(&mut state, 3, BatteryStatus::Charging));
    assert!(alerts(&mut state, 3, BatteryStatus::Critical));
    assert!(!alerts(&mut state, 21, BatteryStatus::Normal));
    assert!(alerts(&mut state, 20, BatteryStatus::Normal));
    // A reconnection does not.
    let _ = handle_device_event(&mut state, &DeviceEvent::Disconnected, MuteControl::Firmware);
    let _ = handle_device_event(&mut state, &DeviceEvent::Connected, MuteControl::Firmware);
    assert!(!alerts(&mut state, 20, BatteryStatus::Normal));
}

#[test]
fn the_battery_is_judged_by_the_state() {
    let mut state = open_state();
    state.battery_percent = 20;
    assert!(handle_low_battery(&mut state));
    assert!(state.low_battery_alerted);
    assert!(!handle_low_battery(&mut state));
    state.battery_percent = 21;
    assert!(!handle_low_battery(&mut state));
    assert!(!state.low_battery_alerted);
    state.battery_percent = 1;
    state.device_open = false;
    assert!(!handle_low_battery(&mut state));
    assert!(!state.low_battery_alerted);
}

#[test]
fn the_boost_follows_the_connection() {
    let mut state = AppState::new(5);
    let mut link = |event: DeviceEvent| {
        handle_device_event(&mut state, &event, MuteControl::Firmware).link
    };
    let mut off = mic(false);
    off.connection = ConnectionStatus::DisconnectedIdle;
    assert_eq!(link(DeviceEvent::Connected), LinkAction::Keep);
    assert_eq!(link(DeviceEvent::StatusUpdate(mic(false))), LinkAction::Resume);
    assert_eq!(link(DeviceEvent::StatusUpdate(mic(true))), LinkAction::Keep);
    assert_eq!(link(DeviceEvent::StatusUpdate(off)), LinkAction::StopBoost);
    assert_eq!(link(DeviceEvent::StatusUpdate(mic(true))), LinkAction::Resume);
    assert_eq!(link(DeviceEvent::Disconnected), LinkAction::StopBoost);
    assert_eq!(state.boost_db, 5);
    assert_eq!(state.last_mic_up, None);
}

#[test]
fn the_saved_boost_is_applied_where_the_device_is_found() {
    assert_eq!(boost_to_apply(&Ok(true), 5), Some(5));
    assert_eq!(boost_to_apply(&Ok(true), 0), None);
    assert_eq!(boost_to_apply(&Ok(false), 5), None);
    assert_eq!(boost_to_apply(&Err(AudioError::DeviceNotFound), 5), None);
}

#[test]
fn a_batch_of_events_refreshes_the_tray_once() {
    let mut state = AppState::new(0);
    let events = vec![
        DeviceEvent::Connected,
        DeviceEvent::StatusUpdate(status(true, 15, BatteryStatus::Low)),
        DeviceEvent::StatusUpdate(status(false, 14, BatteryStatus::Low)),
    ];
    let batch = handle_device_events(&mut state, &events, MuteControl::Firmware);
    let alerted: Vec<bool> = batch.outcomes.iter().map(|o| o.low_battery_alert).collect();
    assert_eq!(alerted, vec![false, true, false]);
    let look = batch.look.unwrap();
    assert_eq!(look.text.battery, "Battery: 14% (Low)");
    assert_eq!(look.text.mic, "Mic: Active");
    assert_eq!(look.tooltip, "Corsair Void - Battery: 14%");
    assert_eq!(look.icon, generate_icon(&state));

    let same = vec![DeviceEvent::StatusUpdate(status(false, 14, BatteryStatus::Low))];
    assert!(handle_device_events(&mut state, &same, MuteControl::Firmware).look.is_none());
    assert!(handle_device_events(&mut state, &vec![], MuteControl::Firmware).look.is_none());
}

#[test]
fn only_visible_changes_refresh_the_tray() {
    let state = open_state();
    let mut other = state;
    other.boost_db = 10;
    other.mute_override = true;
    other.low_battery_alerted = true;
    assert!(refresh(&state, &other).is_none());
    assert_eq!(generate_icon(&state), generate_icon(&other));
    assert_eq!(tooltip(&state), tooltip(&other));
    for change in 0..5 {
        let mut other = state;
        match change {
            0 => other.device_open = false,
            1 => other.headset_connected = false,
            2 => other.last_mic_up = Some(false),
            3 => other.battery_percent = 79,
            _ => other.battery_status = BatteryStatus::Full,
        }
        assert!(refresh(&state, &other).is_some());
    }
}

#[test]
fn menu_texts_follow_the_state() {
    let mut state = open_state();
    assert_eq!(update_menu_text(&state).battery, "Battery: 80%");
    assert_eq!(update_menu_text(&state).mic, "Mic: Active");
    state.last_mic_up = Some(true);
    assert_eq!(update_menu_text(&state).mic, "Mic: Muted");
    for (battery_status, suffix) in [
        (BatteryStatus::Charging, " (Charging)"),
        (BatteryStatus::Low, " (Low)"),
        (BatteryStatus::Critical, " (Critical!)"),
        (BatteryStatus::Full, " (Full)"),
        (BatteryStatus::Normal, ""),
        (BatteryStatus::Unknown(9), ""),
    ] {
        state.battery_status = battery_status;
        assert_eq!(update_menu_text(&state).battery, format!("Battery: 80%{}", suffix));
    }
    state.device_open = false;
    assert_eq!(update_menu_text(&state).battery, "Battery: --");
    assert_eq!(update_menu_text(&state).mic, "Mic: --");
    assert_eq!(tooltip(&state), "Corsair Void - Disconnected");
}

#[test]
fn the_menu_is_laid_out_from_the_configuration() {
    let mut config = Config::default();
    config.general.mic_boost_db = 5;
    config.general.auto_start = true;
    let menu = build_menu(&config, true);
    let texts: Vec<&str> = menu.iter().map(|e| e.text.as_str()).collect();
    assert_eq!(
        texts,
        vec![
            "Corsair Void",
            "Battery: --",
            "Mic: --",
            "",
            "Mic Boost",
            "0 dB",
            "+5 dB",
            "+10 dB",
            "Start on Login",
            "",
            "Quit"
        ]
    );
    let checked: Vec<Option<bool>> = menu.iter().map(|e| e.checked).collect();
    assert_eq!(
        checked,
        vec![
            None,
            None,
            None,
            None,
            None,
            Some(false),
            Some(true),
            Some(false),
            Some(true),
            None,
            None
        ]
    );
    let enabled: Vec<bool> = menu.iter().map(|e| e.enabled).collect();
    assert_eq!(
        enabled,
        vec![false, false, false, false, true, true, true, true, true, false, true]
    );
    assert_eq!(menu[0].kind, EntryKind::Title);
    assert_eq!(menu[3].kind, EntryKind::Separator);
    assert_eq!(menu[4].kind, EntryKind::BoostMenu);
    assert_eq!(menu[7].kind, EntryKind::Boost(2));
    assert_eq!(menu[8].kind, EntryKind::AutoStart);
    assert_eq!(menu[10].kind, EntryKind::Quit);
}

#[test]
fn the_menu_tells_that_boost_is_unavailable() {
    let menu = build_menu(&Config::default(), false);
    assert_eq!(menu[4].text, "Mic Boost (VB-CABLE not found)");
    for entry in &menu[5..8] {
        assert!(!entry.enabled);
    }
}

#[test]
fn one_boost_level_is_checked() {
    assert_eq!(boost_checks(0), [true, false, false]);
    assert_eq!(boost_checks(5), [false, true, false]);
    assert_eq!(boost_checks(10), [false, false, true]);
    assert_eq!(boost_checks(7), [false, false, false]);
}

#[test]
fn menu_choices_are_carried_out() {
    let mut state = AppState::new(0);
    let mut config = Config::default();
    let before = (state, config);
    for (choice, action) in [
        (MenuChoice::Quit, MenuAction::Quit),
        (MenuChoice::Other, MenuAction::Ignore),
        (MenuChoice::Boost(3), MenuAction::Ignore),
        (MenuChoice::AutoStart { checked: true }, MenuAction::SetAutoStart(true)),
    ] {
        let outcome = handle_menu_choice(&choice, &mut state, &mut config);
        assert_eq!(outcome.action, action);
        assert!(!outcome.save);
        assert_eq!((state, config), before);
    }
    let outcome = handle_menu_choice(&MenuChoice::Boost(1), &mut state, &mut config);
    assert_eq!(outcome.action, MenuAction::SetBoost(5));
    assert!(outcome.save);
    assert_eq!(state.boost_db, 5);
    assert_eq!(config.general.mic_boost_db, 5);
}

#[test]
fn ipc_commands_are_answered() {
    let mut state = open_state();
    state.last_mic_up = Some(true);
    state.boost_db = 5;
    let mut config = Config::default();

    let outcome = handle_ipc_command(&IpcMessage::Status, &mut state, &mut config, Ok(()));
    assert!(!outcome.save);
    assert!(!outcome.stop);
    assert_eq!(
        outcome.response.serialize(),
        "OK:mic=muted,battery=80,battery_status=Normal,boost_db=5,connected=true\n"
    );

    let outcome = handle_ipc_command(&IpcMessage::Boost(10), &mut state, &mut config, Ok(()));
    assert!(matches!(outcome.response, IpcResponse::Done));
    assert!(outcome.save);
    assert!(!outcome.stop);
    assert_eq!(state.boost_db, 10);
    assert_eq!(config.general.mic_boost_db, 10);

    let error = Err(AudioError::DeviceNotFound);
    let outcome = handle_ipc_command(&IpcMessage::Boost(0), &mut state, &mut config, error);
    assert!(matches!(
        outcome.response,
        IpcResponse::Error(m) if m == "Failed to set boost: Corsair Void capture device not found"
    ));
    assert!(!outcome.save);
    assert_eq!(state.boost_db, 10);
    assert_eq!(config.general.mic_boost_db, 10);

    // The instance answers before it stops.
    let outcome = handle_ipc_command(&IpcMessage::Stop, &mut state, &mut config, Ok(()));
    assert!(matches!(outcome.response, IpcResponse::Done));
    assert!(outcome.stop);
    assert!(!outcome.save);
}

#[test]
fn a_status_without_a_microphone_position_is_active() {
    let mut state = AppState::new(0);
    let mut config = Config::default();
    let outcome = handle_ipc_command(&IpcMessage::Status, &mut state, &mut config, Ok(()));
    assert_eq!(
        outcome.response.serialize(),
        "OK:mic=active,battery=0,battery_status=Disconnected,boost_db=0,connected=false\n"
    );
}

#[test]
fn auto_start_outcomes_are_kept_or_reverted() {
    let mut config = Config::default();
    let ok = AutoStartOutcome {
        enabled: true,
        result: Ok(()),
    };
    let effect = handle_auto_start_outcome(&ok, &mut config);
    assert!(effect.save);
    assert_eq!(effect.checkbox, None);
    assert!(config.general.auto_start);
    let failed = AutoStartOutcome {
        enabled: false,
        result: Err("no".to_string()),
    };
    let effect = handle_auto_start_outcome(&failed, &mut config);
    assert!(!effect.save);
    assert_eq!(effect.checkbox, Some(true));
    assert!(config.general.auto_start);
}

fn report(action: AutoStartAction) -> (bool, Result<(), String>) {
    match action {
        AutoStartAction::Report(outcome) => (outcome.enabled, outcome.result),
        other => panic!("{:?}", other),
    }
}

#[test]
fn enabling_auto_start_goes_step_by_step() {
    let known = AutoStartEvent::Toggled {
        config_dir_known: true,
    };
    assert!(matches!(set_auto_start(true, known), AutoStartAction::WriteUnit));
    assert!(matches!(
        set_auto_start(true, AutoStartEvent::UnitWritten(Ok(()))),
        AutoStartAction::Systemctl { enable: true }
    ));
    assert_eq!(
        report(set_auto_start(true, AutoStartEvent::SystemctlDone(Ok(())))),
        (true, Ok(()))
    );
    let error = || Err("denied".to_string());
    assert_eq!(
        report(set_auto_start(true, AutoStartEvent::UnitWritten(error()))),
        (true, error())
    );
    assert_eq!(
        report(set_auto_start(true, AutoStartEvent::SystemctlDone(error()))),
        (true, error())
    );
    assert_eq!(
        report(set_auto_start(true, AutoStartEvent::RegistryUpdated(error()))),
        (true, error())
    );
    let unknown = AutoStartEvent::Toggled {
        config_dir_known: false,
    };
    assert_eq!(
        report(set_auto_start(true, unknown)),
        (true, Err("Could not determine config dir".to_string()))
    );
}

#[test]
fn disabling_auto_start_succeeds_whatever_systemctl_says() {
    let known = AutoStartEvent::Toggled {
        config_dir_known: true,
    };
    assert!(matches!(set_auto_start(false, known), AutoStartAction::RemoveUnit));
    assert!(matches!(
        set_auto_start(false, AutoStartEvent::UnitRemoved),
        AutoStartAction::Systemctl { enable: false }
    ));
    assert_eq!(
        report(set_auto_start(
            false,
            AutoStartEvent::SystemctlDone(Err("busy".to_string()))
        )),
        (false, Ok(()))
    );
}

#[test]
fn the_unit_file_starts_the_program() {
    assert_eq!(
        unit_file("/usr/local/bin/corsair-void"),
        "[Unit]\n\
         Description=Corsair Void controller\n\
         \n\
         [Service]\n\
         ExecStart=/usr/local/bin/corsair-void\n\
         Restart=on-failure\n\
         \n\
         [Install]\n\
         WantedBy=default.target\n"
    );
}

#[test]
fn systemctl_results_are_explained() {
    assert_eq!(systemctl_action(true), "enable");
    assert_eq!(systemctl_action(false), "disable");
    assert_eq!(run_systemctl(true, SystemctlRun::Success), Ok(()));
    assert_eq!(
        run_systemctl(true, SystemctlRun::Exited("exit status: 1".to_string())),
        Err("systemctl enable exited with exit status: 1".to_string())
    );
    assert_eq!(
        run_systemctl(false, SystemctlRun::NotRun("not found".to_string())),
        Err("failed to run systemctl: not found".to_string())
    );
}

fn pixel(icon: &[u8], x: usize, y: usize) -> [u8; 4] {
    let i = (y * 32 + x) * 4;
    [icon[i], icon[i + 1], icon[i + 2], icon[i + 3]]
}

#[test]
fn the_icon_has_three_states() {
    let mut state = AppState::default();
    let icon = generate_icon(&state);
    assert_eq!(icon.len() as u32, 4 * ICON_SIZE * ICON_SIZE);
    assert_eq!(pixel(&icon, 16, 16), [0x80, 0x80, 0x80, 0xff]);
    assert_eq!(pixel(&icon, 0, 0), [0, 0, 0, 0]);
    state.device_open = true;
    assert_eq!(pixel(&generate_icon(&state), 16, 16), [0xff, 0x8c, 0x00, 0xff]);
    state.headset_connected = true;
    assert_eq!(pixel(&generate_icon(&state), 16, 16), [0x00, 0xb4, 0xd8, 0xff]);
}

#[test]
fn the_icon_is_drawn_as_with_floats() {
    for percent in 0..=255_u8 {
        for (device_open, mic_up) in [(true, Some(true)), (true, None), (false, Some(true))] {
            let state = AppState {
                device_open,
                last_mic_up: mic_up,
                headset_connected: true,
                battery_percent: percent,
                ..AppState::default()
            };
            let mut expected = vec![[0u8; 4]; 1024];
            for y in 0..32 {
                for x in 0..32 {
                    let (dx, dy) = (x as f32 - 16.0, y as f32 - 16.0);
                    if (dx * dx + dy * dy).sqrt() <= 14.0 {
                        expected[y * 32 + x] = if device_open {
                            [0x00, 0xb4, 0xd8, 0xff]
                        } else {
                            [0x80, 0x80, 0x80, 0xff]
                        };
                    }
                    let (dx, dy) = (x as f32 - 26.0, y as f32 - 6.0);
                    if mic_up == Some(true) && (dx * dx + dy * dy).sqrt() <= 4.0 {
                        expected[y * 32 + x] = [0xff, 0x20, 0x20, 0xff];
                    }
                }
            }
            if device_open {
                let width = ((percent as f32 / 100.0) * 28.0) as usize;
                let colour = if percent > 50 {
                    [0x40, 0xc0, 0x40, 0xff]
                } else if percent > 20 {
                    [0xe0, 0xc0, 0x20, 0xff]
                } else {
                    [0xe0, 0x30, 0x30, 0xff]
                };
                for y in 26..30 {
                    for x in 2..2 + width {
                        if y * 32 + x < 1024 {
                            expected[y * 32 + x] = colour;
                        }
                    }
                }
            }
            assert_eq!(generate_icon(&state), expected.concat(), "{}", percent);
        }
    }
}

#[test]
fn boosts_from_anywhere_agree_with_the_menu() {
    let mut state = AppState::new(0);
    let mut config = Config::default();
    for line in ["BOOST 200", "BOOST 7", "BOOST 1", "BOOST 10"] {
        let message = IpcMessage::parse(line).unwrap();
        let _ = handle_ipc_command(&message, &mut state, &mut config, Ok(()));
        assert_eq!(state.boost_db, config.general.mic_boost_db);
        let checked = boost_checks(state.boost_db).into_iter().filter(|c| *c).count();
        assert_eq!(checked, 1);
    }
    assert_eq!(state.boost_db, 10);
}

#[test]
fn the_tray_starts_in_agreement_with_its_configuration() {
    for db in 0..=255_u8 {
        let mut parsed = Config::default();
        parsed.general.mic_boost_db = db;
        let config = Config::load(Some(parsed));
        let state = AppState::new(config.general.mic_boost_db);
        assert_eq!(state.boost_db, config.general.mic_boost_db);
        assert_eq!(boost_checks(state.boost_db).into_iter().filter(|c| *c).count(), 1);
    }
}
