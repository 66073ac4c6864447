use corsair_void::audio::boost::{
    find_virtual_cable_device, BoostAction, BoostEngine, Cable,
};
use corsair_void::audio::linux::{
    BoostTarget, ContextState, LinuxAudioController, OperationState, PulseWait, SourceInfo,
    PA_TIMEOUT_MS,
};
use corsair_void::audio::passthrough::{
    amplify_samples, captured_samples, convert_channels, frames_to_write, process_audio, resample,
    samples_to_write,
};
use corsair_void::audio::windows::{find_corsair_device, WindowsAudioController};
use corsair_void::audio::worker::{next_action, WorkerAction, WorkerEvent};
use corsair_void::audio::{
    is_cable_name, is_headset, is_headset_name, is_virtual_cable, normalize_boost_db, AudioError,
    BOOST_LEVELS,
};

#[test]
fn normalize_passes_through_valid_levels() {
    assert_eq!(normalize_boost_db(0), 0);
    assert_eq!(normalize_boost_db(5), 5);
    assert_eq!(normalize_boost_db(10), 10);
}

#[test]
fn normalize_snaps_to_nearest_level() {
    assert_eq!(normalize_boost_db(2), 0);
    assert_eq!(normalize_boost_db(7), 5);
    assert_eq!(normalize_boost_db(8), 10);
    assert_eq!(normalize_boost_db(200), 10);
}

#[test]
fn normalize_gives_the_nearest_level_for_every_value() {
    for db in 0..=255_u8 {
        let expected = BOOST_LEVELS.into_iter().min_by_key(|&level| level.abs_diff(db));
        assert_eq!(Some(normalize_boost_db(db)), expected);
        assert_eq!(normalize_boost_db(normalize_boost_db(db)), normalize_boost_db(db));
    }
}

#[test]
fn audio_errors_have_messages() {
    assert_eq!(
        AudioError::DeviceNotFound.to_string(),
        "Corsair Void capture device not found"
    );
    assert_eq!(
        AudioError::ApiError("no".to_string()).to_string(),
        "Audio API error: no"
    );
}

#[test]
fn headset_names_match_in_any_case() {
    assert!(is_headset("Microphone (CORSAIR VOID ELITE)"));
    assert!(is_headset("corsair"));
    assert!(!is_headset("Built-in Audio"));
    assert!(!is_headset(""));
    assert!(is_headset_name("a corsair microphone"));
    assert!(!is_headset_name("A CORSAIR MICROPHONE"));
}

#[test]
fn cable_names_match_in_any_case() {
    assert!(is_virtual_cable("CABLE Input (VB-Audio Virtual Cable)"));
    assert!(is_virtual_cable("VoiceMeeter Input"));
    assert!(is_virtual_cable("My VIRTUAL CABLE"));
    assert!(!is_virtual_cable("Speakers (Corsair)"));
    assert!(!is_virtual_cable("cable output"));
    assert!(is_cable_name("cable input"));
    assert!(!is_cable_name("CABLE INPUT"));
}

fn names(names: &[&str]) -> Vec<Result<String, AudioError>> {
    names.iter().map(|n| Ok(n.to_string())).collect()
}

fn broken() -> Result<String, AudioError> {
    Err(AudioError::ApiError("GetValue".to_string()))
}

#[test]
fn the_first_device_with_a_matching_name_is_taken() {
    let found = find_corsair_device(&names(&["Speakers", "Corsair A", "Corsair B"]));
    assert_eq!(found.ok(), Some(1));
    assert!(matches!(
        find_corsair_device(&names(&["Speakers"])),
        Err(AudioError::DeviceNotFound)
    ));
    let found = find_virtual_cable_device(&names(&["Speakers", "CABLE Input", "Voicemeeter"]));
    assert_eq!(found.ok(), Some(Some(1)));
    assert_eq!(find_virtual_cable_device(&names(&["Speakers"])).ok(), Some(None));
}

#[test]
fn an_unreadable_name_matters_only_before_the_match() {
    let mut devices = names(&["Speakers", "CORSAIR CABLE Input"]);
    devices.push(broken());
    assert_eq!(find_corsair_device(&devices).ok(), Some(1));
    assert_eq!(find_virtual_cable_device(&devices).ok(), Some(Some(1)));
    devices[0] = broken();
    assert!(matches!(
        find_corsair_device(&devices),
        Err(AudioError::ApiError(m)) if m == "GetValue"
    ));
    assert!(matches!(
        find_virtual_cable_device(&devices),
        Err(AudioError::ApiError(m)) if m == "GetValue"
    ));
    devices[0] = Err(AudioError::DeviceNotFound);
    assert!(matches!(
        find_virtual_cable_device(&devices),
        Err(AudioError::DeviceNotFound)
    ));
}

fn source(description: Option<&str>, index: u32, channels: u8) -> SourceInfo {
    SourceInfo {
        description: description.map(|d| d.to_string()),
        index,
        channels,
    }
}

#[test]
fn the_last_matching_source_is_taken() {
    let mut controller = LinuxAudioController::new();
    assert!(matches!(
        controller.boost_target(),
        Err(AudioError::DeviceNotFound)
    ));
    assert!(matches!(
        controller.source_index(),
        Err(AudioError::DeviceNotFound)
    ));
    let sources = vec![
        source(Some("Corsair VOID Mono"), 3, 1),
        source(None, 4, 2),
        source(Some("corsair VOID Stereo"), 7, 2),
        source(Some("Webcam"), 9, 1),
    ];
    assert_eq!(controller.find_device(Ok(sources)).ok(), Some(true));
    assert_eq!(controller.source_index().ok(), Some(7));
    assert_eq!(
        controller.boost_target().ok(),
        Some(BoostTarget {
            index: 7,
            channels: 2
        })
    );
    assert!(controller.boost_available());

    // An error leaves the source known before, a list without the headset forgets it.
    let failed = controller.find_device(Err(AudioError::ApiError("gone".to_string())));
    assert!(matches!(failed, Err(AudioError::ApiError(m)) if m == "gone"));
    assert_eq!(controller.source_index().ok(), Some(7));
    assert_eq!(
        controller.find_device(Ok(vec![source(Some("Webcam"), 9, 1)])).ok(),
        Some(false)
    );
    assert_eq!(controller.device_index, None);
    assert_eq!(controller.channels, None);
}

#[test]
fn a_source_without_channels_is_boosted_as_mono() {
    let mut controller = LinuxAudioController::new();
    let _ = controller.find_device(Ok(vec![source(Some("Corsair"), 2, 0)]));
    assert_eq!(
        controller.boost_target().ok(),
        Some(BoostTarget {
            index: 2,
            channels: 1
        })
    );
    controller.channels = None;
    assert_eq!(controller.boost_target().ok().map(|t| t.channels), Some(1));
}

fn failure(wait: PulseWait) -> Option<String> {
    match wait {
        PulseWait::Fail(e) => Some(e.to_string()),
        _ => None,
    }
}

#[test]
fn pulse_connections_end_or_time_out() {
    let look = LinuxAudioController::connect_pulse;
    assert!(matches!(look(true, ContextState::Ready, 9_999), PulseWait::Done));
    assert!(matches!(
        look(true, ContextState::Pending, PA_TIMEOUT_MS - 1),
        PulseWait::Retry
    ));
    assert_eq!(
        failure(look(true, ContextState::Pending, PA_TIMEOUT_MS)).as_deref(),
        Some("Audio API error: PulseAudio connect timed out")
    );
    for state in [ContextState::Failed, ContextState::Terminated] {
        assert_eq!(
            failure(look(true, state, 0)).as_deref(),
            Some("Audio API error: context failed")
        );
    }
    assert_eq!(
        failure(look(false, ContextState::Ready, 0)).as_deref(),
        Some("Audio API error: mainloop error")
    );
}

#[test]
fn rejected_pulse_operations_are_errors() {
    let look = LinuxAudioController::wait_for_op;
    assert!(matches!(look(true, OperationState::Done, 0), PulseWait::Done));
    assert!(matches!(look(true, OperationState::Running, 0), PulseWait::Retry));
    assert_eq!(
        failure(look(true, OperationState::Cancelled, 0)).as_deref(),
        Some("Audio API error: PulseAudio operation cancelled")
    );
    assert_eq!(
        failure(look(true, OperationState::Running, 3_000)).as_deref(),
        Some("Audio API error: PulseAudio operation timed out")
    );
    assert_eq!(
        failure(look(false, OperationState::Done, 0)).as_deref(),
        Some("Audio API error: mainloop error")
    );
}

fn cable() -> Cable {
    Cable {
        id: "render".to_string(),
        name: "CABLE Input".to_string(),
    }
}

#[test]
fn the_boost_engine_runs_one_worker() {
    let mut engine = BoostEngine::new();
    assert!(!engine.virtual_cable_available());
    let no_cable = engine.set_boost_db(5);
    assert_eq!(
        no_cable.err().map(|e| e.to_string()).as_deref(),
        Some(
            "Audio API error: No virtual audio cable detected. \
             Install VB-CABLE (https://vb-audio.com/Cable/)"
        )
    );
    assert_eq!(engine.get_boost_db(), 5);

    engine.detect_virtual_cable(Ok(Some(cable())));
    assert!(engine.virtual_cable_available());
    assert_eq!(engine.render_device_name.as_deref(), Some("CABLE Input"));
    assert!(matches!(
        engine.set_boost_db(5),
        Err(AudioError::DeviceNotFound)
    ));

    engine.set_capture_device(Ok("capture".to_string()));
    match engine.set_boost_db(5) {
        Ok(BoostAction::Start {
            capture_id,
            render_id,
        }) => {
            assert_eq!(capture_id, "capture");
            assert_eq!(render_id, "render");
        }
        other => panic!("{:?}", other),
    }
    assert!(matches!(engine.set_boost_db(10), Ok(BoostAction::UpdateGain)));
    assert_eq!(engine.get_boost_db(), 10);

    // Stopping keeps the level and the devices.
    assert!(engine.stop());
    assert!(!engine.stop());
    assert_eq!(engine.get_boost_db(), 10);
    assert!(matches!(
        engine.set_boost_db(10),
        Ok(BoostAction::Start { .. })
    ));

    // A worker that has ended by itself is replaced.
    engine.worker_ended();
    assert!(matches!(
        engine.set_boost_db(10),
        Ok(BoostAction::Start { .. })
    ));
}

#[test]
fn failed_lookups_of_the_engine() {
    let mut engine = BoostEngine::new();
    engine.detect_virtual_cable(Ok(Some(cable())));
    engine.set_capture_device(Ok("capture".to_string()));
    engine.set_capture_device(Err(AudioError::DeviceNotFound));
    assert_eq!(engine.capture_device_id.as_deref(), Some("capture"));
    engine.detect_virtual_cable(Err(AudioError::DeviceNotFound));
    assert_eq!(engine.render_device_id, None);
    assert_eq!(engine.render_device_name, None);
    engine.detect_virtual_cable(Ok(Some(cable())));
    engine.detect_virtual_cable(Ok(None));
    assert!(!engine.virtual_cable_available());
}

#[test]
fn boost_on_windows_takes_a_cable() {
    let mut controller = WindowsAudioController::new();
    assert!(matches!(
        controller.volume(),
        Err(AudioError::DeviceNotFound)
    ));
    assert!(!controller.boost_available());
    assert_eq!(
        controller.find_device(Err(AudioError::DeviceNotFound), Ok(None)).ok(),
        Some(false)
    );
    assert!(!controller.endpoint_found);
    // The cable counts without the headset.
    assert_eq!(
        controller.find_device(Err(AudioError::DeviceNotFound), Ok(Some(cable()))).ok(),
        Some(false)
    );
    assert!(controller.boost_available());
    assert!(!controller.endpoint_found);
    let failed = controller.find_device(Err(AudioError::ApiError("x".to_string())), Ok(None));
    assert!(matches!(failed, Err(AudioError::ApiError(m)) if m == "x"));
    assert!(!controller.boost_available());
    let found = controller.find_device(Ok(Ok("capture".to_string())), Ok(Some(cable())));
    assert_eq!(found.ok(), Some(true));
    assert!(controller.volume().is_ok());
    assert!(controller.boost_available());
    assert_eq!(controller.engine.capture_device_id.as_deref(), Some("capture"));
    let found = controller.find_device(Ok(Err(AudioError::DeviceNotFound)), Ok(None));
    assert_eq!(found.ok(), Some(true));
    assert!(!controller.boost_available());
    assert_eq!(controller.engine.capture_device_id.as_deref(), Some("capture"));
}

fn float_pipeline(
    input: &[f32],
    in_channels: usize,
    out_channels: usize,
    gain: f32,
    need_resample: bool,
    ratio: f64,
) -> Vec<f32> {
    process_audio(
        input,
        in_channels,
        out_channels,
        0.0,
        |s: f32| (s * gain).clamp(-1.0, 1.0),
        |a: f32, b: f32| (a + b) * 0.5,
        need_resample,
        |frames: usize| {
            let out_frames = (frames as f64 * ratio).ceil() as usize;
            (0..out_frames)
                .map(|i| (i as f64 / ratio).floor() as usize)
                .collect()
        },
        |i: usize, s0: f32, s1: f32| {
            let position = i as f64 / ratio;
            s0 + (s1 - s0) * (position - position.floor()) as f32
        },
    )
}

#[test]
fn test_process_audio_gain() {
    let input = vec![0.5, -0.3];
    let out = float_pipeline(&input, 1, 1, 2.0, false, 1.0);
    assert!((out[0] - 1.0).abs() < 0.001);
    assert!((out[1] - (-0.6)).abs() < 0.001);
}

#[test]
fn test_process_audio_clamp() {
    let input = vec![0.8, -0.9];
    let out = float_pipeline(&input, 1, 1, 3.0, false, 1.0);
    assert!((out[0] - 1.0).abs() < 0.001);
    assert!((out[1] - (-1.0)).abs() < 0.001);
}

#[test]
fn test_mono_to_stereo() {
    let input = vec![0.5];
    let out = float_pipeline(&input, 1, 2, 1.0, false, 1.0);
    assert_eq!(out.len(), 2);
    assert!((out[0] - 0.5).abs() < 0.001);
    assert!((out[1] - 0.5).abs() < 0.001);
}

#[test]
fn test_stereo_to_mono() {
    let input = vec![0.4, 0.6];
    let out = float_pipeline(&input, 2, 1, 1.0, false, 1.0);
    assert_eq!(out.len(), 1);
    assert!((out[0] - 0.5).abs() < 0.001);
}

#[test]
fn samples_are_amplified_one_by_one() {
    assert_eq!(amplify_samples(&[1, 2, 3], &|s: i32| s * 10), vec![10, 20, 30]);
}

#[test]
fn channels_are_converted() {
    let mix = |a: i32, b: i32| a + b;
    assert_eq!(convert_channels(vec![1, 2, 3], 3, 3, 0, &mix), vec![1, 2, 3]);
    assert_eq!(convert_channels(vec![1, 2], 1, 2, 0, &mix), vec![1, 1, 2, 2]);
    // A stereo sample without its partner stays.
    assert_eq!(convert_channels(vec![1, 2, 5], 2, 1, 0, &mix), vec![3, 5]);
    // Otherwise common channels are kept, new ones are silent and a partial frame is dropped.
    assert_eq!(
        convert_channels(vec![1, 2, 3, 4, 9], 2, 3, 0, &mix),
        vec![1, 2, 0, 3, 4, 0]
    );
    assert_eq!(convert_channels(vec![1, 2, 3, 4, 5, 6], 3, 1, 0, &mix), vec![1, 4]);
}

#[test]
fn frames_are_blended_at_the_planned_positions() {
    let blend = |i: usize, a: i32, b: i32| 100 * i as i32 + 10 * a + b;
    // Two frames of two channels; position 1 is the last frame, position 5 is past the end.
    assert_eq!(
        resample(&vec![1, 2, 3, 4], 2, 0, &vec![0, 1, 5], &blend),
        vec![13, 24, 133, 144, 200, 200]
    );
}

#[test]
fn doubling_the_rate_interpolates() {
    let out = float_pipeline(&[0.0, 0.5], 1, 1, 1.0, true, 2.0);
    assert_eq!(out, vec![0.0, 0.25, 0.5, 0.5]);
}

#[test]
fn writes_are_bounded_by_the_room_in_the_buffer() {
    assert_eq!(frames_to_write(8, 2, 100, 0), 4);
    assert_eq!(frames_to_write(8, 2, 100, 97), 3);
    assert_eq!(frames_to_write(9, 2, 4, 4), 0);
}

#[test]
fn silent_packets_are_silent() {
    assert_eq!(captured_samples(Some(&[1, 2, 3]), 3, 0), vec![1, 2, 3]);
    assert_eq!(captured_samples(None, 3, 7), vec![7, 7, 7]);
    assert!(captured_samples(None, 0, 7).is_empty());
}

#[test]
fn whole_frames_are_written_as_far_as_they_fit() {
    assert_eq!(samples_to_write(&vec![1, 2, 3, 4, 5], 2, 10, 0), vec![1, 2, 3, 4]);
    assert_eq!(samples_to_write(&vec![1, 2, 3, 4, 5], 2, 10, 9), vec![1, 2]);
    assert!(samples_to_write(&vec![1, 2], 2, 10, 10).is_empty());
}

#[test]
fn the_worker_passes_packets_on() {
    let next = next_action;
    assert!(matches!(next(WorkerEvent::Started(Ok(()))), WorkerAction::CheckStop));
    assert!(matches!(
        next(WorkerEvent::StopChecked { stop: false }),
        WorkerAction::Wait { ms: 50 }
    ));
    assert!(matches!(next(WorkerEvent::Waited), WorkerAction::SizePacket));
    assert!(matches!(next(WorkerEvent::PacketSized(Ok(480))), WorkerAction::Capture));
    assert!(matches!(
        next(WorkerEvent::Captured(Ok(480))),
        WorkerAction::Release { frames: 480 }
    ));
    let released = |frames: u32| WorkerEvent::Released {
        frames,
        result: Ok(()),
    };
    assert!(matches!(next(released(480)), WorkerAction::Process));
    assert!(matches!(
        next(WorkerEvent::Processed(Ok(100))),
        WorkerAction::Write { frames: 100 }
    ));
    assert!(matches!(next(WorkerEvent::Written(Ok(()))), WorkerAction::SizePacket));
    // Nothing captured, no room in the output, no more packets.
    assert!(matches!(
        next(WorkerEvent::Captured(Ok(0))),
        WorkerAction::Release { frames: 0 }
    ));
    assert!(matches!(next(released(0)), WorkerAction::SizePacket));
    assert!(matches!(next(WorkerEvent::Processed(Ok(0))), WorkerAction::SizePacket));
    assert!(matches!(next(WorkerEvent::PacketSized(Ok(0))), WorkerAction::CheckStop));
}

#[test]
fn the_worker_ends_with_a_stop_or_an_error() {
    assert!(matches!(
        next_action(WorkerEvent::StopChecked { stop: true }),
        WorkerAction::StopStreams
    ));
    assert!(matches!(
        next_action(WorkerEvent::StreamsStopped),
        WorkerAction::End(Ok(()))
    ));
    let error = || AudioError::ApiError("gone".to_string());
    for event in [
        WorkerEvent::Started(Err(error())),
        WorkerEvent::PacketSized(Err(error())),
        WorkerEvent::Captured(Err(error())),
        WorkerEvent::Released {
            frames: 1,
            result: Err(error()),
        },
        WorkerEvent::Processed(Err(error())),
        WorkerEvent::Written(Err(error())),
    ] {
        assert!(matches!(
            next_action(event),
            WorkerAction::End(Err(AudioError::ApiError(m))) if m == "gone"
        ));
    }
}
