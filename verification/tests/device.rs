use corsair_void::device::hid::{HidBackend, HidInfo};
use corsair_void::device::protocol::{
    mic_position, BatteryStatus, ConnectionStatus, HeadsetStatus, REPORT_SIZE,
    WIRELESS_PRODUCT_IDS,
};
use corsair_void::device::sysfs::{sysfs_available, SysfsBackend, SysfsEntry};
use corsair_void::device::{
    open_device_backend, BackendAction, BackendEvent, BackendKind, DeviceBackend, DeviceError,
};

#[test]
fn parse_status_report_connected() {
    // Report ID 0x64, power=0, battery=78 mic_down, conn=177, bat_status=1
    let data = [0x64, 0x00, 78, 177, 1, 0, 0, 0, 0, 0, 0, 0];
    let status = HeadsetStatus::from_report(&data).unwrap();
    assert!(!status.mic_up);
    assert_eq!(status.battery_percent, 78);
    assert_eq!(status.battery_status, BatteryStatus::Normal);
    assert_eq!(status.connection, ConnectionStatus::WirelessConnected);
    assert!(status.is_connected());
}

#[test]
fn parse_status_report_mic_up() {
    // battery=50 with mic_up bit set: 50 | 0x80 = 0xB2 = 178
    let data = [0x64, 0x00, 0x80 | 50, 177, 1, 0, 0, 0, 0, 0, 0, 0];
    let status = HeadsetStatus::from_report(&data).unwrap();
    assert!(status.mic_up);
    assert_eq!(status.battery_percent, 50);
}

#[test]
fn parse_status_report_charging_clamp() {
    // Charging can report >100, e.g. 127 (max 7 bits). Should clamp to 100.
    let data = [0x64, 0x00, 127, 177, 5, 0, 0, 0, 0, 0, 0, 0];
    let status = HeadsetStatus::from_report(&data).unwrap();
    assert_eq!(status.battery_percent, 100);
    assert_eq!(status.battery_status, BatteryStatus::Charging);
}

#[test]
fn parse_status_report_disconnected() {
    let data = [0x64, 0x00, 0, 52, 0, 0, 0, 0, 0, 0, 0, 0];
    let status = HeadsetStatus::from_report(&data).unwrap();
    assert_eq!(status.connection, ConnectionStatus::DisconnectedIdle);
    assert!(!status.is_connected());
}

#[test]
fn parse_wrong_report_id() {
    let data = [0x66, 0x00, 78, 177, 1, 0, 0, 0, 0, 0, 0, 0];
    assert!(HeadsetStatus::from_report(&data).is_none());
}

#[test]
fn parse_too_short() {
    let data = [0x64, 0x00, 78];
    assert!(HeadsetStatus::from_report(&data).is_none());
}

#[test]
fn five_bytes_are_enough() {
    assert!(HeadsetStatus::from_report(&[0x64, 0, 78, 177]).is_none());
    assert!(HeadsetStatus::from_report(&[0x64, 0, 78, 177, 1]).is_some());
    // Only the report ID and three more bytes matter.
    assert_eq!(
        HeadsetStatus::from_report(&[0x64, 0, 78, 177, 1]),
        HeadsetStatus::from_report(&[0x64, 9, 78, 177, 1, 9, 9])
    );
}

#[test]
fn every_level_byte_is_split_into_mic_and_level() {
    for byte in 0..=255_u8 {
        let status = HeadsetStatus::from_report(&[0x64, 0, byte, 177, 1]).unwrap();
        assert_eq!(status.mic_up, byte & 0x80 != 0);
        assert_eq!(status.battery_percent, (byte & 0x7f).min(100));
    }
}

#[test]
fn statuses_have_names() {
    let connections: Vec<String> = [16, 38, 49, 51, 52, 177, 7]
        .into_iter()
        .map(|b| ConnectionStatus::from_byte(b).to_string())
        .collect();
    assert_eq!(
        connections,
        vec![
            "Wired",
            "Initializing",
            "Lost Connection",
            "Disconnected (searching)",
            "Disconnected",
            "Connected",
            "Unknown (7)"
        ]
    );
    let batteries: Vec<String> = (0..7)
        .map(|b| BatteryStatus::from_byte(b).to_string())
        .collect();
    assert_eq!(
        batteries,
        vec![
            "Disconnected",
            "Normal",
            "Low",
            "Critical",
            "Full",
            "Charging",
            "Unknown (6)"
        ]
    );
    assert_eq!(ConnectionStatus::from_byte(16), ConnectionStatus::Wired);
    assert_eq!(ConnectionStatus::from_byte(7), ConnectionStatus::Unknown(7));
    assert_eq!(BatteryStatus::from_byte(6), BatteryStatus::Unknown(6));
}

#[test]
fn two_statuses_count_as_connected() {
    for byte in 0..=255_u8 {
        let connected = ConnectionStatus::from_byte(byte).is_connected();
        assert_eq!(connected, byte == 16 || byte == 177);
    }
}

#[test]
fn different_bytes_stand_for_different_statuses() {
    for a in 0..=255_u8 {
        for b in 0..=255_u8 {
            let same_connection = ConnectionStatus::from_byte(a) == ConnectionStatus::from_byte(b);
            assert_eq!(same_connection, a == b);
            let same_battery = BatteryStatus::from_byte(a) == BatteryStatus::from_byte(b);
            assert_eq!(same_battery, a == b);
        }
    }
}

#[test]
fn a_status_is_one_line() {
    let status = HeadsetStatus::from_report(&[0x64, 0, 0x80 | 9, 49, 3]).unwrap();
    assert_eq!(
        status.to_string(),
        "Mic: Muted (UP) | Battery: 9% (Critical) | Lost Connection"
    );
    assert_eq!(mic_position(true), "Muted (UP)");
    assert_eq!(mic_position(false), "Active (DOWN)");
}

fn interface(vendor_id: u16, product_id: u16, usage_page: u16) -> HidInfo {
    HidInfo {
        vendor_id,
        product_id,
        usage_page,
    }
}

#[test]
fn the_first_dongle_is_opened() {
    let list = vec![
        interface(0x1b1c, 0x0a55, 0x000c),
        interface(0x046d, 0x0a55, 0xffc5),
        interface(0x1b1c, 0x1234, 0xffc5),
        interface(0x1b1c, 0x0a75, 0xffc5),
        interface(0x1b1c, 0x0a0c, 0xffc5),
    ];
    assert_eq!(HidBackend::open(&Ok(list)).ok(), Some(3));
    for id in WIRELESS_PRODUCT_IDS {
        let list = vec![interface(0x1b1c, id, 0xffc5)];
        assert_eq!(HidBackend::open(&Ok(list)).ok(), Some(0));
    }
    assert!(matches!(
        HidBackend::open(&Ok(vec![])),
        Err(DeviceError::NotFound)
    ));
    let failed = HidBackend::open(&Err("no HID".to_string()));
    assert_eq!(
        failed.err().map(|e| e.to_string()).as_deref(),
        Some("Communication error: no HID")
    );
    assert_eq!(DeviceError::NotFound.to_string(), "Headset not found");
}

#[test]
fn requests_are_reports() {
    let mut expected = [0u8; REPORT_SIZE];
    expected[0] = 0xc9;
    expected[1] = 0x64;
    assert_eq!(HidBackend::request_status(), expected);
    expected[0] = 0xca;
    assert_eq!(HidBackend::request_notifications(), expected);
}

#[test]
fn reads_are_reports_or_nothing() {
    let buf = [0x64, 0, 78, 177, 1, 0, 0, 0, 0, 0, 0, 0];
    let status = HidBackend::read_status(&buf, &Ok(12)).unwrap();
    assert_eq!(status.map(|s| s.battery_percent), Some(78));
    assert_eq!(HidBackend::read_status(&buf, &Ok(0)).ok(), Some(None));
    assert_eq!(HidBackend::read_status(&buf, &Ok(4)).ok(), Some(None));
    let failed = HidBackend::read_status(&buf, &Err("gone".to_string()));
    assert_eq!(
        failed.err().map(|e| e.to_string()).as_deref(),
        Some("Communication error: gone")
    );
}

fn entry(path: &str, has_microphone_up: bool) -> SysfsEntry {
    SysfsEntry {
        path: path.to_string(),
        has_microphone_up,
    }
}

#[test]
fn the_first_headset_in_sysfs_is_opened() {
    let listing = Ok(vec![entry("/a", false), entry("/b", true), entry("/c", true)]);
    assert!(sysfs_available(&listing));
    let backend = SysfsBackend::open(&listing).unwrap();
    assert_eq!(backend.device_path, "/b");
    assert_eq!(backend.last, None);

    let none = Ok(vec![entry("/a", false)]);
    assert!(!sysfs_available(&none));
    assert!(matches!(
        SysfsBackend::open(&none),
        Err(DeviceError::NotFound)
    ));

    let failed = Err("no driver".to_string());
    assert!(!sysfs_available(&failed));
    assert_eq!(
        SysfsBackend::open(&failed).err().map(|e| e.to_string()).as_deref(),
        Some("Communication error: no driver")
    );
}

fn attr(value: &str) -> Result<String, DeviceError> {
    Ok(value.to_string())
}

fn attr_error(msg: &str) -> Result<String, DeviceError> {
    Err(DeviceError::Communication(msg.to_string()))
}

#[test]
fn sysfs_attributes_make_a_status() {
    let status = SysfsBackend::read_current(attr("1\n"), attr(" 78\n"), attr("0\n")).unwrap();
    assert!(status.mic_up);
    assert_eq!(status.battery_percent, 78);
    assert_eq!(status.battery_status, BatteryStatus::Normal);
    assert_eq!(status.connection, ConnectionStatus::WirelessConnected);

    let low = SysfsBackend::read_current(attr("0"), attr("20"), attr("0")).unwrap();
    assert!(!low.mic_up);
    assert_eq!(low.battery_status, BatteryStatus::Low);
    let more = SysfsBackend::read_current(attr("0"), attr("21"), attr("0")).unwrap();
    assert_eq!(more.battery_status, BatteryStatus::Normal);

    // A charging headset reports too much.
    let charging = SysfsBackend::read_current(attr("yes"), attr("154"), attr("1")).unwrap();
    assert!(!charging.mic_up);
    assert_eq!(charging.battery_percent, 100);
    assert_eq!(charging.battery_status, BatteryStatus::Charging);
}

#[test]
fn sysfs_errors_come_in_order() {
    let message = |r: Result<HeadsetStatus, DeviceError>| r.err().map(|e| e.to_string());
    assert_eq!(
        message(SysfsBackend::read_current(
            attr_error("mic"),
            attr_error("capacity"),
            attr_error("charging")
        ))
        .as_deref(),
        Some("Communication error: mic")
    );
    assert_eq!(
        message(SysfsBackend::read_current(
            attr("1"),
            attr_error("capacity"),
            attr_error("charging")
        ))
        .as_deref(),
        Some("Communication error: capacity")
    );
    assert_eq!(
        message(SysfsBackend::read_current(attr("1"), attr("full"), attr_error("charging")))
            .as_deref(),
        Some("Communication error: invalid digit found in string")
    );
    assert_eq!(
        message(SysfsBackend::read_current(attr("1"), attr("7"), attr_error("charging"))).as_deref(),
        Some("Communication error: charging")
    );
}

#[test]
fn refused_numbers_are_explained_as_std_explains_them() {
    for text in ["", "abc", "256", "-1", "+", "1 2"] {
        let refused = SysfsBackend::read_attr_u8(attr(text));
        let expected = text.parse::<u8>().err().map(|e| format!("Communication error: {}", e));
        assert_eq!(refused.err().map(|e| e.to_string()), expected);
    }
    assert_eq!(SysfsBackend::read_attr_u8(attr(" 255 \n")).ok(), Some(255));
    assert_eq!(SysfsBackend::read_attr_bool(attr(" 1 \n")).ok(), Some(true));
    assert_eq!(SysfsBackend::read_attr_bool(attr("11")).ok(), Some(false));
}

#[test]
fn sysfs_reports_changes_only() {
    let mut backend = SysfsBackend {
        device_path: "/b".to_string(),
        last: None,
    };
    let one = SysfsBackend::read_current(attr("0"), attr("50"), attr("0")).unwrap();
    let two = SysfsBackend::read_current(attr("1"), attr("50"), attr("0")).unwrap();
    assert_eq!(backend.read_status(Ok(one)).ok(), Some(Some(one)));
    assert_eq!(backend.read_status(Ok(one)).ok(), Some(None));
    assert!(backend.read_status(Err(DeviceError::NotFound)).is_err());
    assert_eq!(backend.read_status(Ok(one)).ok(), Some(None));
    assert_eq!(backend.read_status(Ok(two)).ok(), Some(Some(two)));
    assert_eq!(backend.read_status(Ok(one)).ok(), Some(Some(one)));
    assert_eq!(backend.device_path, "/b");
}

#[test]
fn sysfs_is_preferred_and_hid_is_the_fallback() {
    let next = open_device_backend;
    assert!(matches!(
        next(BackendEvent::Start {
            sysfs_available: true
        }),
        BackendAction::OpenSysfs
    ));
    assert!(matches!(
        next(BackendEvent::Start {
            sysfs_available: false
        }),
        BackendAction::OpenHid
    ));
    assert!(matches!(
        next(BackendEvent::SysfsOpened(Ok(()))),
        BackendAction::Use(BackendKind::Sysfs)
    ));
    assert!(matches!(
        next(BackendEvent::SysfsOpened(Err(DeviceError::NotFound))),
        BackendAction::OpenHid
    ));
    assert!(matches!(
        next(BackendEvent::HidOpened(Ok(()))),
        BackendAction::Use(BackendKind::Hid)
    ));
    assert!(matches!(
        next(BackendEvent::HidOpened(Err(DeviceError::NotFound))),
        BackendAction::Fail(DeviceError::NotFound)
    ));
    assert!(BackendKind::Hid.needs_health_check());
    assert!(!BackendKind::Sysfs.needs_health_check());
}

struct Mute;

impl DeviceBackend for Mute {
    fn request_status(&self) -> Result<(), DeviceError> {
        Ok(())
    }

    fn request_notifications(&self) -> Result<(), DeviceError> {
        Ok(())
    }

    fn read_status(&mut self, _timeout_ms: i32) -> Result<Option<HeadsetStatus>, DeviceError> {
        Ok(None)
    }
}

#[test]
fn backends_are_checked_unless_they_opt_out() {
    assert!(Mute.needs_health_check());
}
