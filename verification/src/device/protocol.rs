//! The HID protocol of the wireless dongles: identifiers, report layout and status parsing.

use vstd::prelude::*;

use crate::text;

verus! {

/// Vendor ID (Corsair).
pub const VENDOR_ID: u16 = 0x1b1c;

/// Product IDs of the wireless dongles: Void, Void Pro and Void Elite, three each.
pub const WIRELESS_PRODUCT_IDS: [u16; 9] = [
    0x0a0c,
    0x0a2b,
    0x1b23,
    0x0a14,
    0x0a16,
    0x0a1a,
    0x0a51,
    0x0a55,
    0x0a75,
];

/// Report ID of a status report.
pub const STATUS_REPORT_ID: u8 = 0x64;

/// Report ID of a firmware report.
pub const FIRMWARE_REPORT_ID: u8 = 0x66;

/// Command that asks for a status report, sent as the first byte of an output report.
pub const STATUS_REQUEST_CMD: u8 = 0xC9;

/// Command that asks for notifications, sent as the first byte of an output report.
pub const NOTIF_REQUEST_CMD: u8 = 0xCA;

/// Offset of the byte that holds the battery level and the microphone position.
pub const STATUS_BYTE_BATTERY_MIC: usize = 2;

/// Offset of the connection byte.
pub const STATUS_BYTE_CONNECTION: usize = 3;

/// Offset of the battery status byte.
pub const STATUS_BYTE_BATTERY_STATUS: usize = 4;

/// The bit that is set while the microphone is up.
pub const MIC_UP_MASK: u8 = 0x80;

/// The bits that hold the battery level.
pub const BATTERY_CAPACITY_MASK: u8 = 0x7F;

pub const CONN_WIRED: u8 = 16;

pub const CONN_INITIALIZING: u8 = 38;

pub const CONN_LOST: u8 = 49;

pub const CONN_DISCONNECTED_SEARCHING: u8 = 51;

pub const CONN_DISCONNECTED_IDLE: u8 = 52;

pub const CONN_WIRELESS_CONNECTED: u8 = 177;

pub const BAT_DISCONNECTED: u8 = 0;

pub const BAT_NORMAL: u8 = 1;

pub const BAT_LOW: u8 = 2;

pub const BAT_CRITICAL: u8 = 3;

pub const BAT_FULL: u8 = 4;

pub const BAT_CHARGING: u8 = 5;

/// Battery level in percent at and below which the battery counts as low.
pub const LOW_BATTERY_THRESHOLD: u8 = 20;

/// HID usage page of the vendor-specific interface.
pub const USAGE_PAGE: u16 = 0xffc5;

/// Polling interval in milliseconds.
pub const POLL_INTERVAL_MS: u64 = 100;

/// Reconnection retry interval in milliseconds.
pub const RECONNECT_INTERVAL_MS: u64 = 2000;

/// Size of a HID report in bytes.
pub const REPORT_SIZE: usize = 12;

#[derive(Debug, Clone, Copy, PartialEq, Eq, Structural)]
pub enum ConnectionStatus {
    Wired,
    Initializing,
    LostConnection,
    DisconnectedSearching,
    DisconnectedIdle,
    WirelessConnected,
    Unknown(u8),
}

/// The connection status that a raw byte stands for.
pub open spec fn connection_of(b: u8) -> ConnectionStatus {
    if b == CONN_WIRED {
        ConnectionStatus::Wired
    } else if b == CONN_INITIALIZING {
        ConnectionStatus::Initializing
    } else if b == CONN_LOST {
        ConnectionStatus::LostConnection
    } else if b == CONN_DISCONNECTED_SEARCHING {
        ConnectionStatus::DisconnectedSearching
    } else if b == CONN_DISCONNECTED_IDLE {
        ConnectionStatus::DisconnectedIdle
    } else if b == CONN_WIRELESS_CONNECTED {
        ConnectionStatus::WirelessConnected
    } else {
        ConnectionStatus::Unknown(b)
    }
}

/// The headset is reachable, by wire or wirelessly.
pub open spec fn connected(c: ConnectionStatus) -> bool {
    c is Wired || c is WirelessConnected
}

/// What a connection status is called.
pub open spec fn connection_text(c: ConnectionStatus) -> Seq<char> {
    match c {
        ConnectionStatus::Wired => "Wired"@,
        ConnectionStatus::Initializing => "Initializing"@,
        ConnectionStatus::LostConnection => "Lost Connection"@,
        ConnectionStatus::DisconnectedSearching => "Disconnected (searching)"@,
        ConnectionStatus::DisconnectedIdle => "Disconnected"@,
        ConnectionStatus::WirelessConnected => "Connected"@,
        ConnectionStatus::Unknown(v) => "Unknown ("@ + text::decimal(v as nat) + ")"@,
    }
}

impl ConnectionStatus {
    pub fn from_byte(b: u8) -> (r: Self)
        ensures
            r == connection_of(b),
    {
        if b == CONN_WIRED {
            ConnectionStatus::Wired
        } else if b == CONN_INITIALIZING {
            ConnectionStatus::Initializing
        } else if b == CONN_LOST {
            ConnectionStatus::LostConnection
        } else if b == CONN_DISCONNECTED_SEARCHING {
            ConnectionStatus::DisconnectedSearching
        } else if b == CONN_DISCONNECTED_IDLE {
            ConnectionStatus::DisconnectedIdle
        } else if b == CONN_WIRELESS_CONNECTED {
            ConnectionStatus::WirelessConnected
        } else {
            ConnectionStatus::Unknown(b)
        }
    }

    pub fn is_connected(&self) -> (r: bool)
        ensures
            r == connected(*self),
    {
        match self {
            ConnectionStatus::Wired => true,
            ConnectionStatus::WirelessConnected => true,
            _ => false,
        }
    }

    pub fn to_string(&self) -> (r: String)
        ensures
            r@ == connection_text(*self),
    {
        match self {
            ConnectionStatus::Wired => "Wired".to_owned(),
            ConnectionStatus::Initializing => "Initializing".to_owned(),
            ConnectionStatus::LostConnection => "Lost Connection".to_owned(),
            ConnectionStatus::DisconnectedSearching => "Disconnected (searching)".to_owned(),
            ConnectionStatus::DisconnectedIdle => "Disconnected".to_owned(),
            ConnectionStatus::WirelessConnected => "Connected".to_owned(),
            ConnectionStatus::Unknown(v) => {
                let mut out = "Unknown (".to_owned();
                text::append_decimal(&mut out, *v);
                out.append(")");
                out
            },
        }
    }
}

#[derive(Debug, Clone, Copy, PartialEq, Eq, Structural)]
pub enum BatteryStatus {
    Disconnected,
    Normal,
    Low,
    Critical,
    Full,
    Charging,
    Unknown(u8),
}

/// The battery status that a raw byte stands for.
pub open spec fn battery_of(b: u8) -> BatteryStatus {
    if b == BAT_DISCONNECTED {
        BatteryStatus::Disconnected
    } else if b == BAT_NORMAL {
        BatteryStatus::Normal
    } else if b == BAT_LOW {
        BatteryStatus::Low
    } else if b == BAT_CRITICAL {
        BatteryStatus::Critical
    } else if b == BAT_FULL {
        BatteryStatus::Full
    } else if b == BAT_CHARGING {
        BatteryStatus::Charging
    } else {
        BatteryStatus::Unknown(b)
    }
}

/// What a battery status is called.
pub open spec fn battery_text(b: BatteryStatus) -> Seq<char> {
    match b {
        BatteryStatus::Disconnected => "Disconnected"@,
        BatteryStatus::Normal => "Normal"@,
        BatteryStatus::Low => "Low"@,
        BatteryStatus::Critical => "Critical"@,
        BatteryStatus::Full => "Full"@,
        BatteryStatus::Charging => "Charging"@,
        BatteryStatus::Unknown(v) => "Unknown ("@ + text::decimal(v as nat) + ")"@,
    }
}

impl BatteryStatus {
    pub fn from_byte(b: u8) -> (r: Self)
        ensures
            r == battery_of(b),
    {
        if b == BAT_DISCONNECTED {
            BatteryStatus::Disconnected
        } else if b == BAT_NORMAL {
            BatteryStatus::Normal
        } else if b == BAT_LOW {
            BatteryStatus::Low
        } else if b == BAT_CRITICAL {
            BatteryStatus::Critical
        } else if b == BAT_FULL {
            BatteryStatus::Full
        } else if b == BAT_CHARGING {
            BatteryStatus::Charging
        } else {
            BatteryStatus::Unknown(b)
        }
    }

    pub fn to_string(&self) -> (r: String)
        ensures
            r@ == battery_text(*self),
    {
        match self {
            BatteryStatus::Disconnected => "Disconnected".to_owned(),
            BatteryStatus::Normal => "Normal".to_owned(),
            BatteryStatus::Low => "Low".to_owned(),
            BatteryStatus::Critical => "Critical".to_owned(),
            BatteryStatus::Full => "Full".to_owned(),
            BatteryStatus::Charging => "Charging".to_owned(),
            BatteryStatus::Unknown(v) => {
                let mut out = "Unknown (".to_owned();
                text::append_decimal(&mut out, *v);
                out.append(")");
                out
            },
        }
    }
}

#[derive(Debug, Clone, Copy, PartialEq, Eq, Structural)]
pub struct HeadsetStatus {
    pub mic_up: bool,
    pub battery_percent: u8,
    pub battery_status: BatteryStatus,
    pub connection: ConnectionStatus,
}

/// The smaller of two levels.
pub open spec fn at_most(level: u8, limit: u8) -> u8 {
    if level <= limit {
        level
    } else {
        limit
    }
}

/// The status that a report carries, if it is a status report. The highest bit of the third byte
/// tells that the microphone is up, the other bits are the battery level, which a charging
/// headset may report above 100.
pub open spec fn status_of_report(data: Seq<u8>) -> Option<HeadsetStatus> {
    if data.len() >= 5 && data[0] == STATUS_REPORT_ID {
        Some(
            HeadsetStatus {
                mic_up: data[2] >= 128,
                battery_percent: at_most((data[2] % 128) as u8, 100),
                battery_status: battery_of(data[4]),
                connection: connection_of(data[3]),
            },
        )
    } else {
        None
    }
}

/// What the position of the microphone is called.
pub open spec fn mic_position_text(mic_up: bool) -> Seq<char> {
    if mic_up {
        "Muted (UP)"@
    } else {
        "Active (DOWN)"@
    }
}

/// The status in one line.
pub open spec fn status_text(s: HeadsetStatus) -> Seq<char> {
    "Mic: "@ + mic_position_text(s.mic_up) + " | Battery: "@ + text::decimal(
        s.battery_percent as nat,
    ) + "% ("@ + battery_text(s.battery_status) + ") | "@ + connection_text(s.connection)
}

impl HeadsetStatus {
    /// Parses a status report from raw HID data, whose first byte is the report ID. Gives `None`
    /// if the report ID does not match or the data is too short.
    pub fn from_report(data: &[u8]) -> (r: Option<Self>)
        ensures
            r == status_of_report(data@),
            r matches Some(s) ==> s.battery_percent <= 100,
    {
        if data.len() < 5 {
            return None;
        }
        if data[0] != STATUS_REPORT_ID {
            return None;
        }
        let b: u8 = data[STATUS_BYTE_BATTERY_MIC];
        assert((b & 0x80 != 0) == (b >= 128)) by (bit_vector);
        assert(b & 0x7f == b % 128) by (bit_vector);
        let mic_up = (b & MIC_UP_MASK) != 0;
        let battery_raw: u8 = b & BATTERY_CAPACITY_MASK;
        let battery_percent: u8 = if battery_raw <= 100 { battery_raw } else { 100 };
        let connection = ConnectionStatus::from_byte(data[STATUS_BYTE_CONNECTION]);
        let battery_status = BatteryStatus::from_byte(data[STATUS_BYTE_BATTERY_STATUS]);
        Some(HeadsetStatus { mic_up, battery_percent, battery_status, connection })
    }

    pub fn is_connected(&self) -> (r: bool)
        ensures
            r == connected(self.connection),
    {
        self.connection.is_connected()
    }

    pub fn to_string(&self) -> (r: String)
        ensures
            r@ == status_text(*self),
    {
        let mut out = "Mic: ".to_owned();
        out.append(mic_position(self.mic_up));
        out.append(" | Battery: ");
        text::append_decimal(&mut out, self.battery_percent);
        out.append("% (");
        out.append(self.battery_status.to_string().as_str());
        out.append(") | ");
        out.append(self.connection.to_string().as_str());
        out
    }
}

/// What the position of the microphone is called.
pub fn mic_position(mic_up: bool) -> (r: &'static str)
    ensures
        r@ == mic_position_text(mic_up),
{
    if mic_up {
        "Muted (UP)"
    } else {
        "Active (DOWN)"
    }
}

/// Different connection bytes stand for different connection statuses.
pub proof fn connection_bytes_are_told_apart(a: u8, b: u8)
    requires
        connection_of(a) == connection_of(b),
    ensures
        a == b,
{
}

/// Different battery status bytes stand for different battery statuses.
pub proof fn battery_bytes_are_told_apart(a: u8, b: u8)
    requires
        battery_of(a) == battery_of(b),
    ensures
        a == b,
{
}

/// Only the report ID, the battery and microphone byte, the connection byte and the battery
/// status byte of a report matter; its other bytes and its length beyond five do not.
pub proof fn status_depends_on_four_bytes(a: Seq<u8>, b: Seq<u8>)
    requires
        a.len() >= 5,
        b.len() >= 5,
        a[0] == b[0],
        a[2] == b[2],
        a[3] == b[3],
        a[4] == b[4],
    ensures
        status_of_report(a) == status_of_report(b),
{
}

/// The microphone position and the battery level do not disturb each other: setting the highest
/// bit of a byte that holds a level leaves the level and reports the microphone as up.
pub proof fn mic_bit_leaves_the_level(data: Seq<u8>, level: u8)
    requires
        level < 128,
        status_of_report(data) is Some,
    ensures
        ({
            let down = status_of_report(data.update(2, level));
            let up = status_of_report(data.update(2, (level + 128) as u8));
            &&& down matches Some(d)
            &&& up matches Some(u)
            &&& !d.mic_up && u.mic_up
            &&& d.battery_percent == at_most(level, 100)
            &&& u.battery_percent == at_most(level, 100)
        }),
{
}

/// A report is a status exactly if it has at least five bytes, of which the first is 0x64.
pub proof fn status_reports_are_recognized(data: Seq<u8>)
    ensures
        status_of_report(data) is Some <==> data.len() >= 5 && data[0] == 0x64,
{
}

/// The fifth byte of a report alone says what the battery status is, whatever the other bytes are.
pub proof fn the_fifth_byte_is_the_battery_status(data: Seq<u8>)
    requires
        status_of_report(data) is Some,
    ensures
        ({
            let status = status_of_report(data)->Some_0.battery_status;
            &&& status is Disconnected <==> data[4] == 0
            &&& status is Normal <==> data[4] == 1
            &&& status is Low <==> data[4] == 2
            &&& status is Critical <==> data[4] == 3
            &&& status is Full <==> data[4] == 4
            &&& status is Charging <==> data[4] == 5
            &&& status is Unknown <==> data[4] > 5
            &&& status is Unknown ==> status == BatteryStatus::Unknown(data[4])
        }),
{
}

/// The fourth byte of a report alone says what the connection is, whatever the other bytes are.
pub proof fn the_fourth_byte_is_the_connection(data: Seq<u8>)
    requires
        status_of_report(data) is Some,
    ensures
        ({
            let connection = status_of_report(data)->Some_0.connection;
            &&& connection is Wired <==> data[3] == 16
            &&& connection is Initializing <==> data[3] == 38
            &&& connection is LostConnection <==> data[3] == 49
            &&& connection is DisconnectedSearching <==> data[3] == 51
            &&& connection is DisconnectedIdle <==> data[3] == 52
            &&& connection is WirelessConnected <==> data[3] == 177
            &&& connection is Unknown ==> connection == ConnectionStatus::Unknown(data[3])
            &&& connected(connection) <==> data[3] == 16 || data[3] == 177
        }),
{
}

/// The third byte of a report alone says where the microphone is and how full the battery is: 128
/// and more is up, and what is left without the 128 is the level, but no more than 100.
pub proof fn the_third_byte_is_the_mic_and_the_level(data: Seq<u8>)
    requires
        status_of_report(data) is Some,
    ensures
        ({
            let status = status_of_report(data)->Some_0;
            let level = if status.mic_up {
                data[2] - 128
            } else {
                data[2] as int
            };
            &&& status.mic_up <==> data[2] >= 128
            &&& level <= 100 ==> status.battery_percent == level
            &&& level > 100 ==> status.battery_percent == 100
        }),
{
}

/// Reports that differ in the connection or the battery status byte give different statuses, and
/// where they differ in nothing else, the statuses differ in nothing else.
pub proof fn bytes_change_what_they_stand_for(data: Seq<u8>, byte: u8)
    requires
        status_of_report(data) is Some,
    ensures
        ({
            let status = status_of_report(data)->Some_0;
            let other_connection = status_of_report(data.update(3, byte));
            let other_battery = status_of_report(data.update(4, byte));
            &&& other_connection is Some && other_battery is Some
            &&& other_connection->Some_0 == (HeadsetStatus {
                connection: other_connection->Some_0.connection,
                ..status
            })
            &&& other_battery->Some_0 == (HeadsetStatus {
                battery_status: other_battery->Some_0.battery_status,
                ..status
            })
            &&& byte != data[3] ==> other_connection->Some_0.connection != status.connection
            &&& byte != data[4] ==> other_battery->Some_0.battery_status != status.battery_status
        }),
{
}

/// The level and the battery status can be read back from the line of a status.
pub proof fn status_lines_tell_the_level(s: HeadsetStatus)
    ensures
        ({
            let mic = if s.mic_up {
                "Mic: Muted (UP) | Battery: "@
            } else {
                "Mic: Active (DOWN) | Battery: "@
            };
            &&& mic.is_prefix_of(status_text(s))
            &&& text::around_first(status_text(s).skip(mic.len() as int), '%') matches Some(
                (digits, rest),
            )
            &&& text::u8_value(digits) == Some(s.battery_percent)
            &&& rest == " ("@ + battery_text(s.battery_status) + ") | "@ + connection_text(
                s.connection,
            )
        }),
{
    reveal_strlit("Mic: ");
    reveal_strlit("Muted (UP)");
    reveal_strlit("Active (DOWN)");
    reveal_strlit(" | Battery: ");
    reveal_strlit("Mic: Muted (UP) | Battery: ");
    reveal_strlit("Mic: Active (DOWN) | Battery: ");
    reveal_strlit("% (");
    reveal_strlit(" (");
    let mic = if s.mic_up {
        "Mic: Muted (UP) | Battery: "@
    } else {
        "Mic: Active (DOWN) | Battery: "@
    };
    let rest = " ("@ + battery_text(s.battery_status) + ") | "@ + connection_text(s.connection);
    let digits = text::decimal(s.battery_percent as nat);
    assert(mic == "Mic: "@ + mic_position_text(s.mic_up) + " | Battery: "@);
    assert("% ("@ == seq!['%'] + " ("@);
    assert(status_text(s) == mic + (digits + seq!['%'] + rest));
    text::lemma_number_reads_back(mic, s.battery_percent, '%', rest);
}

/// What is parsed of a report is what its bytes say, each on its own, and every report that is long
/// enough and has the right ID is parsed.
pub proof fn parsed_reports_say_what_the_bytes_say(data: &[u8], parsed: Option<HeadsetStatus>)
    requires
        call_ensures(HeadsetStatus::from_report, (data,), parsed),
    ensures
        parsed is Some <==> data@.len() >= 5 && data@[0] == 0x64,
        parsed matches Some(status) ==> status.battery_status == match data@[4] {
            0 => BatteryStatus::Disconnected,
            1 => BatteryStatus::Normal,
            2 => BatteryStatus::Low,
            3 => BatteryStatus::Critical,
            4 => BatteryStatus::Full,
            5 => BatteryStatus::Charging,
            byte => BatteryStatus::Unknown(byte),
        },
        parsed matches Some(status) ==> status.connection == match data@[3] {
            16 => ConnectionStatus::Wired,
            38 => ConnectionStatus::Initializing,
            49 => ConnectionStatus::LostConnection,
            51 => ConnectionStatus::DisconnectedSearching,
            52 => ConnectionStatus::DisconnectedIdle,
            177 => ConnectionStatus::WirelessConnected,
            byte => ConnectionStatus::Unknown(byte),
        },
        parsed matches Some(status) ==> status.mic_up == (data@[2] >= 128),
        parsed matches Some(status) ==> (data@[2] % 128 <= 100 ==> status.battery_percent == data@[2]
            % 128),
{
    if parsed is Some {
        the_fifth_byte_is_the_battery_status(data@);
        the_fourth_byte_is_the_connection(data@);
        the_third_byte_is_the_mic_and_the_level(data@);
    }
}

proof fn lemma_unknown_text(v: u8)
    ensures
        ({
            let s = "Unknown ("@ + text::decimal(v as nat) + ")"@;
            &&& s.len() > 9
            &&& s[0] == 'U'
            &&& text::around_first(s.skip(9), ')') matches Some((digits, rest))
            &&& text::u8_value(digits) == Some(v)
            &&& rest.len() == 0
        }),
{
    reveal_strlit("Unknown (");
    reveal_strlit(")");
    let none = Seq::<char>::empty();
    let s = "Unknown ("@ + text::decimal(v as nat) + ")"@;
    assert(")"@ == seq![')']);
    assert(s == "Unknown ("@ + (text::decimal(v as nat) + seq![')'] + none));
    text::lemma_number_reads_back("Unknown ("@, v, ')', none);
    assert("Unknown ("@.len() == 9);
    assert(s[0] == "Unknown ("@[0]);
    assert(s.len() == 9 + text::decimal(v as nat).len() + 1);
}

/// Different battery statuses have different texts, and the text of an unknown one holds its byte.
pub proof fn battery_texts_are_told_apart(a: BatteryStatus, b: BatteryStatus)
    ensures
        battery_text(a) == battery_text(b) ==> a == b,
        a matches BatteryStatus::Unknown(v) ==> {
            &&& text::around_first(battery_text(a).skip(9), ')') matches Some((digits, rest))
            &&& text::u8_value(digits) == Some(v)
            &&& rest.len() == 0
        },
{
    reveal_strlit("Disconnected");
    reveal_strlit("Normal");
    reveal_strlit("Low");
    reveal_strlit("Critical");
    reveal_strlit("Full");
    reveal_strlit("Charging");
    if let BatteryStatus::Unknown(v) = a {
        lemma_unknown_text(v);
    }
    if let BatteryStatus::Unknown(v) = b {
        lemma_unknown_text(v);
    }
    assert("Disconnected"@[0] == 'D');
    assert("Normal"@[0] == 'N');
    assert("Low"@[0] == 'L');
    assert("Full"@[0] == 'F');
    assert("Critical"@[0] == 'C' && "Critical"@[1] == 'r');
    assert("Charging"@[0] == 'C' && "Charging"@[1] == 'h');
}

/// Different connections have different texts, and the text of an unknown one holds its byte.
pub proof fn connection_texts_are_told_apart(a: ConnectionStatus, b: ConnectionStatus)
    ensures
        connection_text(a) == connection_text(b) ==> a == b,
        a matches ConnectionStatus::Unknown(v) ==> {
            &&& text::around_first(connection_text(a).skip(9), ')') matches Some((digits, rest))
            &&& text::u8_value(digits) == Some(v)
            &&& rest.len() == 0
        },
{
    reveal_strlit("Wired");
    reveal_strlit("Initializing");
    reveal_strlit("Lost Connection");
    reveal_strlit("Disconnected (searching)");
    reveal_strlit("Disconnected");
    reveal_strlit("Connected");
    if let ConnectionStatus::Unknown(v) = a {
        lemma_unknown_text(v);
    }
    if let ConnectionStatus::Unknown(v) = b {
        lemma_unknown_text(v);
    }
    assert("Wired"@[0] == 'W');
    assert("Initializing"@[0] == 'I');
    assert("Lost Connection"@[0] == 'L');
    assert("Connected"@[0] == 'C');
    assert("Disconnected (searching)"@[0] == 'D' && "Disconnected (searching)"@.len() == 24);
    assert("Disconnected"@[0] == 'D' && "Disconnected"@.len() == 12);
}

} // verus!
