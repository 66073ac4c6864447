//! The line protocol between the command line and the running instance.

use vstd::prelude::*;

use crate::audio::{is_boost_level, nearest_level, normalize_boost_db};
use crate::audio::{levels_snap_to_themselves, snapping_gives_a_level};
use crate::device::protocol::{battery_text, BatteryStatus};
use crate::text;

verus! {

/// How long a peer may take to send its line, in milliseconds.
pub const IPC_READ_TIMEOUT_MS: u64 = 2_000;

/// The most bytes that are read of a line.
pub const MAX_IPC_LINE: u64 = 1024;

/// How long the server waits for the tray to answer a command, in milliseconds.
pub const IPC_RESPONSE_TIMEOUT_MS: u64 = 2_000;

#[derive(Debug, Clone, Copy, PartialEq, Eq, Structural)]
pub enum IpcMessage {
    Status,
    Boost(u8),
    Stop,
}

#[derive(Debug, Clone)]
pub enum IpcResponse {
    Status {
        mic_up: bool,
        battery_percent: u8,
        battery_status: String,
        boost_db: u8,
        connected: bool,
    },
    Done,
    Error(String),
}

/// A response by its contents.
#[verifier::ext_equal]
pub enum ResponseView {
    Status {
        mic_up: bool,
        battery_percent: u8,
        battery_status: Seq<char>,
        boost_db: u8,
        connected: bool,
    },
    Done,
    Error(Seq<char>),
}

impl View for IpcResponse {
    type V = ResponseView;

    open spec fn view(&self) -> ResponseView {
        match self {
            IpcResponse::Status {
                mic_up,
                battery_percent,
                battery_status,
                boost_db,
                connected,
            } => ResponseView::Status {
                mic_up: *mic_up,
                battery_percent: *battery_percent,
                battery_status: battery_status@,
                boost_db: *boost_db,
                connected: *connected,
            },
            IpcResponse::Done => ResponseView::Done,
            IpcResponse::Error(msg) => ResponseView::Error(msg@),
        }
    }
}

/// The line of a message.
pub open spec fn message_line(m: IpcMessage) -> Seq<char> {
    match m {
        IpcMessage::Status => "STATUS\n"@,
        IpcMessage::Boost(db) => "BOOST "@ + text::decimal(db as nat) + "\n"@,
        IpcMessage::Stop => "STOP\n"@,
    }
}

/// The message of a line. White space around it does not matter, nor does the case of "STATUS"
/// and "STOP"; a boost is snapped to the nearest supported level.
pub open spec fn message_of(line: Seq<char>) -> Option<IpcMessage> {
    let trimmed = text::trimmed(line);
    if text::same_ignoring_case(trimmed, "STATUS"@) {
        Some(IpcMessage::Status)
    } else if text::same_ignoring_case(trimmed, "STOP"@) {
        Some(IpcMessage::Stop)
    } else {
        match text::after_prefix(trimmed, "BOOST "@) {
            Some(rest) => match text::u8_value(text::trimmed(rest)) {
                Some(db) => Some(IpcMessage::Boost(nearest_level(db))),
                None => None,
            },
            None => None,
        }
    }
}

impl IpcMessage {
    pub fn serialize(&self) -> (r: String)
        ensures
            r@ == message_line(*self),
    {
        match self {
            IpcMessage::Status => "STATUS\n".to_owned(),
            IpcMessage::Boost(db) => {
                let mut out = "BOOST ".to_owned();
                text::append_decimal(&mut out, *db);
                out.append("\n");
                out
            },
            IpcMessage::Stop => "STOP\n".to_owned(),
        }
    }

    /// Parses a line. Any local program may have sent it, so a boost is snapped to a supported
    /// level.
    pub fn parse(line: &str) -> (r: Option<Self>)
        ensures
            r == message_of(line@),
            r matches Some(IpcMessage::Boost(db)) ==> is_boost_level(db),
    {
        let trimmed = text::trim(line);
        if text::equal_ignoring_case(trimmed, "STATUS") {
            Some(IpcMessage::Status)
        } else if text::equal_ignoring_case(trimmed, "STOP") {
            Some(IpcMessage::Stop)
        } else {
            match text::strip_prefix(trimmed, "BOOST ") {
                Some(rest) => match text::parse_u8(text::trim(rest)) {
                    Some(db) => Some(IpcMessage::Boost(normalize_boost_db(db))),
                    None => None,
                },
                None => None,
            }
        }
    }

    /// The message of a line that the server received, or why it is dropped.
    pub fn accept(line: &str) -> (r: Result<Self, String>)
        ensures
            match message_of(line@) {
                Some(m) => r == Ok::<_, String>(m),
                None => r matches Err(e) && e@ == "Invalid IPC message"@,
            },
    {
        match IpcMessage::parse(line) {
            Some(m) => Ok(m),
            None => Err("Invalid IPC message".to_owned()),
        }
    }
}

/// What the status line calls the position of the microphone.
pub open spec fn mic_word(mic_up: bool) -> Seq<char> {
    if mic_up {
        "muted"@
    } else {
        "active"@
    }
}

/// The line of a response.
pub open spec fn response_line(r: ResponseView) -> Seq<char> {
    match r {
        ResponseView::Status { mic_up, battery_percent, battery_status, boost_db, connected } => {
            "OK:mic="@ + mic_word(mic_up) + ",battery="@ + text::decimal(battery_percent as nat)
                + ",battery_status="@ + battery_status + ",boost_db="@ + text::decimal(
                boost_db as nat,
            ) + ",connected="@ + text::bool_text(connected) + "\n"@
        },
        ResponseView::Done => "OK\n"@,
        ResponseView::Error(msg) => "ERR:"@ + msg + "\n"@,
    }
}

/// The values of a status response while its fields are being read.
#[verifier::ext_equal]
pub struct StatusFields {
    pub mic_up: bool,
    pub battery_percent: u8,
    pub battery_status: Seq<char>,
    pub boost_db: u8,
    pub connected: bool,
}

/// The number that a value stands for, zero if it stands for none.
pub open spec fn number_or_zero(value: Seq<char>) -> u8 {
    match text::u8_value(value) {
        Some(n) => n,
        None => 0,
    }
}

/// The values once a field is read. A field without an equals sign or with an unknown key changes
/// nothing.
pub open spec fn with_field(f: StatusFields, field: Seq<char>) -> StatusFields {
    match text::around_first(field, '=') {
        Some((key, value)) => if key == "mic"@ {
            StatusFields { mic_up: value == "muted"@, ..f }
        } else if key == "battery"@ {
            StatusFields { battery_percent: number_or_zero(value), ..f }
        } else if key == "battery_status"@ {
            StatusFields { battery_status: value, ..f }
        } else if key == "boost_db"@ {
            StatusFields { boost_db: number_or_zero(value), ..f }
        } else if key == "connected"@ {
            StatusFields { connected: value == "true"@, ..f }
        } else {
            f
        },
        None => f,
    }
}

/// The values once all fields are read, from left to right.
pub open spec fn with_fields(f: StatusFields, fields: Seq<Seq<char>>) -> StatusFields
    decreases fields.len(),
{
    if fields.len() == 0 {
        f
    } else {
        with_fields(with_field(f, fields[0]), fields.drop_first())
    }
}

/// The values before any field is read.
pub open spec fn no_fields() -> StatusFields {
    StatusFields {
        mic_up: false,
        battery_percent: 0,
        battery_status: Seq::empty(),
        boost_db: 0,
        connected: false,
    }
}

/// The response of a line. White space around it does not matter.
pub open spec fn response_of(line: Seq<char>) -> ResponseView {
    let trimmed = text::trimmed(line);
    if trimmed == "OK"@ {
        ResponseView::Done
    } else {
        match text::after_prefix(trimmed, "OK:"@) {
            Some(rest) => {
                let f = with_fields(no_fields(), text::fields(rest, ','));
                ResponseView::Status {
                    mic_up: f.mic_up,
                    battery_percent: f.battery_percent,
                    battery_status: f.battery_status,
                    boost_db: f.boost_db,
                    connected: f.connected,
                }
            },
            None => match text::after_prefix(trimmed, "ERR:"@) {
                Some(msg) => ResponseView::Error(msg),
                None => ResponseView::Error("Unknown response: "@ + trimmed),
            },
        }
    }
}

fn parse_or_zero(value: &str) -> (r: u8)
    ensures
        r == number_or_zero(value@),
{
    match text::parse_u8(value) {
        Some(n) => n,
        None => 0,
    }
}

impl IpcResponse {
    pub fn serialize(&self) -> (r: String)
        ensures
            r@ == response_line(self@),
    {
        match self {
            IpcResponse::Status {
                mic_up,
                battery_percent,
                battery_status,
                boost_db,
                connected,
            } => {
                let mut out = "OK:mic=".to_owned();
                if *mic_up {
                    out.append("muted");
                } else {
                    out.append("active");
                }
                out.append(",battery=");
                text::append_decimal(&mut out, *battery_percent);
                out.append(",battery_status=");
                out.append(battery_status.as_str());
                out.append(",boost_db=");
                text::append_decimal(&mut out, *boost_db);
                out.append(",connected=");
                text::append_bool(&mut out, *connected);
                out.append("\n");
                out
            },
            IpcResponse::Done => "OK\n".to_owned(),
            IpcResponse::Error(msg) => {
                let mut out = "ERR:".to_owned();
                out.append(msg.as_str());
                out.append("\n");
                out
            },
        }
    }

    /// Parses a line. A line that is no response is an error that quotes it.
    pub fn parse(line: &str) -> (r: Self)
        ensures
            r@ == response_of(line@),
    {
        let trimmed = text::trim(line);
        if text::equal(trimmed, "OK") {
            return IpcResponse::Done;
        }
        if let Some(rest) = text::strip_prefix(trimmed, "OK:") {
            return Self::parse_status(rest);
        }
        if let Some(msg) = text::strip_prefix(trimmed, "ERR:") {
            return IpcResponse::Error(msg.to_owned());
        }
        let mut msg = "Unknown response: ".to_owned();
        msg.append(trimmed);
        IpcResponse::Error(msg)
    }

    fn parse_status(rest: &str) -> (r: Self)
        ensures
            ({
                let f = with_fields(no_fields(), text::fields(rest@, ','));
                r@ == ResponseView::Status {
                    mic_up: f.mic_up,
                    battery_percent: f.battery_percent,
                    battery_status: f.battery_status,
                    boost_db: f.boost_db,
                    connected: f.connected,
                }
            }),
    {
        let mut mic_up = false;
        let mut battery_percent: u8 = 0;
        let mut battery_status = String::new();
        let mut boost_db: u8 = 0;
        let mut connected = false;
        let parts = text::split(rest, ',');
        let ghost all = text::fields(rest@, ',');
        assert(all.skip(0) == all);
        for i in 0..parts.len()
            invariant
                text::views(parts@) == all,
                with_fields(no_fields(), all) == with_fields(
                    (StatusFields {
                        mic_up,
                        battery_percent,
                        battery_status: battery_status@,
                        boost_db,
                        connected,
                    }),
                    all.skip(i as int),
                ),
        {
            let ghost before = StatusFields {
                mic_up,
                battery_percent,
                battery_status: battery_status@,
                boost_db,
                connected,
            };
            proof {
                assert(text::views(parts@)[i as int] == parts[i as int]@);
                assert(all.skip(i as int).drop_first() == all.skip(i + 1));
                assert(all.skip(i as int)[0] == parts[i as int]@);
            }
            if let Some((key, value)) = text::split_once(parts[i], '=') {
                if text::equal(key, "mic") {
                    mic_up = text::equal(value, "muted");
                } else if text::equal(key, "battery") {
                    battery_percent = parse_or_zero(value);
                } else if text::equal(key, "battery_status") {
                    battery_status = value.to_owned();
                } else if text::equal(key, "boost_db") {
                    boost_db = parse_or_zero(value);
                } else if text::equal(key, "connected") {
                    connected = text::equal(value, "true");
                }
            }
            assert((StatusFields {
                mic_up,
                battery_percent,
                battery_status: battery_status@,
                boost_db,
                connected,
            }) == with_field(before, parts[i as int]@));
        }
        IpcResponse::Status { mic_up, battery_percent, battery_status, boost_db, connected }
    }
}

/// The path of the socket on Unix, in the runtime directory if there is one.
pub fn socket_path(runtime_dir: Option<&str>) -> (r: String)
    ensures
        r@ == match runtime_dir {
            Some(dir) => text::path_below(dir@, "corsair-void.sock"@),
            None => "/tmp/corsair-void.sock"@,
        },
{
    match runtime_dir {
        Some(dir) => text::join_path(dir, "corsair-void.sock"),
        None => "/tmp/corsair-void.sock".to_owned(),
    }
}

/// Whether what has been read so far is all that is read of a line: a line feed has come, or the
/// most bytes that a line may have.
pub fn line_is_complete(bytes: &[u8]) -> (r: bool)
    ensures
        r == (bytes@.contains(0x0a) || bytes@.len() >= MAX_IPC_LINE),
{
    if bytes.len() as u64 >= MAX_IPC_LINE {
        return true;
    }
    for i in 0..bytes.len()
        invariant
            forall|j: int| 0 <= j < i ==> bytes@[j] != 0x0a,
    {
        if bytes[i] == 0x0a {
            assert(bytes@.contains(0x0a));
            return true;
        }
    }
    false
}

/// The system error of a pipe whose client was there before the server waited for it.
pub const ERROR_PIPE_CONNECTED: u32 = 535;

/// The system error of a pipe whose client is closing it already.
pub const ERROR_NO_DATA: u32 = 232;

/// Whether a named pipe has a client to read from once the server has waited for one; `error` is
/// the system error of the wait, if it failed. Some of these errors only tell that the client was
/// faster than the server.
pub fn client_is_there(error: Option<u32>) -> (r: bool)
    ensures
        r == match error {
            Some(code) => code == ERROR_PIPE_CONNECTED || code == ERROR_NO_DATA,
            None => true,
        },
{
    match error {
        Some(code) => code == ERROR_PIPE_CONNECTED || code == ERROR_NO_DATA,
        None => true,
    }
}

/// A message with its boost snapped to the nearest supported level.
pub open spec fn snapped(m: IpcMessage) -> IpcMessage {
    match m {
        IpcMessage::Boost(db) => IpcMessage::Boost(nearest_level(db)),
        _ => m,
    }
}

/// A message that is sent is received as it is, except that a boost arrives as the nearest
/// supported level.
pub proof fn messages_arrive(m: IpcMessage)
    ensures
        message_of(message_line(m)) == Some(snapped(m)),
        (m matches IpcMessage::Boost(db) ==> is_boost_level(db)) ==> message_of(message_line(m))
            == Some(m),
{
    reveal_strlit("STATUS");
    reveal_strlit("STATUS\n");
    reveal_strlit("STOP");
    reveal_strlit("STOP\n");
    reveal_strlit("BOOST ");
    reveal_strlit("\n");
    match m {
        IpcMessage::Status => {
            text::lemma_line_trims("STATUS"@);
            assert("STATUS"@ + "\n"@ == "STATUS\n"@);
        },
        IpcMessage::Stop => {
            text::lemma_line_trims("STOP"@);
            assert("STOP"@ + "\n"@ == "STOP\n"@);
        },
        IpcMessage::Boost(db) => {
            let digits = text::decimal(db as nat);
            let s = "BOOST "@ + digits;
            text::lemma_decimal_digits(db as nat);
            assert(text::is_digit(digits[0]));
            assert(text::is_digit(digits.last()));
            assert(s.last() == digits.last());
            text::lemma_line_trims(s);
            text::lemma_prefix_comes_off("BOOST "@, digits);
            text::lemma_line_trims(digits);
            text::lemma_decimal_reads_back(db);
            levels_snap_to_themselves(db);
        },
    }
}

/// Any line that is taken for a boost asks for a supported level.
pub proof fn received_boosts_are_supported(line: Seq<char>, db: u8)
    requires
        message_of(line) == Some(IpcMessage::Boost(db)),
    ensures
        is_boost_level(db),
{
    let value = text::u8_value(
        text::trimmed(text::after_prefix(text::trimmed(line), "BOOST "@)->0),
    )->0;
    snapping_gives_a_level(value);
}

/// No message is longer than what is read of a line.
pub proof fn messages_fit(m: IpcMessage)
    ensures
        message_line(m).len() <= MAX_IPC_LINE,
{
    reveal_strlit("STATUS\n");
    reveal_strlit("STOP\n");
    reveal_strlit("BOOST ");
    reveal_strlit("\n");
    if let IpcMessage::Boost(db) = m {
        text::lemma_decimal_is_short(db);
    }
}

/// No status is longer than what is read of a line.
pub proof fn statuses_fit(r: ResponseView, battery: BatteryStatus)
    requires
        r matches ResponseView::Status { battery_status, .. } && battery_status == battery_text(
            battery,
        ),
    ensures
        response_line(r).len() <= MAX_IPC_LINE,
{
    reveal_strlit("OK:mic=");
    reveal_strlit("muted");
    reveal_strlit("active");
    reveal_strlit(",battery=");
    reveal_strlit(",battery_status=");
    reveal_strlit(",boost_db=");
    reveal_strlit(",connected=");
    reveal_strlit("true");
    reveal_strlit("false");
    reveal_strlit("\n");
    reveal_strlit("Disconnected");
    reveal_strlit("Normal");
    reveal_strlit("Low");
    reveal_strlit("Critical");
    reveal_strlit("Full");
    reveal_strlit("Charging");
    reveal_strlit("Unknown (");
    reveal_strlit(")");
    if let ResponseView::Status { battery_percent, boost_db, .. } = r {
        text::lemma_decimal_is_short(battery_percent);
        text::lemma_decimal_is_short(boost_db);
    }
    if let BatteryStatus::Unknown(v) = battery {
        text::lemma_decimal_is_short(v);
    }
}

/// The response can be told from its line: the battery status has no comma.
pub open spec fn survives_the_line(r: ResponseView) -> bool {
    r matches ResponseView::Status { battery_status, .. } ==> text::free_of(battery_status, ',')
}

/// A response as it is received: an error message loses the white space at its end.
pub open spec fn as_received(r: ResponseView) -> ResponseView {
    match r {
        ResponseView::Error(msg) => ResponseView::Error(text::trim_end(msg)),
        _ => r,
    }
}

/// A field of a status line: a key, an equals sign and a value.
spec fn field(key: Seq<char>, value: Seq<char>) -> Seq<char> {
    key + seq!['='] + value
}

proof fn lemma_field_is_free(key: Seq<char>, value: Seq<char>)
    requires
        text::free_of(key, ','),
        text::free_of(value, ','),
    ensures
        text::free_of(field(key, value), ','),
{
    let f = field(key, value);
    assert forall|i: int| 0 <= i < f.len() implies #[trigger] f[i] != ',' by {
        if i < key.len() {
            assert(f[i] == key[i]);
        } else if i > key.len() {
            assert(f[i] == value[i - key.len() - 1]);
        }
    }
}

proof fn lemma_digits_are_free(n: nat)
    ensures
        text::free_of(text::decimal(n), ','),
{
    text::lemma_decimal_digits(n);
    assert forall|i: int| 0 <= i < text::decimal(n).len() implies #[trigger] text::decimal(n)[i]
        != ',' by {
        assert(text::is_digit(text::decimal(n)[i]));
    }
}

/// The fields of a status line, one by one.
proof fn lemma_status_fields(
    mic_up: bool,
    battery_percent: u8,
    battery_status: Seq<char>,
    boost_db: u8,
    connected: bool,
)
    requires
        text::free_of(battery_status, ','),
    ensures
        ({
            let mic = field("mic"@, mic_word(mic_up));
            let battery = field("battery"@, text::decimal(battery_percent as nat));
            let status = field("battery_status"@, battery_status);
            let boost = field("boost_db"@, text::decimal(boost_db as nat));
            let conn = field("connected"@, text::bool_text(connected));
            text::fields(
                mic + seq![','] + (battery + seq![','] + (status + seq![','] + (boost + seq![',']
                    + conn))),
                ',',
            ) == seq![mic, battery, status, boost, conn]
        }),
{
    reveal_strlit("mic");
    reveal_strlit("battery");
    reveal_strlit("battery_status");
    reveal_strlit("boost_db");
    reveal_strlit("connected");
    reveal_strlit("muted");
    reveal_strlit("active");
    reveal_strlit("true");
    reveal_strlit("false");
    let mic = field("mic"@, mic_word(mic_up));
    let battery = field("battery"@, text::decimal(battery_percent as nat));
    let status = field("battery_status"@, battery_status);
    let boost = field("boost_db"@, text::decimal(boost_db as nat));
    let conn = field("connected"@, text::bool_text(connected));
    lemma_digits_are_free(battery_percent as nat);
    lemma_digits_are_free(boost_db as nat);
    lemma_field_is_free("mic"@, mic_word(mic_up));
    lemma_field_is_free("battery"@, text::decimal(battery_percent as nat));
    lemma_field_is_free("battery_status"@, battery_status);
    lemma_field_is_free("boost_db"@, text::decimal(boost_db as nat));
    lemma_field_is_free("connected"@, text::bool_text(connected));
    let r3 = boost + seq![','] + conn;
    let r2 = status + seq![','] + r3;
    let r1 = battery + seq![','] + r2;
    text::lemma_fields_cons(mic, ',', r1);
    text::lemma_fields_cons(battery, ',', r2);
    text::lemma_fields_cons(status, ',', r3);
    text::lemma_fields_cons(boost, ',', conn);
    text::lemma_fields_last(conn, ',');
    assert(seq![mic] + (seq![battery] + (seq![status] + (seq![boost] + seq![conn]))) == seq![
        mic,
        battery,
        status,
        boost,
        conn,
    ]);
}

proof fn lemma_status_fields_read_back(
    mic_up: bool,
    battery_percent: u8,
    battery_status: Seq<char>,
    boost_db: u8,
    connected: bool,
)
    ensures
        ({
            let mic = field("mic"@, mic_word(mic_up));
            let battery = field("battery"@, text::decimal(battery_percent as nat));
            let status = field("battery_status"@, battery_status);
            let boost = field("boost_db"@, text::decimal(boost_db as nat));
            let conn = field("connected"@, text::bool_text(connected));
            with_fields(no_fields(), seq![mic, battery, status, boost, conn]) == (StatusFields {
                mic_up,
                battery_percent,
                battery_status,
                boost_db,
                connected,
            })
        }),
{
    reveal_strlit("mic");
    reveal_strlit("battery");
    reveal_strlit("battery_status");
    reveal_strlit("boost_db");
    reveal_strlit("connected");
    reveal_strlit("muted");
    reveal_strlit("active");
    reveal_strlit("true");
    reveal_strlit("false");
    let mic = field("mic"@, mic_word(mic_up));
    let battery = field("battery"@, text::decimal(battery_percent as nat));
    let status = field("battery_status"@, battery_status);
    let boost = field("boost_db"@, text::decimal(boost_db as nat));
    let conn = field("connected"@, text::bool_text(connected));
    text::lemma_around_first("mic"@, '=', mic_word(mic_up));
    text::lemma_around_first("battery"@, '=', text::decimal(battery_percent as nat));
    text::lemma_around_first("battery_status"@, '=', battery_status);
    text::lemma_around_first("boost_db"@, '=', text::decimal(boost_db as nat));
    text::lemma_around_first("connected"@, '=', text::bool_text(connected));
    text::lemma_decimal_reads_back(battery_percent);
    text::lemma_decimal_reads_back(boost_db);
    assert("mic"@.len() == 3 && "battery"@.len() == 7 && "battery_status"@.len() == 14);
    assert("boost_db"@.len() == 8 && "connected"@.len() == 9);
    assert("muted"@.len() == 5 && "active"@.len() == 6);
    assert("true"@.len() == 4 && "false"@.len() == 5);
    let f0 = no_fields();
    let f1 = with_field(f0, mic);
    assert(f1 == StatusFields { mic_up, ..f0 });
    let f2 = with_field(f1, battery);
    assert(f2 == StatusFields { battery_percent, ..f1 });
    let f3 = with_field(f2, status);
    assert(f3 == StatusFields { battery_status, ..f2 });
    let f4 = with_field(f3, boost);
    assert(f4 == StatusFields { boost_db, ..f3 });
    let f5 = with_field(f4, conn);
    assert(f5 == StatusFields { connected, ..f4 });
    let all = seq![mic, battery, status, boost, conn];
    assert(all.drop_first() == seq![battery, status, boost, conn]);
    assert(seq![battery, status, boost, conn].drop_first() == seq![status, boost, conn]);
    assert(seq![status, boost, conn].drop_first() == seq![boost, conn]);
    assert(seq![boost, conn].drop_first() == seq![conn]);
    assert(seq![conn].drop_first() == Seq::<Seq<char>>::empty());
    reveal_with_fuel(with_fields, 6);
}

proof fn lemma_status_line(
    mic_up: bool,
    battery_percent: u8,
    battery_status: Seq<char>,
    boost_db: u8,
    connected: bool,
)
    ensures
        ({
            let mic = field("mic"@, mic_word(mic_up));
            let battery = field("battery"@, text::decimal(battery_percent as nat));
            let status = field("battery_status"@, battery_status);
            let boost = field("boost_db"@, text::decimal(boost_db as nat));
            let conn = field("connected"@, text::bool_text(connected));
            response_line(
                ResponseView::Status { mic_up, battery_percent, battery_status, boost_db, connected },
            ) == "OK:"@ + (mic + seq![','] + (battery + seq![','] + (status + seq![','] + (boost
                + seq![','] + conn)))) + "\n"@
        }),
{
    reveal_strlit("OK:mic=");
    reveal_strlit("OK:");
    reveal_strlit("mic");
    reveal_strlit(",battery=");
    reveal_strlit("battery");
    reveal_strlit(",battery_status=");
    reveal_strlit("battery_status");
    reveal_strlit(",boost_db=");
    reveal_strlit("boost_db");
    reveal_strlit(",connected=");
    reveal_strlit("connected");
    assert("OK:mic="@ == "OK:"@ + "mic"@ + seq!['=']);
    assert(",battery="@ == seq![','] + "battery"@ + seq!['=']);
    assert(",battery_status="@ == seq![','] + "battery_status"@ + seq!['=']);
    assert(",boost_db="@ == seq![','] + "boost_db"@ + seq!['=']);
    assert(",connected="@ == seq![','] + "connected"@ + seq!['=']);
    let mic = field("mic"@, mic_word(mic_up));
    let battery = field("battery"@, text::decimal(battery_percent as nat));
    let status = field("battery_status"@, battery_status);
    let boost = field("boost_db"@, text::decimal(boost_db as nat));
    let conn = field("connected"@, text::bool_text(connected));
    let line = response_line(
        ResponseView::Status { mic_up, battery_percent, battery_status, boost_db, connected },
    );
    assert(line =~= "OK:"@ + (mic + seq![','] + (battery + seq![','] + (status + seq![','] + (boost
        + seq![','] + conn)))) + "\n"@);
}

/// A response that is sent is received as it is, except that an error message loses the white space
/// at its end. A battery status with a comma would not arrive; the tray sends none.
pub proof fn responses_arrive(r: ResponseView)
    requires
        survives_the_line(r),
    ensures
        response_of(response_line(r)) == as_received(r),
{
    reveal_strlit("OK");
    reveal_strlit("OK\n");
    reveal_strlit("OK:");
    reveal_strlit("ERR:");
    reveal_strlit("\n");
    match r {
        ResponseView::Done => {
            text::lemma_line_trims("OK"@);
            assert("OK"@ + "\n"@ == "OK\n"@);
        },
        ResponseView::Error(msg) => {
            let line = response_line(r);
            let s = "ERR:"@ + text::trim_end(msg);
            assert(line[0] == 'E');
            assert(text::trim_start(line) == line);
            text::lemma_line_end_trims("ERR:"@, msg);
            assert(text::trimmed(line) == s);
            text::lemma_prefix_comes_off("ERR:"@, text::trim_end(msg));
            assert(s[0] == 'E');
            assert("OK"@[0] == 'O');
            assert("OK:"@[0] == 'O');
        },
        ResponseView::Status { mic_up, battery_percent, battery_status, boost_db, connected } => {
            let mic = field("mic"@, mic_word(mic_up));
            let battery = field("battery"@, text::decimal(battery_percent as nat));
            let status = field("battery_status"@, battery_status);
            let boost = field("boost_db"@, text::decimal(boost_db as nat));
            let conn = field("connected"@, text::bool_text(connected));
            let rest = mic + seq![','] + (battery + seq![','] + (status + seq![','] + (boost
                + seq![','] + conn)));
            let s = "OK:"@ + rest;
            lemma_status_line(mic_up, battery_percent, battery_status, boost_db, connected);
            reveal_strlit("true");
            reveal_strlit("false");
            assert(s.last() == text::bool_text(connected).last());
            assert(text::bool_text(connected).last() == 'e');
            assert(s[0] == 'O');
            assert(s.len() > 2);
            text::lemma_line_trims(s);
            text::lemma_prefix_comes_off("OK:"@, rest);
            lemma_status_fields(mic_up, battery_percent, battery_status, boost_db, connected);
            lemma_status_fields_read_back(
                mic_up,
                battery_percent,
                battery_status,
                boost_db,
                connected,
            );
        },
    }
}

/// What a battery status is called has no comma, so every status that is sent is received as it
/// is.
pub proof fn battery_texts_survive(b: BatteryStatus)
    ensures
        text::free_of(battery_text(b), ','),
{
    reveal_strlit("Disconnected");
    reveal_strlit("Normal");
    reveal_strlit("Low");
    reveal_strlit("Critical");
    reveal_strlit("Full");
    reveal_strlit("Charging");
    reveal_strlit("Unknown (");
    reveal_strlit(")");
    if let BatteryStatus::Unknown(v) = b {
        let digits = text::decimal(v as nat);
        let s = battery_text(b);
        lemma_digits_are_free(v as nat);
        assert forall|i: int| 0 <= i < s.len() implies #[trigger] s[i] != ',' by {
            if i < 9 {
                assert(s[i] == "Unknown ("@[i]);
            } else if i < 9 + digits.len() {
                assert(s[i] == digits[i - 9]);
            } else {
                assert(s[i] == ")"@[0]);
            }
        }
    }
}

/// A line that is neither "OK", nor starts with "OK:" or "ERR:", is reported as an error that
/// quotes it.
pub proof fn other_lines_are_errors(line: Seq<char>)
    requires
        text::trimmed(line) != "OK"@,
        !"OK:"@.is_prefix_of(text::trimmed(line)),
        !"ERR:"@.is_prefix_of(text::trimmed(line)),
    ensures
        response_of(line) == ResponseView::Error("Unknown response: "@ + text::trimmed(line)),
{
}

/// White space around a message does not matter.
pub proof fn white_space_is_ignored(a: Seq<char>, b: Seq<char>)
    requires
        text::trimmed(a) == text::trimmed(b),
    ensures
        message_of(a) == message_of(b),
        response_of(a) == response_of(b),
{
}

/// A boost is read from what follows the word, up to 2 dB as 0, from 3 to 7 dB as 5 and from 8 dB on
/// as 10, and from nothing else.
pub proof fn boosts_are_read(line: Seq<char>, level: u8)
    ensures
        message_of(line) == Some(IpcMessage::Boost(level)) <==> {
            let trimmed = text::trimmed(line);
            &&& "BOOST "@.is_prefix_of(trimmed)
            &&& text::u8_value(text::trimmed(trimmed.skip("BOOST "@.len() as int))) matches Some(db)
            &&& level == if db <= 2 {
                0
            } else if db <= 7 {
                5
            } else {
                10int
            }
        },
{
    reveal_strlit("STATUS");
    reveal_strlit("STOP");
    reveal_strlit("BOOST ");
    let trimmed = text::trimmed(line);
    if "BOOST "@.is_prefix_of(trimmed) {
        assert(trimmed[0] == "BOOST "@[0]);
        if text::same_ignoring_case(trimmed, "STATUS"@) {
            text::only_letters_have_a_case(trimmed, "STATUS"@);
            assert(trimmed[0] as u32 == 66);
            assert("STATUS"@[0] as u32 == 83);
        }
        if text::same_ignoring_case(trimmed, "STOP"@) {
            text::only_letters_have_a_case(trimmed, "STOP"@);
            assert(trimmed[0] as u32 == 66);
            assert("STOP"@[0] as u32 == 83);
        }
        if let Some(db) = text::u8_value(text::trimmed(trimmed.skip("BOOST "@.len() as int))) {
            crate::audio::levels_lie_around_their_numbers(db);
        }
    }
}

/// A status request and a stop are their words in upper or lower case, and nothing else.
pub proof fn requests_are_their_words(line: Seq<char>)
    ensures
        message_of(line) == Some(IpcMessage::Status) <==> text::same_ignoring_case(
            text::trimmed(line),
            "STATUS"@,
        ),
        message_of(line) == Some(IpcMessage::Stop) <==> text::same_ignoring_case(
            text::trimmed(line),
            "STOP"@,
        ),
{
    reveal_strlit("STATUS");
    reveal_strlit("STOP");
    assert("STATUS"@.len() == 6);
    assert("STOP"@.len() == 4);
    if text::same_ignoring_case(text::trimmed(line), "STOP"@) {
        text::only_letters_have_a_case(text::trimmed(line), "STOP"@);
        if text::same_ignoring_case(text::trimmed(line), "STATUS"@) {
            text::only_letters_have_a_case(text::trimmed(line), "STATUS"@);
        }
    }
}

/// A field of a status sets what it names and nothing else; where a value is given twice, the later
/// one counts.
pub proof fn fields_set_what_they_name(f: StatusFields, key: Seq<char>, value: Seq<char>)
    requires
        text::free_of(key, '='),
    ensures
        ({
            let next = with_field(f, key + seq!['='] + value);
            &&& next.mic_up == if key == "mic"@ {
                value == "muted"@
            } else {
                f.mic_up
            }
            &&& next.battery_percent == if key == "battery"@ {
                number_or_zero(value)
            } else {
                f.battery_percent
            }
            &&& next.battery_status == if key == "battery_status"@ {
                value
            } else {
                f.battery_status
            }
            &&& next.boost_db == if key == "boost_db"@ {
                number_or_zero(value)
            } else {
                f.boost_db
            }
            &&& next.connected == if key == "connected"@ {
                value == "true"@
            } else {
                f.connected
            }
        }),
{
    text::lemma_around_first(key, '=', value);
    reveal_strlit("mic");
    reveal_strlit("battery");
    reveal_strlit("battery_status");
    reveal_strlit("boost_db");
    reveal_strlit("connected");
    assert("mic"@.len() == 3);
    assert("battery"@.len() == 7);
    assert("battery_status"@.len() == 14);
    assert("boost_db"@.len() == 8);
    assert("connected"@.len() == 9);
}

/// A value that is no number from 0 to 255 counts as 0.
pub proof fn numbers_default_to_zero(value: Seq<char>, n: u8)
    ensures
        text::u8_value(value) == Some(n) ==> number_or_zero(value) == n,
        text::u8_value(value) is None ==> number_or_zero(value) == 0,
{
}

/// A line is complete once it has its line feed, wherever that stands, or 1024 bytes, and not
/// before.
pub proof fn lines_end_with_a_line_feed(bytes: &[u8], complete: bool, i: int)
    requires
        call_ensures(line_is_complete, (bytes,), complete),
        0 <= i < bytes@.len(),
    ensures
        bytes@[i] == 10 ==> complete,
        bytes@.len() >= 1024 ==> complete,
        complete && bytes@.len() < 1024 ==> exists|k: int|
            0 <= k < bytes@.len() && #[trigger] bytes@[k] == 10,
{
}

/// The socket lies in the runtime directory, whichever that is.
pub proof fn the_socket_lies_in_the_directory(dir: &str, path: String)
    requires
        call_ensures(socket_path, (Some(dir),), path),
    ensures
        dir@.is_prefix_of(path@),
        path@.skip(path@.len() - "corsair-void.sock"@.len()) == "corsair-void.sock"@,
        path@.len() <= dir@.len() + 1 + "corsair-void.sock"@.len(),
{
    text::paths_hold_directory_and_name(dir@, "corsair-void.sock"@);
}

/// The fields of a status are taken in their order: another field at the end is taken after all the
/// others.
pub proof fn fields_are_taken_in_order(
    f: StatusFields,
    fields: Seq<Seq<char>>,
    last: Seq<char>,
)
    ensures
        with_fields(f, fields.push(last)) == with_field(with_fields(f, fields), last),
        with_fields(f, seq![]) == f,
    decreases fields.len(),
{
    let all = fields.push(last);
    if fields.len() == 0 {
        assert(all.drop_first() == Seq::<Seq<char>>::empty());
        reveal_with_fuel(with_fields, 2);
    } else {
        fields_are_taken_in_order(with_field(f, fields[0]), fields.drop_first(), last);
        assert(all.drop_first() == fields.drop_first().push(last));
    }
}

/// A field without an equals sign is passed over.
pub proof fn broken_fields_are_passed_over(f: StatusFields, field: Seq<char>)
    requires
        text::free_of(field, '='),
    ensures
        with_field(f, field) == f,
{
    text::parts_join_back(field, '=');
    if let Some((before, after)) = text::around_first(field, '=') {
        assert(field[before.len() as int] == '=');
    }
}

/// A response is read from what follows its word: the message of an error as it is, and a status
/// field by field, starting from nothing.
pub proof fn responses_are_read(line: Seq<char>, rest: Seq<char>)
    ensures
        text::trimmed(line) == "ERR:"@ + rest ==> response_of(line) == ResponseView::Error(rest),
        text::trimmed(line) == "OK:"@ + rest ==> {
            let f = with_fields(
                StatusFields {
                    mic_up: false,
                    battery_percent: 0,
                    battery_status: seq![],
                    boost_db: 0,
                    connected: false,
                },
                text::fields(rest, ','),
            );
            response_of(line) == (ResponseView::Status {
                mic_up: f.mic_up,
                battery_percent: f.battery_percent,
                battery_status: f.battery_status,
                boost_db: f.boost_db,
                connected: f.connected,
            })
        },
        response_of(line) is Done <==> text::trimmed(line) == seq!['O', 'K'],
{
    reveal_strlit("OK");
    reveal_strlit("OK:");
    reveal_strlit("ERR:");
    assert("OK"@ == seq!['O', 'K']);
    let trimmed = text::trimmed(line);
    if trimmed == "ERR:"@ + rest {
        text::lemma_prefix_comes_off("ERR:"@, rest);
        assert(trimmed[0] == 'E');
        assert("OK:"@[0] == 'O');
    }
    if trimmed == "OK:"@ + rest {
        text::lemma_prefix_comes_off("OK:"@, rest);
        assert(trimmed.len() >= 3);
    }
}

/// Boosts that differ are told apart on the line, whatever they are.
pub proof fn boost_lines_tell_the_level(db: u8)
    ensures
        ({
            let line = message_line(IpcMessage::Boost(db));
            &&& "BOOST "@.is_prefix_of(line)
            &&& text::around_first(line.skip("BOOST "@.len() as int), '\n') matches Some(
                (digits, rest),
            )
            &&& text::u8_value(digits) == Some(db)
            &&& rest.len() == 0
        }),
{
    reveal_strlit("\n");
    let none = Seq::<char>::empty();
    assert("\n"@ == seq!['\n']);
    assert(message_line(IpcMessage::Boost(db)) == "BOOST "@ + (text::decimal(db as nat)
        + seq!['\n'] + none));
    text::lemma_number_reads_back("BOOST "@, db, '\n', none);
}

/// Every message is one line: its only line feed stands at its end.
pub proof fn lines_have_one_line_feed(m: IpcMessage, i: int)
    requires
        0 <= i < message_line(m).len(),
    ensures
        message_line(m)[i] == '\n' <==> i == message_line(m).len() - 1,
{
    reveal_strlit("STATUS\n");
    reveal_strlit("STOP\n");
    reveal_strlit("BOOST ");
    reveal_strlit("\n");
    if let IpcMessage::Boost(db) = m {
        let digits = text::decimal(db as nat);
        text::lemma_decimal_digits(db as nat);
        let line = message_line(m);
        assert("BOOST "@.len() == 6);
        if i < 6 {
            assert(line[i] == "BOOST "@[i]);
        } else if i < 6 + digits.len() {
            assert(line[i] == digits[i - 6]);
            assert(text::is_digit(digits[i - 6]));
        } else {
            assert(line[i] == "\n"@[0]);
        }
    }
}

} // verus!
