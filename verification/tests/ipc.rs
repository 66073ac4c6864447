use corsair_void::device::protocol::BatteryStatus;
use corsair_void::ipc::{
    client_is_there, line_is_complete, socket_path, IpcMessage, IpcResponse, MAX_IPC_LINE,
};

#[test]
fn messages_are_lines() {
    assert_eq!(IpcMessage::Status.serialize(), "STATUS\n");
    assert_eq!(IpcMessage::Boost(10).serialize(), "BOOST 10\n");
    assert_eq!(IpcMessage::Stop.serialize(), "STOP\n");
}

#[test]
fn messages_are_received_as_they_were_sent() {
    for message in [
        IpcMessage::Status,
        IpcMessage::Stop,
        IpcMessage::Boost(0),
        IpcMessage::Boost(5),
        IpcMessage::Boost(10),
    ] {
        assert_eq!(IpcMessage::parse(&message.serialize()), Some(message));
    }
}

#[test]
fn boosts_are_snapped_on_arrival() {
    assert_eq!(IpcMessage::parse("BOOST 200\n"), Some(IpcMessage::Boost(10)));
    assert_eq!(IpcMessage::parse("BOOST 7"), Some(IpcMessage::Boost(5)));
    assert_eq!(
        IpcMessage::parse(&IpcMessage::Boost(2).serialize()),
        Some(IpcMessage::Boost(0))
    );
}

#[test]
fn lines_are_read_leniently() {
    assert_eq!(IpcMessage::parse("  status \r\n"), Some(IpcMessage::Status));
    assert_eq!(IpcMessage::parse("Stop"), Some(IpcMessage::Stop));
    assert_eq!(IpcMessage::parse("BOOST   5  "), Some(IpcMessage::Boost(5)));
    for line in ["", "\n", "BOOST", "BOOST ", "boost 5", "BOOST x", "BOOST 256", "BOOST 5 5", "STATUS!"] {
        assert_eq!(IpcMessage::parse(line), None, "{:?}", line);
    }
}

#[test]
fn lines_that_are_no_message_are_refused() {
    assert_eq!(IpcMessage::accept("STOP\n"), Ok(IpcMessage::Stop));
    assert_eq!(
        IpcMessage::accept("HELLO\n"),
        Err("Invalid IPC message".to_string())
    );
}

fn status(battery_status: &str) -> IpcResponse {
    IpcResponse::Status {
        mic_up: true,
        battery_percent: 78,
        battery_status: battery_status.to_string(),
        boost_db: 5,
        connected: true,
    }
}

#[test]
fn responses_are_lines() {
    assert_eq!(
        status("Normal").serialize(),
        "OK:mic=muted,battery=78,battery_status=Normal,boost_db=5,connected=true\n"
    );
    let other = IpcResponse::Status {
        mic_up: false,
        battery_percent: 0,
        battery_status: "Low".to_string(),
        boost_db: 0,
        connected: false,
    };
    assert_eq!(
        other.serialize(),
        "OK:mic=active,battery=0,battery_status=Low,boost_db=0,connected=false\n"
    );
    assert_eq!(IpcResponse::Done.serialize(), "OK\n");
    assert_eq!(
        IpcResponse::Error("no".to_string()).serialize(),
        "ERR:no\n"
    );
}

#[test]
fn responses_are_received_as_they_were_sent() {
    for byte in 0..=255 {
        let text = BatteryStatus::from_byte(byte).to_string();
        match IpcResponse::parse(&status(&text).serialize()) {
            IpcResponse::Status {
                mic_up,
                battery_percent,
                battery_status,
                boost_db,
                connected,
            } => {
                assert!(mic_up);
                assert_eq!(battery_percent, 78);
                assert_eq!(battery_status, text);
                assert_eq!(boost_db, 5);
                assert!(connected);
            }
            other => panic!("{:?}", other),
        }
    }
    assert!(matches!(
        IpcResponse::parse(&IpcResponse::Done.serialize()),
        IpcResponse::Done
    ));
    for message in ["", "no", "a, b=c: d", " x", "x ", " \t", "gone.\n"] {
        match IpcResponse::parse(&IpcResponse::Error(message.to_string()).serialize()) {
            // White space at the end is lost.
            IpcResponse::Error(m) => assert_eq!(m, message.trim_end()),
            other => panic!("{:?}", other),
        }
    }
}

#[test]
fn status_lines_are_read_leniently() {
    match IpcResponse::parse("OK:mic=up,battery=300,what=ever,boost_db=x,novalue,connected=TRUE") {
        IpcResponse::Status {
            mic_up,
            battery_percent,
            battery_status,
            boost_db,
            connected,
        } => {
            assert!(!mic_up);
            assert_eq!(battery_percent, 0);
            assert_eq!(battery_status, "");
            assert_eq!(boost_db, 0);
            assert!(!connected);
        }
        other => panic!("{:?}", other),
    }
    // A later field replaces an earlier one.
    match IpcResponse::parse("OK:battery=1,battery=2") {
        IpcResponse::Status {
            battery_percent, ..
        } => assert_eq!(battery_percent, 2),
        other => panic!("{:?}", other),
    }
}

#[test]
fn other_lines_are_quoted_in_an_error() {
    for (line, quoted) in [("", ""), ("hello\n", "hello"), ("ok", "ok")] {
        match IpcResponse::parse(line) {
            IpcResponse::Error(m) => assert_eq!(m, format!("Unknown response: {}", quoted)),
            other => panic!("{:?}", other),
        }
    }
}

#[test]
fn the_socket_is_in_the_runtime_directory() {
    assert_eq!(
        socket_path(Some("/run/user/1000")),
        "/run/user/1000/corsair-void.sock"
    );
    assert_eq!(socket_path(Some("/run/")), "/run/corsair-void.sock");
    assert_eq!(socket_path(Some("")), "corsair-void.sock");
    assert_eq!(socket_path(None), "/tmp/corsair-void.sock");
}

#[test]
fn early_pipe_clients_are_served() {
    assert!(client_is_there(None));
    assert!(client_is_there(Some(535)));
    assert!(client_is_there(Some(232)));
    assert!(!client_is_there(Some(109)));
}

#[test]
fn lines_are_short_enough_to_be_read_whole() {
    assert!(IpcMessage::Boost(255).serialize().len() as u64 <= MAX_IPC_LINE);
    let longest = IpcResponse::Status {
        mic_up: false,
        battery_percent: 255,
        battery_status: BatteryStatus::Unknown(255).to_string(),
        boost_db: 255,
        connected: false,
    };
    assert!(longest.serialize().len() as u64 <= MAX_IPC_LINE);
}

#[test]
fn a_line_ends_with_a_line_feed_or_at_the_limit() {
    assert!(!line_is_complete(b""));
    assert!(!line_is_complete(b"STATUS"));
    assert!(line_is_complete(b"STATUS\n"));
    assert!(line_is_complete(b"\nSTATUS"));
    assert!(!line_is_complete(&[b'x'; 1023]));
    assert!(line_is_complete(&[b'x'; 1024]));
    assert!(line_is_complete(&[b'x'; 2000]));
}
