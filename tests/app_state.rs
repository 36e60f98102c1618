use udp_records::app::{listen_status, App, ControlMessage, Mode, StatusMessage};
use udp_records::record::{ParseError, Record};
use udp_records::udp::{Error, IoFailure, IoKind};

fn text_of(msg: Option<StatusMessage>) -> (String, &'static str) {
    match msg {
        Some(StatusMessage::Info(t)) => (t, "info"),
        Some(StatusMessage::Warning(t)) => (t, "warning"),
        Some(StatusMessage::Failure(t)) => (t, "failure"),
        Some(StatusMessage::Success) => (String::new(), "success"),
        None => (String::new(), "none"),
    }
}

#[test]
fn defaults() {
    assert_eq!(Mode::default(), Mode::Send);
    let app = App::default();
    assert!(app.hdpi);
    assert_eq!(app.mode, Mode::Send);
    assert_eq!(app.bind_addr, "0.0.0.0:8142");
    assert_eq!(app.tx_addr, "");
    assert_eq!(app.db_file, "test/test.sqlite");
    assert!(app.task.is_none());
    assert_eq!(app.status, None);
    assert_eq!(app.log, "");
    assert_eq!(ControlMessage::Stop, ControlMessage::Stop);
}

#[test]
fn log_collects_lines_and_outcome() {
    let mut app = App::default();
    app.apply_status(StatusMessage::Info("Sending data...".to_owned()));
    assert_eq!(app.status, None);
    app.apply_status(StatusMessage::Warning("Got corrupted packet".to_owned()));
    app.apply_status(StatusMessage::Success);
    assert_eq!(app.status, Some(true));
    assert_eq!(app.log, "Sending data...\nGot corrupted packet\n");
    app.apply_status(StatusMessage::Failure("Couldn't open file".to_owned()));
    assert_eq!(app.status, Some(false));
    assert!(app.task.is_none());
    assert_eq!(
        app.log,
        "Sending data...\nGot corrupted packet\nCouldn't open file\n"
    );
}

#[test]
fn received_record_is_reported() {
    let res: Result<Record, Error<ParseError>> = Ok(Record {
        id: 4294967295,
        data: "ᚻᛖ".to_owned(),
    });
    assert_eq!(
        text_of(listen_status(&res)),
        ("Got record [4294967295 : ᚻᛖ]".to_owned(), "info")
    );
    let res: Result<Record, Error<ParseError>> = Ok(Record {
        id: 0,
        data: String::new(),
    });
    assert_eq!(
        text_of(listen_status(&res)),
        ("Got record [0 : ]".to_owned(), "info")
    );
}

#[test]
fn corrupted_packet_is_a_warning() {
    let res: Result<Record, Error<ParseError>> =
        Err(Error::ParseError(ParseError::Incomplete(2)));
    assert_eq!(
        text_of(listen_status(&res)),
        ("Got corrupted packet".to_owned(), "warning")
    );
}

#[test]
fn timeouts_are_quiet_and_faults_are_warnings() {
    for kind in [IoKind::TimedOut, IoKind::WouldBlock] {
        let f = IoFailure {
            kind,
            message: "timed out".to_owned(),
        };
        assert!(f.is_timeout());
        let res: Result<Record, Error<ParseError>> = Err(Error::Io(f));
        assert_eq!(text_of(listen_status(&res)).1, "none");
    }
    let f = IoFailure {
        kind: IoKind::Other,
        message: "connection refused".to_owned(),
    };
    assert!(!f.is_timeout());
    let res: Result<Record, Error<ParseError>> = Err(Error::Io(f));
    assert_eq!(
        text_of(listen_status(&res)),
        (
            "Error while reading from socket: connection refused".to_owned(),
            "warning"
        )
    );
}
