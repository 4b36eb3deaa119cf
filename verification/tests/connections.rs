use uniclip::error::UniClipError;
use uniclip::message::{Message, MessageKind, MessageMeta};
use uniclip::options::Options;
use uniclip::proto::{
    check_delivered, check_written, Command, Connection, Expected, Handled, WriteOutcome,
};
use uniclip::timestamp::Readings;

fn options() -> Options {
    Options {
        allowed_time_diff: Some(30),
        keep_alive: Some(30),
        max_buffer_size: Some(8),
        sync_interval: Some(60),
        timeout_sec: Some(3),
        clipboard_poll_freq_ms: Some(500),
        sync_on_start: Some(false),
    }
}

fn at(first: u64) -> Readings {
    Readings {
        first: Some(first),
        second: Some(first + 1),
        third: Some(first + 2),
        fourth: Some(first + 3),
    }
}

fn message(kind: MessageKind, stamp: u64, content: &[u8]) -> Message {
    Message {
        meta: MessageMeta { len: content.len() as u32, stamp, kind },
        content: content.to_vec(),
    }
}

fn packet(kind: MessageKind, stamp: u64, content: &[u8]) -> Vec<u8> {
    message(kind, stamp, content).to_packet()
}

#[test]
fn handshake_is_answered_with_a_handshake() {
    let mut conn = Connection::new();
    let asked = conn.handle_msg(message(MessageKind::HandShake, 1, b""), &options(), at(100));
    assert_eq!(asked, Ok(Handled::Reply(packet(MessageKind::HandShake, 101, b""))));
    assert_eq!(
        conn,
        Connection { initial_handshake_done: false, last_keep_alive: 100, last_sync: 0 }
    );
}

#[test]
fn text_goes_to_the_clipboard() {
    let mut conn = Connection::new();
    let msg = message(MessageKind::Text, 5, "gr\u{fc}n".as_bytes());
    assert_eq!(
        conn.handle_msg(msg, &options(), at(100)),
        Ok(Handled::Deliver(Command::Text(5, String::from("gr\u{fc}n"))))
    );
    assert_eq!(
        conn,
        Connection { initial_handshake_done: false, last_keep_alive: 100, last_sync: 101 }
    );
}

#[test]
fn text_without_a_stamp_is_ignored() {
    let mut conn = Connection::new();
    let msg = message(MessageKind::Text, 0, &[0xff]);
    assert_eq!(conn.handle_msg(msg, &options(), at(100)), Ok(Handled::Done));
    assert_eq!(conn.last_sync, 101);
}

#[test]
fn text_that_is_no_text_is_refused() {
    let mut conn = Connection::new();
    let msg = message(MessageKind::Text, 5, &[0xff]);
    assert_eq!(
        conn.handle_msg(msg, &options(), at(100)),
        Err(UniClipError::PacketParseError(String::from(
            "Unable to decode UTF-8 text from the client."
        )))
    );
}

#[test]
fn picture_and_sync_go_to_the_clipboard() {
    let mut conn = Connection::new();
    let msg = message(MessageKind::Image, 0, &[1, 2]);
    assert_eq!(
        conn.handle_msg(msg, &options(), at(100)),
        Ok(Handled::Deliver(Command::Image(0, vec![1, 2])))
    );
    let msg = message(MessageKind::Sync, 0, b"");
    assert_eq!(
        conn.handle_msg(msg, &options(), at(200)),
        Ok(Handled::Deliver(Command::Sync))
    );
    assert_eq!((conn.last_keep_alive, conn.last_sync), (200, 201));
}

#[test]
fn error_of_the_other_side_is_passed_on() {
    let mut conn = Connection::new();
    let msg = message(MessageKind::Error, 5, b"bad");
    assert_eq!(
        conn.handle_msg(msg, &options(), at(100)),
        Err(UniClipError::ClientError(String::from("bad")))
    );
    let msg = message(MessageKind::Error, 5, &[0xff]);
    assert_eq!(
        conn.handle_msg(msg, &options(), at(100)),
        Err(UniClipError::ClientError(String::from(
            "Unknown Error - Unable to decode error message."
        )))
    );
    assert_eq!(conn, Connection::new());
}

#[test]
fn goodbye_is_an_error() {
    let mut conn = Connection::new();
    let msg = message(MessageKind::Disconnect, 5, b"");
    assert_eq!(
        conn.handle_msg(msg, &options(), at(100)),
        Err(UniClipError::DisconnectedError)
    );
}

#[test]
fn unreadable_clock_stops_a_message() {
    let mut conn = Connection::new();
    let t = Readings { first: Some(4), second: None, third: None, fourth: None };
    let msg = message(MessageKind::Sync, 5, b"");
    assert_eq!(conn.handle_msg(msg, &options(), t), Err(UniClipError::SystemClockError));
    assert_eq!((conn.last_keep_alive, conn.last_sync), (4, 0));
}

#[test]
fn awaited_handshake_needs_close_clocks() {
    for (stamp, close) in [(70, true), (130, true), (69, false), (131, false)] {
        let mut conn = Connection::new();
        let msg = message(MessageKind::HandShake, stamp, b"");
        let result = conn.expect_handshake(msg, &options(), at(100));
        if close {
            assert_eq!(result, Ok(Expected::HandShake));
        } else {
            assert_eq!(result, Err(UniClipError::SystemClockError));
        }
        assert_eq!(conn.initial_handshake_done, close);
    }
}

#[test]
fn nothing_counts_before_the_awaited_handshake() {
    let mut conn = Connection::new();
    let msg = message(MessageKind::Text, 5, b"early");
    assert_eq!(
        conn.expect_handshake(msg, &options(), at(100)),
        Err(UniClipError::PacketParseError(String::from(
            "Message received before handshake."
        )))
    );
    conn.initial_handshake_done = true;
    let msg = message(MessageKind::Text, 5, b"later");
    assert_eq!(
        conn.expect_handshake(msg, &options(), at(100)),
        Ok(Expected::Other(Handled::Deliver(Command::Text(5, String::from("later")))))
    );
}

#[test]
fn contents_are_sent_with_their_stamp() {
    let mut conn = Connection::new();
    assert_eq!(
        conn.send_text(&String::from("abc"), 7, &options(), at(100)),
        Ok(packet(MessageKind::Text, 7, b"abc"))
    );
    assert_eq!((conn.last_keep_alive, conn.last_sync), (101, 102));
    // A picture says that it is a text.
    assert_eq!(
        conn.send_image(vec![1, 2], 8, &options(), at(200)),
        Ok(packet(MessageKind::Text, 8, &[1, 2]))
    );
    assert_eq!((conn.last_keep_alive, conn.last_sync), (201, 202));
    assert_eq!(
        conn.send_text(&String::from("too large"), 7, &options(), at(300)),
        Err(UniClipError::MessageTooLargeError)
    );
    assert_eq!((conn.last_keep_alive, conn.last_sync), (201, 202));
}

#[test]
fn requests_are_stamped_with_the_time() {
    let mut conn = Connection::new();
    assert_eq!(conn.req_sync(&options(), at(100)), Ok(packet(MessageKind::Sync, 100, b"")));
    assert_eq!((conn.last_keep_alive, conn.last_sync), (101, 102));
    assert_eq!(
        Connection::send_handshake(&options(), Some(9)),
        Ok(packet(MessageKind::HandShake, 9, b""))
    );
    assert_eq!(
        Connection::send_handshake(&options(), None),
        Err(UniClipError::SystemClockError)
    );
}

#[test]
fn keep_alive_is_noted() {
    let mut conn = Connection::new();
    assert_eq!(conn.keep_alive(Some(12)), Ok(()));
    assert_eq!(conn.last_keep_alive, 12);
    assert_eq!(conn.keep_alive(None), Err(UniClipError::SystemClockError));
    assert_eq!(conn.last_keep_alive, 12);
}

#[test]
fn outcomes_become_errors() {
    assert_eq!(check_written(WriteOutcome::Written), Ok(()));
    assert_eq!(
        check_written(WriteOutcome::Failed(String::from("pipe"))),
        Err(UniClipError::ConnectionError(String::from("pipe")))
    );
    assert_eq!(check_written(WriteOutcome::Elapsed), Err(UniClipError::TimeoutError));
    assert_eq!(check_delivered(Ok(())), Ok(()));
    assert_eq!(
        check_delivered(Err(String::from("closed"))),
        Err(UniClipError::ChannelError(String::from("closed")))
    );
}

#[test]
fn commands_are_copied_whole() {
    for command in [
        Command::Sync,
        Command::Text(3, String::from("abc")),
        Command::Image(4, vec![1, 2, 3]),
    ] {
        assert_eq!(command.clone(), command);
    }
}
