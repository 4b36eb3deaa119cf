use uniclip::error::UniClipError;
use uniclip::message::{HeaderRead, Message, MessageKind, MessageMeta, ReadOutcome, META_SIZE};
use uniclip::options::Options;
use uniclip::wire::{native_order, ByteOrder};

fn options(max_buffer_size: u64) -> Options {
    Options {
        allowed_time_diff: Some(30),
        keep_alive: Some(30),
        max_buffer_size: Some(max_buffer_size),
        sync_interval: Some(60),
        timeout_sec: Some(3),
        clipboard_poll_freq_ms: Some(500),
        sync_on_start: Some(false),
    }
}

fn parse_error<T>(reason: &str) -> Result<T, UniClipError> {
    Err(UniClipError::PacketParseError(String::from(reason)))
}

fn header(kind: u8, len: u8) -> Vec<u8> {
    let mut bytes = b"UNICLIP!".to_vec();
    bytes.extend_from_slice(&[len, 0, 0, 0]);
    bytes.extend_from_slice(&[7, 0, 0, 0, 0, 0, 0, 0]);
    bytes.push(kind);
    bytes
}

#[test]
fn packet_layout() {
    let msg = Message {
        meta: MessageMeta { len: 2, stamp: 0x0102_0304_0506_0708, kind: MessageKind::Text },
        content: b"hi".to_vec(),
    };
    let mut little = b"UNICLIP!".to_vec();
    little.extend_from_slice(&[2, 0, 0, 0, 8, 7, 6, 5, 4, 3, 2, 1, 3, b'h', b'i']);
    assert_eq!(msg.to_packet_in(ByteOrder::Little), little);
    let mut big = b"UNICLIP!".to_vec();
    big.extend_from_slice(&[0, 0, 0, 2, 1, 2, 3, 4, 5, 6, 7, 8, 3, b'h', b'i']);
    assert_eq!(msg.to_packet_in(ByteOrder::Big), big);
}

#[test]
fn packet_is_in_the_order_of_the_machine() {
    let msg = Message {
        meta: MessageMeta { len: 0, stamp: 258, kind: MessageKind::Sync },
        content: vec![],
    };
    let mut expected = b"UNICLIP!".to_vec();
    expected.extend_from_slice(&0u32.to_ne_bytes());
    expected.extend_from_slice(&258u64.to_ne_bytes());
    expected.push(1);
    assert_eq!(msg.to_packet(), expected);
    assert_eq!(msg.to_packet(), msg.to_packet_in(native_order()));
}

#[test]
fn packet_survives_the_round_trip() {
    for order in [ByteOrder::Little, ByteOrder::Big] {
        let msg = Message {
            meta: MessageMeta { len: 3, stamp: u64::MAX, kind: MessageKind::Image },
            content: vec![1, 2, 3],
        };
        let packet = msg.to_packet_in(order);
        let head = ReadOutcome::Received(packet[..META_SIZE].to_vec());
        let Ok(HeaderRead::Body(meta)) = Message::read_header_in(head, order) else {
            panic!("content was announced");
        };
        assert_eq!(meta, msg.meta);
        let rest = ReadOutcome::Received(packet[META_SIZE..].to_vec());
        assert_eq!(Message::read_body(meta, rest), Ok(msg));
    }
}

#[test]
fn kinds_and_their_codes() {
    let kinds = [
        MessageKind::HandShake,
        MessageKind::Sync,
        MessageKind::Error,
        MessageKind::Text,
        MessageKind::Image,
        MessageKind::Disconnect,
    ];
    for (i, kind) in kinds.iter().enumerate() {
        assert_eq!(kind.code() as usize, i);
        assert_eq!(MessageKind::from_code(i as u8), Some(*kind));
    }
    assert_eq!(MessageKind::from_code(6), None);
    assert_eq!(MessageKind::from_code(255), None);
}

#[test]
fn header_of_a_control_message_is_the_whole_message() {
    let read = Message::read_header_in(ReadOutcome::Received(header(0, 0)), ByteOrder::Little);
    assert_eq!(
        read,
        Ok(HeaderRead::Whole(Message {
            meta: MessageMeta { len: 0, stamp: 7, kind: MessageKind::HandShake },
            content: vec![],
        }))
    );
}

#[test]
fn header_is_refused() {
    let order = ByteOrder::Little;
    let read = |bytes: Vec<u8>| Message::read_header_in(ReadOutcome::Received(bytes), order);
    assert_eq!(read(vec![]), Err(UniClipError::DisconnectedError));
    assert_eq!(read(header(0, 0)[..20].to_vec()), parse_error("Incomplete message received."));
    let mut other = header(0, 0);
    other[3] = b'X';
    assert_eq!(read(other), parse_error("Magic value mismatch!"));
    assert_eq!(
        read(header(6, 0)),
        parse_error(
            "The conversion failed because the source bytes are not a valid value of the \
             destination type."
        )
    );
    for control in [0, 1, 2, 5] {
        assert_eq!(
            read(header(control, 1)),
            parse_error("Non-empty data received in control messages.")
        );
    }
    assert_eq!(
        Message::read_header(ReadOutcome::Failed(String::from("reset"))),
        Err(UniClipError::IOError(String::from("reset")))
    );
    assert_eq!(Message::read_header(ReadOutcome::Elapsed), Err(UniClipError::TimeoutError));
}

#[test]
fn content_is_refused() {
    let meta = MessageMeta { len: 2, stamp: 1, kind: MessageKind::Text };
    assert_eq!(
        Message::read_body(meta, ReadOutcome::Received(vec![])),
        Err(UniClipError::DisconnectedError)
    );
    assert_eq!(
        Message::read_body(meta, ReadOutcome::Received(vec![1])),
        parse_error("Incomplete message received.")
    );
    assert_eq!(
        Message::read_body(meta, ReadOutcome::Failed(String::from("x"))),
        Err(UniClipError::IOError(String::from("x")))
    );
    assert_eq!(
        Message::read_body(meta, ReadOutcome::Elapsed),
        Err(UniClipError::TimeoutError)
    );
}

#[test]
fn new_message_is_stamped_and_measured() {
    let msg = Message::new_at(MessageKind::Text, b"abc".to_vec(), None, &options(3), Some(9));
    assert_eq!(
        msg,
        Ok(Message {
            meta: MessageMeta { len: 3, stamp: 9, kind: MessageKind::Text },
            content: b"abc".to_vec(),
        })
    );
    let msg = Message::new_at(MessageKind::Text, vec![], Some(4), &options(3), Some(9));
    assert_eq!(msg.unwrap().meta.stamp, 4);
}

#[test]
fn new_message_is_refused() {
    let msg = Message::new_at(MessageKind::Text, b"abcd".to_vec(), None, &options(3), Some(9));
    assert_eq!(msg, Err(UniClipError::MessageTooLargeError));
    // The clock is read even where a stamp is given.
    let msg = Message::new_at(MessageKind::Text, b"abcd".to_vec(), Some(1), &options(3), None);
    assert_eq!(msg, Err(UniClipError::SystemClockError));
}

#[test]
fn new_message_reads_the_clock() {
    let before = uniclip::timestamp::get_utc_now().unwrap();
    let msg = Message::new(MessageKind::Sync, vec![], None, &options(3)).unwrap();
    let after = uniclip::timestamp::get_utc_now().unwrap();
    assert!(before <= msg.meta.stamp && msg.meta.stamp <= after);
}
