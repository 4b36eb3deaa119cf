use rand::rngs::SmallRng;
use rand::SeedableRng;
use uniclip::error::{Level, Report};
use uniclip::message::{Message, MessageKind, MessageMeta, ReadOutcome, META_SIZE};
use uniclip::options::Options;
use uniclip::proto::{Command, Connection, WriteOutcome};
use uniclip::session::{
    Event, Jitter, Mode, Next, Op, Output, Point, Round, Session, Stage, Task, Window,
    TIME_RAND_RANGE,
};
use uniclip::timestamp::Readings;

const STILL: Jitter = Jitter { keep_alive: 0, sync: 0 };

fn options() -> Options {
    Options {
        allowed_time_diff: Some(30),
        keep_alive: Some(30),
        max_buffer_size: Some(1000),
        sync_interval: Some(60),
        timeout_sec: Some(3),
        clipboard_poll_freq_ms: Some(500),
        sync_on_start: Some(false),
    }
}

fn addr() -> String {
    String::from("peer:1")
}

fn at(now: u64) -> Readings {
    Readings { first: Some(now), second: Some(now), third: Some(now), fourth: Some(now) }
}

fn packet(kind: MessageKind, stamp: u64, content: &[u8]) -> Vec<u8> {
    let meta = MessageMeta { len: content.len() as u32, stamp, kind };
    Message { meta, content: content.to_vec() }.to_packet()
}

fn quiet(next: Next) -> Output {
    Output { try_write: None, report: None, next }
}

fn header(window: Window) -> Next {
    Next::Read { len: META_SIZE, secs: 3, window }
}

fn fatal(line: &str) -> Option<Report> {
    Some(Report { level: Level::Error, line: String::from(line), cancel: true })
}

fn conn(last_keep_alive: u64, last_sync: u64) -> Connection {
    Connection { initial_handshake_done: true, last_keep_alive, last_sync }
}

fn step(session: &mut Session, event: Event, now: u64) -> Output {
    assert!(session.takes(&event));
    session.step_at(event, &addr(), &options(), at(now), STILL)
}

fn received(bytes: &[u8]) -> Event {
    Event::Read(ReadOutcome::Received(bytes.to_vec()))
}

/// Gives a session that reads messages a whole packet.
fn hear(session: &mut Session, packet: &[u8], now: u64) -> Output {
    let output = step(session, received(&packet[..META_SIZE]), now);
    if packet.len() == META_SIZE {
        return output;
    }
    assert!(matches!(output.next, Next::Read { len, .. } if len == packet.len() - META_SIZE));
    step(session, received(&packet[META_SIZE..]), now)
}

fn serving(now: u64) -> Session {
    Session {
        conn: conn(now, now),
        point: Point::Running(Task::Serving, Op::Receive(Mode::Serve, Stage::Header)),
    }
}

fn waiting(now: u64) -> Session {
    Session {
        conn: conn(now, now),
        point: Point::Select(Round { now, next_sync: now + 60, next_keep_alive: now + 30 }),
    }
}

#[test]
fn connecting_side_awaits_a_handshake() {
    let (mut session, output) = Session::connected(&options());
    assert_eq!(output, quiet(header(Window::Opened(9))));
    let output = hear(&mut session, &packet(MessageKind::HandShake, 100, b""), 110);
    assert_eq!(output, quiet(Next::Proceed));
    assert_eq!(session.point, Point::Round);
    assert!(session.conn.initial_handshake_done);
}

#[test]
fn connecting_side_goes_on_without_a_handshake() {
    let (mut session, _) = Session::connected(&options());
    let output = hear(&mut session, &packet(MessageKind::HandShake, 100, b""), 131);
    assert_eq!(output, quiet(Next::Proceed));
    assert_eq!(session.point, Point::Round);
    assert!(!session.conn.initial_handshake_done);
}

#[test]
fn accepting_side_shakes_hands_first() {
    let (mut session, output) = Session::accepted();
    assert_eq!(output, quiet(Next::Proceed));
    let output = step(&mut session, Event::Proceed, 100);
    let handshake = packet(MessageKind::HandShake, 100, b"");
    assert_eq!(
        output,
        quiet(Next::Write { packet: handshake, secs: 3, window: Window::Unbounded })
    );
    let output = step(&mut session, Event::Wrote(WriteOutcome::Written), 101);
    assert_eq!(output, quiet(header(Window::Opened(9))));
    assert_eq!(session.conn.last_keep_alive, 101);
    let output = hear(&mut session, &packet(MessageKind::HandShake, 102, b""), 103);
    assert_eq!(output, quiet(Next::Proceed));
    assert_eq!(session.point, Point::Round);
}

#[test]
fn accepting_side_gives_up_without_a_handshake() {
    let (mut session, _) = Session::accepted();
    step(&mut session, Event::Proceed, 100);
    step(&mut session, Event::Wrote(WriteOutcome::Written), 101);
    let output = step(&mut session, Event::WindowElapsed, 110);
    assert_eq!(
        output,
        Output {
            try_write: None,
            report: fatal(
                "[peer:1] TimeoutError: Timed out while trying to reach the client.\n"
            ),
            next: Next::Finish,
        }
    );
    assert_eq!(session.point, Point::Finished);
    assert!(!session.takes(&Event::Proceed));
}

#[test]
fn early_message_delivers_nothing() {
    let (mut session, _) = Session::accepted();
    step(&mut session, Event::Proceed, 100);
    step(&mut session, Event::Wrote(WriteOutcome::Written), 100);
    let output = hear(&mut session, &packet(MessageKind::Text, 5, b"early"), 100);
    assert_eq!(output.next, Next::Finish);
    assert_eq!(
        output.report,
        fatal(
            "[peer:1] PacketParseError: Failed to parse the packet. \
             Details: Message received before handshake.\n"
        )
    );
}

#[test]
fn round_waits_until_something_falls_due() {
    let mut session = Session { conn: conn(100, 100), point: Point::Round };
    let output = session.step_at(
        Event::Proceed,
        &addr(),
        &options(),
        at(110),
        Jitter { keep_alive: 4, sync: 9 },
    );
    assert_eq!(output, quiet(Next::Select { sync_secs: 59, keep_alive_secs: 24 }));
    let round = Round { now: 110, next_sync: 169, next_keep_alive: 134 };
    assert_eq!(session.point, Point::Select(round));
}

#[test]
fn overdue_sync_comes_before_an_overdue_keep_alive() {
    let mut session = Session { conn: conn(0, 0), point: Point::Round };
    let output = step(&mut session, Event::Proceed, 100);
    assert_eq!(output, quiet(Next::Proceed));
    let round = Round { now: 100, next_sync: 60, next_keep_alive: 30 };
    assert_eq!(session.point, Point::StartSync(Task::OverdueSync(round)));
    let output = step(&mut session, Event::Proceed, 100);
    let request = packet(MessageKind::Sync, 100, b"");
    assert_eq!(
        output,
        quiet(Next::Write { packet: request, secs: 3, window: Window::Opened(9) })
    );
    let output = step(&mut session, Event::Wrote(WriteOutcome::Written), 100);
    assert_eq!(output, quiet(header(Window::Kept)));
    let output = hear(&mut session, &packet(MessageKind::Text, 0, b"x"), 100);
    assert_eq!(output, quiet(Next::Proceed));
    assert_eq!(session.point, Point::StartKeepAlive(Task::OverdueKeepAlive));
}

#[test]
fn overdue_sync_leads_to_the_wait() {
    let round = Round { now: 100, next_sync: 60, next_keep_alive: 130 };
    let mut session = Session {
        conn: conn(100, 100),
        point: Point::Running(
            Task::OverdueSync(round),
            Op::Receive(Mode::Answer(100), Stage::Header),
        ),
    };
    let output = hear(&mut session, &packet(MessageKind::Text, 0, b"x"), 101);
    assert_eq!(output, quiet(Next::Proceed));
    assert_eq!(session.point, Point::Round);
    let output = step(&mut session, Event::Proceed, 102);
    assert_eq!(output, quiet(Next::Select { sync_secs: 59, keep_alive_secs: 29 }));
}

#[test]
fn overdue_keep_alive_leads_to_the_wait() {
    let mut session = Session { conn: conn(60, 100), point: Point::Round };
    assert_eq!(step(&mut session, Event::Proceed, 100), quiet(Next::Proceed));
    assert_eq!(session.point, Point::StartKeepAlive(Task::OverdueKeepAlive));
    step(&mut session, Event::Proceed, 100);
    step(&mut session, Event::Wrote(WriteOutcome::Written), 101);
    let output = hear(&mut session, &packet(MessageKind::HandShake, 101, b""), 102);
    assert_eq!(output, quiet(Next::Proceed));
    let output = step(&mut session, Event::Proceed, 103);
    assert_eq!(output, quiet(Next::Select { sync_secs: 57, keep_alive_secs: 28 }));
}

#[test]
fn accepted_session_comes_to_wait() {
    let now = 1_700_000_000;
    let (mut session, _) = Session::accepted();
    step(&mut session, Event::Proceed, now);
    step(&mut session, Event::Wrote(WriteOutcome::Written), now);
    hear(&mut session, &packet(MessageKind::HandShake, now, b""), now);
    assert_eq!(step(&mut session, Event::Proceed, now), quiet(Next::Proceed));
    assert!(matches!(session.point, Point::StartSync(Task::OverdueSync(_))));
    step(&mut session, Event::Proceed, now);
    step(&mut session, Event::Wrote(WriteOutcome::Written), now);
    let output = hear(&mut session, &packet(MessageKind::Text, 7, b"hello"), now);
    assert!(matches!(output.next, Next::Deliver { .. }));
    assert_eq!(step(&mut session, Event::Delivered(Ok(())), now), quiet(Next::Proceed));
    let output = step(&mut session, Event::Proceed, now + 1);
    assert_eq!(output, quiet(Next::Select { sync_secs: 59, keep_alive_secs: 29 }));
}

#[test]
fn request_is_repeated_until_contents_come() {
    let mut session = Session {
        conn: conn(100, 100),
        point: Point::Running(Task::Serving, Op::Receive(Mode::Answer(77), Stage::Header)),
    };
    let output = hear(&mut session, &packet(MessageKind::Sync, 5, b""), 100);
    assert_eq!(
        output,
        quiet(Next::Deliver { command: Command::Sync, window: Window::Kept })
    );
    let output = step(&mut session, Event::Delivered(Ok(())), 100);
    let request = packet(MessageKind::Sync, 77, b"");
    assert_eq!(output, quiet(Next::Write { packet: request, secs: 3, window: Window::Kept }));
    step(&mut session, Event::Wrote(WriteOutcome::Written), 100);
    let output = hear(&mut session, &packet(MessageKind::Text, 6, b"yes"), 100);
    assert_eq!(
        output,
        quiet(Next::Deliver {
            command: Command::Text(6, String::from("yes")),
            window: Window::Kept,
        })
    );
    let output = step(&mut session, Event::Delivered(Ok(())), 100);
    assert_eq!(output, quiet(Next::Proceed));
    assert_eq!(session.point, Point::Round);
}

#[test]
fn text_travels_between_sessions() {
    let mut sender = waiting(100);
    let command = Command::Text(42, String::from("na\u{ef}ve"));
    let output = step(&mut sender, Event::Commanded(Ok(command)), 101);
    let Next::Write { packet, secs: 3, window: Window::Unbounded } = output.next else {
        panic!("contents are written");
    };
    let mut receiver = serving(200);
    let output = hear(&mut receiver, &packet, 201);
    assert_eq!(
        output,
        quiet(Next::Deliver {
            command: Command::Text(42, String::from("na\u{ef}ve")),
            window: Window::Unbounded,
        })
    );
    let output = step(&mut sender, Event::Wrote(WriteOutcome::Written), 102);
    assert_eq!(output, quiet(Next::Proceed));
    assert_eq!(sender.point, Point::Round);
}

#[test]
fn picture_travels_as_a_text() {
    let mut sender = waiting(100);
    let output = step(&mut sender, Event::Commanded(Ok(Command::Image(42, vec![0xff]))), 101);
    let Next::Write { packet, .. } = output.next else {
        panic!("contents are written");
    };
    let mut receiver = serving(200);
    let output = hear(&mut receiver, &packet, 201);
    assert_eq!(output.next, Next::Proceed);
    assert_eq!(
        output.report,
        fatal(
            "[peer:1] PacketParseError: Failed to parse the packet. \
             Details: Unable to decode UTF-8 text from the client.\n"
        )
    );
}

#[test]
fn keep_alive_is_answered_between_sessions() {
    let mut sender = Session { conn: conn(50, 50), point: Point::StartKeepAlive(Task::Serving) };
    let Next::Write { packet, .. } = step(&mut sender, Event::Proceed, 100).next else {
        panic!("a handshake is written");
    };
    step(&mut sender, Event::Wrote(WriteOutcome::Written), 100);
    let mut receiver = serving(100);
    let Next::Write { packet, window: Window::Unbounded, .. } =
        hear(&mut receiver, &packet, 101).next
    else {
        panic!("a handshake is answered");
    };
    let output = step(&mut receiver, Event::Wrote(WriteOutcome::Written), 101);
    assert_eq!(output, quiet(Next::Proceed));
    assert_eq!(hear(&mut sender, &packet, 102), quiet(Next::Proceed));
    assert_eq!(sender.point, Point::Round);
}

#[test]
fn cancelled_session_says_goodbye() {
    let mut sender = waiting(100);
    let output = step(&mut sender, Event::Cancelled, 105);
    let goodbye = packet(MessageKind::Disconnect, 105, b"");
    assert_eq!(
        output,
        Output { try_write: Some(goodbye.clone()), report: None, next: Next::Finish }
    );
    let mut receiver = serving(100);
    let output = hear(&mut receiver, &goodbye, 106);
    assert_eq!(
        output,
        Output {
            try_write: None,
            report: Some(Report {
                level: Level::Info,
                line: String::from("[peer:1] Client Disconnected!"),
                cancel: true,
            }),
            next: Next::Finish,
        }
    );
}

#[test]
fn error_is_told_to_the_other_side_and_refused_there() {
    let mut session = waiting(100);
    let output = step(&mut session, Event::Commanded(Err(String::from("lagged"))), 107);
    let text = "Failed to send/recv from a channel: lagged";
    let complaint = packet(MessageKind::Error, 107, text.as_bytes());
    assert_eq!(
        output,
        Output {
            try_write: Some(complaint.clone()),
            report: fatal("[peer:1] ChannelError: Failed to send/recv from a channel: lagged\n"),
            next: Next::Proceed,
        }
    );
    assert_eq!(session.point, Point::Round);
    let mut receiver = serving(100);
    let output = step(&mut receiver, received(&complaint[..META_SIZE]), 108);
    assert_eq!(
        output.report,
        fatal(
            "[peer:1] PacketParseError: Failed to parse the packet. \
             Details: Non-empty data received in control messages.\n"
        )
    );
}

#[test]
fn clipboard_does_not_ask_for_contents() {
    let mut session = waiting(100);
    let output = step(&mut session, Event::Commanded(Ok(Command::Sync)), 100);
    assert_eq!(
        output.report,
        fatal(
            "[peer:1] UnknownError: An unknown error occured! \
             Details: Received Sync command from the channel.\n"
        )
    );
}

#[test]
fn due_keep_alive_is_a_handshake() {
    let mut session = waiting(100);
    assert_eq!(step(&mut session, Event::KeepAliveDue, 130), quiet(Next::Proceed));
    assert_eq!(session.point, Point::StartKeepAlive(Task::Serving));
    let handshake = packet(MessageKind::HandShake, 130, b"");
    assert_eq!(
        step(&mut session, Event::Proceed, 130),
        quiet(Next::Write { packet: handshake, secs: 3, window: Window::Unbounded })
    );
}

#[test]
fn due_sync_is_a_request() {
    let mut session = waiting(100);
    assert_eq!(step(&mut session, Event::SyncDue, 160), quiet(Next::Proceed));
    assert_eq!(session.point, Point::StartSync(Task::Serving));
    let request = packet(MessageKind::Sync, 160, b"");
    assert_eq!(
        step(&mut session, Event::Proceed, 160),
        quiet(Next::Write { packet: request, secs: 3, window: Window::Opened(9) })
    );
}

#[test]
fn message_that_comes_by_itself_is_read() {
    let mut session = waiting(100);
    assert_eq!(step(&mut session, Event::Readable, 101), quiet(header(Window::Unbounded)));
    assert!(!session.takes(&Event::WindowElapsed));
    let output = step(&mut session, Event::Read(ReadOutcome::Received(vec![])), 101);
    assert_eq!(output.next, Next::Finish);
}

#[test]
fn unreadable_clock_is_told_without_a_packet() {
    let mut session = Session { conn: conn(100, 100), point: Point::Round };
    let none = Readings { first: None, second: None, third: None, fourth: None };
    let output = session.step_at(Event::Proceed, &addr(), &options(), none, STILL);
    assert_eq!(
        output,
        Output {
            try_write: None,
            report: fatal(
                "[peer:1] SystemClockError: \
                 Could not use System Clock. Are these clocks synced?\n"
            ),
            next: Next::Proceed,
        }
    );
}

#[test]
fn intervals_beyond_reckoning_abort() {
    let mut session = Session { conn: conn(u64::MAX, 0), point: Point::Round };
    assert_eq!(step(&mut session, Event::Proceed, 100), quiet(Next::Abort));
    let mut forever = options();
    forever.timeout_sec = Some(u64::MAX);
    let (session, output) = Session::connected(&forever);
    assert_eq!(output, quiet(Next::Abort));
    assert_eq!(session.point, Point::Finished);
}

#[test]
fn step_reads_the_clock_and_draws_numbers() {
    let mut rng = SmallRng::seed_from_u64(1);
    let mut seen = Vec::new();
    for _ in 0..50 {
        let before = uniclip::timestamp::get_utc_now().unwrap();
        let mut session = Session { conn: conn(before, before), point: Point::Round };
        let output = session.step(Event::Proceed, &addr(), &options(), &mut rng);
        let after = uniclip::timestamp::get_utc_now().unwrap();
        let Point::Select(round) = session.point else {
            panic!("nothing is overdue");
        };
        assert!(before <= round.now && round.now <= after);
        let jitter = round.next_keep_alive - before - 30;
        assert!(jitter < TIME_RAND_RANGE as u64);
        assert!(round.next_sync - before - 60 < TIME_RAND_RANGE as u64);
        assert_eq!(
            output.next,
            Next::Select {
                sync_secs: round.next_sync - round.now,
                keep_alive_secs: round.next_keep_alive - round.now,
            }
        );
        seen.push(jitter);
    }
    assert!(seen.iter().any(|jitter| *jitter != seen[0]));
}
