use uniclip::clipboard::{Clipboard, ClipboardContext, ClipboardState};
use uniclip::error::{ClipboardFault, Level, Report, UniClipError};
use uniclip::listener::{Act, ClipboardListener, Phase, Reaction, Signal};
use uniclip::message::{Message, MessageKind, MessageMeta, ReadOutcome, META_SIZE};
use uniclip::options::Options;
use uniclip::picture::{encode_as_png, ImageData};
use uniclip::proto::{Command, Connection};
use uniclip::session::{Event, Jitter, Mode, Next, Op, Point, Round, Session, Stage, Task};
use uniclip::timestamp::Readings;

fn options() -> Options {
    Options {
        allowed_time_diff: Some(30),
        keep_alive: Some(30),
        max_buffer_size: Some(1000),
        sync_interval: Some(60),
        timeout_sec: Some(3),
        clipboard_poll_freq_ms: Some(500),
        sync_on_start: Some(false),
    }
}

fn knowing(text: &str, stamp: u64, phase: Phase) -> ClipboardListener {
    let state = ClipboardState::Text(String::from(text));
    let hash = state.digest();
    ClipboardListener {
        clipboard: Clipboard { ctx: ClipboardContext { hash, state, stamp } },
        phase,
    }
}

fn hear(listener: &mut ClipboardListener, signal: Signal, now: Option<u64>) -> Reaction {
    assert!(listener.takes(&signal));
    listener.listen_at(signal, &options(), now)
}

fn quiet(act: Act) -> Reaction {
    Reaction { report: None, act }
}

fn rest() -> Reaction {
    quiet(Act::Wait { ms: 500 })
}

fn fatal(line: &str) -> Reaction {
    Reaction {
        report: Some(Report { level: Level::Error, line: String::from(line), cancel: true }),
        act: Act::Stop,
    }
}

fn brought(stamp: u64, text: &str) -> Signal {
    Signal::Commanded(Some(Command::Text(stamp, String::from(text))))
}

fn read(text: &str) -> Signal {
    Signal::Text(Ok(String::from(text)))
}

#[test]
fn listener_starts_with_the_local_contents() {
    let (mut listener, reaction) = ClipboardListener::new(Ok(()), &options()).unwrap();
    assert_eq!(reaction, quiet(Act::ReadText));
    assert_eq!(hear(&mut listener, read("here"), Some(7)), rest());
    assert_eq!(listener, knowing("here", 7, Phase::Idle));
}

#[test]
fn listener_starts_with_the_contents_of_the_other_side() {
    let mut waiting = options();
    waiting.sync_on_start = Some(true);
    let (mut listener, reaction) = ClipboardListener::new(Ok(()), &waiting).unwrap();
    assert_eq!(reaction, rest());
    assert_eq!(listener.clipboard, Clipboard::new());
    assert_eq!(hear(&mut listener, Signal::Poll, Some(7)), rest());
    assert_eq!(
        hear(&mut listener, Signal::Commanded(Some(Command::Sync)), Some(8)),
        quiet(Act::Broadcast(Command::Text(0, String::new())))
    );
    assert_eq!(hear(&mut listener, Signal::Sent(Ok(())), Some(8)), rest());
    assert_eq!(
        hear(&mut listener, brought(1, "there"), Some(9)),
        quiet(Act::WriteText(String::from("there")))
    );
    assert_eq!(listener, knowing("there", 9, Phase::Writing));
}

#[test]
fn answer_of_a_blank_clipboard_is_not_taken() {
    let mut conn = Connection::new();
    let meta = MessageMeta { len: 0, stamp: 0, kind: MessageKind::Text };
    let t = Readings { first: Some(1), second: Some(1), third: Some(1), fourth: Some(1) };
    let asked = conn.handle_msg(Message { meta, content: vec![] }, &options(), t);
    assert_eq!(asked, Ok(uniclip::proto::Handled::Done));
}

#[test]
fn listener_without_a_clipboard() {
    assert_eq!(
        ClipboardListener::new(Err(ClipboardFault::ClipboardNotSupported), &options()),
        Err(UniClipError::ClipboardError(ClipboardFault::ClipboardNotSupported))
    );
}

#[test]
fn start_is_tried_again() {
    for fault in [
        ClipboardFault::ContentNotAvailable,
        ClipboardFault::ClipboardOccupied,
        ClipboardFault::ConversionFailure,
    ] {
        let e = UniClipError::ClipboardError(fault);
        assert_eq!(
            ClipboardListener::cannot_start(e, &options()),
            quiet(Act::Retry { ms: 500 })
        );
    }
    let (mut listener, _) = ClipboardListener::new(Ok(()), &options()).unwrap();
    assert_eq!(
        hear(&mut listener, Signal::Text(Err(ClipboardFault::ContentNotAvailable)), Some(1)),
        quiet(Act::ReadImage)
    );
    assert_eq!(
        hear(&mut listener, Signal::Image(Err(ClipboardFault::ContentNotAvailable)), Some(1)),
        quiet(Act::Retry { ms: 500 })
    );
    assert_eq!(listener.phase, Phase::Stopped);
}

#[test]
fn start_fails() {
    let clock = "[LOCAL] SystemClockError: \
                 Could not use System Clock. Are these clocks synced?\n";
    assert_eq!(
        ClipboardListener::cannot_start(UniClipError::SystemClockError, &options()),
        fatal(clock)
    );
    let (mut listener, _) = ClipboardListener::new(Ok(()), &options()).unwrap();
    assert_eq!(hear(&mut listener, read("here"), None), fatal(clock));
    assert_eq!(listener.phase, Phase::Stopped);
}

#[test]
fn handle_error_tells_passing_trouble_from_other() {
    let line = "[LOCAL] ClipboardError: System clipboard is not available. Details: \
                The native clipboard is not accessible due to being held by another party.\n";
    assert_eq!(
        ClipboardListener::handle_error(UniClipError::ClipboardError(
            ClipboardFault::ClipboardOccupied
        )),
        (Report { level: Level::Warn, line: String::from(line), cancel: false }, true)
    );
    let (report, goes_on) = ClipboardListener::handle_error(UniClipError::TimeoutError);
    assert!(report.cancel && report.level == Level::Error && !goes_on);
    for fault in [
        ClipboardFault::ClipboardNotSupported,
        ClipboardFault::Unknown { description: String::from("odd") },
    ] {
        let e = UniClipError::ClipboardError(fault);
        assert!(!ClipboardListener::handle_error(e).1);
    }
}

#[test]
fn new_text_is_told_once() {
    let mut listener = knowing("old", 5, Phase::Idle);
    assert_eq!(hear(&mut listener, Signal::Poll, Some(10)), quiet(Act::ReadText));
    assert_eq!(
        hear(&mut listener, read("new"), Some(10)),
        quiet(Act::Broadcast(Command::Text(10, String::from("new"))))
    );
    assert_eq!(hear(&mut listener, Signal::Sent(Ok(())), Some(10)), rest());
    assert_eq!(hear(&mut listener, Signal::Poll, Some(11)), quiet(Act::ReadText));
    assert_eq!(hear(&mut listener, read("new"), Some(11)), rest());
    assert_eq!(listener, knowing("new", 10, Phase::Idle));
}

#[test]
fn new_picture_is_told() {
    let image = || ImageData { width: 1, height: 1, bytes: vec![1, 2, 3, 4] };
    let png = encode_as_png(&image()).unwrap();
    let mut listener = knowing("old", 5, Phase::PollText);
    assert_eq!(
        hear(&mut listener, Signal::Text(Err(ClipboardFault::ConversionFailure)), Some(9)),
        quiet(Act::ReadImage)
    );
    assert_eq!(
        hear(&mut listener, Signal::Image(Ok(image())), Some(10)),
        quiet(Act::Broadcast(Command::Image(10, png)))
    );
    hear(&mut listener, Signal::Sent(Ok(())), Some(10));
    listener.phase = Phase::PollImage;
    assert_eq!(hear(&mut listener, Signal::Image(Ok(image())), Some(11)), rest());
}

#[test]
fn picture_must_be_coherent() {
    let listener = knowing("old", 5, Phase::PollImage);
    let image = ImageData { width: 2, height: 1, bytes: vec![1, 2, 3, 4] };
    assert!(!listener.takes(&Signal::Image(Ok(image))));
}

#[test]
fn blank_picture_is_passing_trouble() {
    let mut listener = knowing("old", 5, Phase::PollImage);
    let image = ImageData { width: 0, height: 0, bytes: vec![] };
    let reaction = hear(&mut listener, Signal::Image(Ok(image)), Some(10));
    assert_eq!(reaction.act, Act::Wait { ms: 500 });
    assert_eq!(reaction.report.unwrap().level, Level::Warn);
    assert_eq!(listener, knowing("old", 5, Phase::Idle));
}

#[test]
fn brought_text_is_written_and_not_sent_back() {
    let mut listener = knowing("old", 5, Phase::Idle);
    assert_eq!(
        hear(&mut listener, brought(6, "new"), Some(100)),
        quiet(Act::WriteText(String::from("new")))
    );
    assert_eq!(hear(&mut listener, Signal::Written(Ok(())), Some(100)), rest());
    hear(&mut listener, Signal::Poll, Some(101));
    assert_eq!(hear(&mut listener, read("new"), Some(101)), rest());
}

#[test]
fn stale_or_known_text_is_ignored() {
    let mut listener = knowing("old", 5, Phase::Idle);
    assert_eq!(hear(&mut listener, brought(5, "new"), Some(100)), rest());
    assert_eq!(hear(&mut listener, brought(9, "old"), Some(100)), rest());
    assert_eq!(listener, knowing("old", 5, Phase::Idle));
}

#[test]
fn brought_picture_is_written() {
    let image = ImageData { width: 1, height: 1, bytes: vec![1, 2, 3, 4] };
    let png = encode_as_png(&image).unwrap();
    let mut listener = knowing("old", 5, Phase::Idle);
    assert_eq!(
        hear(&mut listener, Signal::Commanded(Some(Command::Image(6, png))), Some(100)),
        quiet(Act::WriteImage(image))
    );
    assert_eq!(listener.phase, Phase::Writing);
}

#[test]
fn brought_file_that_is_no_picture_is_passing_trouble() {
    let mut listener = knowing("old", 5, Phase::Idle);
    let reaction =
        hear(&mut listener, Signal::Commanded(Some(Command::Image(6, vec![1]))), Some(100));
    assert_eq!(reaction.act, Act::Wait { ms: 500 });
    assert!(!reaction.report.unwrap().cancel);
    assert_eq!(listener.clipboard.ctx.state, ClipboardState::Image(vec![1]));
}

#[test]
fn request_is_answered_with_what_is_known() {
    let mut listener = knowing("here", 5, Phase::Idle);
    assert_eq!(
        hear(&mut listener, Signal::Commanded(Some(Command::Sync)), Some(9)),
        quiet(Act::Broadcast(Command::Text(5, String::from("here"))))
    );
}

#[test]
fn broken_channels_stop_the_listener() {
    let mut listener = knowing("old", 5, Phase::Idle);
    assert_eq!(
        hear(&mut listener, Signal::Commanded(None), Some(9)),
        fatal(
            "[LOCAL] ChannelError: Failed to send/recv from a channel: \
             The channel for receiving commands has been closed.\n"
        )
    );
    assert!(!listener.takes(&Signal::Poll));
    let mut listener = knowing("old", 5, Phase::Sending);
    assert_eq!(
        hear(&mut listener, Signal::Sent(Err(String::from("channel closed"))), Some(9)),
        fatal(
            "[LOCAL] ChannelError: Failed to send/recv from a channel: channel closed\n"
        )
    );
    assert_eq!(listener.phase, Phase::Stopped);
}

#[test]
fn trouble_with_the_clipboard() {
    let mut listener = knowing("old", 5, Phase::PollText);
    let reaction =
        hear(&mut listener, Signal::Text(Err(ClipboardFault::ClipboardOccupied)), Some(9));
    assert_eq!(reaction.act, Act::Wait { ms: 500 });
    assert_eq!(reaction.report.unwrap().level, Level::Warn);
    let mut listener = knowing("old", 5, Phase::Writing);
    let unknown = ClipboardFault::Unknown { description: String::from("odd") };
    let reaction = hear(&mut listener, Signal::Written(Err(unknown)), Some(9));
    assert_eq!(reaction.act, Act::Stop);
    let mut listener = knowing("old", 5, Phase::Idle);
    let reaction = hear(&mut listener, brought(6, "new"), None);
    assert_eq!(reaction.act, Act::Stop);
}

#[test]
fn listen_reads_the_clock() {
    let before = uniclip::timestamp::get_utc_now().unwrap();
    let mut listener = knowing("old", 5, Phase::PollText);
    let reaction = listener.listen(read("new"), &options());
    let after = uniclip::timestamp::get_utc_now().unwrap();
    let stamp = listener.clipboard.ctx.stamp;
    assert!(before <= stamp && stamp <= after);
    assert_eq!(reaction, quiet(Act::Broadcast(Command::Text(stamp, String::from("new")))));
}

#[test]
fn copied_text_reaches_the_other_clipboard() {
    let addr = String::from("peer:1");
    let t = Readings { first: Some(20), second: Some(20), third: Some(20), fourth: Some(20) };
    let still = Jitter { keep_alive: 0, sync: 0 };
    let conn = Connection { initial_handshake_done: true, last_keep_alive: 20, last_sync: 20 };

    let mut near = knowing("old", 5, Phase::PollText);
    let Act::Broadcast(command) = hear(&mut near, read("shared"), Some(20)).act else {
        panic!("the connections are told");
    };
    let round = Round { now: 20, next_sync: 80, next_keep_alive: 50 };
    let mut sender = Session { conn, point: Point::Select(round) };
    let output = sender.step_at(Event::Commanded(Ok(command)), &addr, &options(), t, still);
    let Next::Write { packet, .. } = output.next else {
        panic!("a packet is sent");
    };
    let mut receiver = Session {
        conn,
        point: Point::Running(Task::Serving, Op::Receive(Mode::Serve, Stage::Header)),
    };
    let head = Event::Read(ReadOutcome::Received(packet[..META_SIZE].to_vec()));
    receiver.step_at(head, &addr, &options(), t, still);
    let rest = Event::Read(ReadOutcome::Received(packet[META_SIZE..].to_vec()));
    let Next::Deliver { command, .. } =
        receiver.step_at(rest, &addr, &options(), t, still).next
    else {
        panic!("the text is handed over");
    };
    let mut far = knowing("other", 19, Phase::Idle);
    assert_eq!(
        hear(&mut far, Signal::Commanded(Some(command)), Some(21)),
        quiet(Act::WriteText(String::from("shared")))
    );
    assert_eq!(near.clipboard.ctx.state, far.clipboard.ctx.state);
}
