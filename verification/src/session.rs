//! The life of a connection, as a machine: a [`Session`] is told what came of the outside
//! work that it asked for, and answers with the next piece of work.
use vstd::prelude::*;
use vstd::string::*;
use vstd::utf8::*;

use crate::error::{
    error_text, fatal, warning, ErrorView, Level, Report, ReportView, UniClipError,
};
use crate::message::{
    body_read, header_read, packet_bytes, HeaderRead, HeaderReadView, Message, MessageKind,
    MessageMeta, MessageView, ReadOutcome, ReadOutcomeView, META_SIZE,
};
use crate::options::{get_option, Options};
use crate::proto::{
    check_delivered, check_written, delivered, expected, handled, make_packet,
    new_packet, reason_view, sent, written, Command, CommandView, Connection, Expected,
    ExpectedView, Handled, HandledView, WriteOutcome, WriteOutcomeView,
};
use crate::timestamp::{read_clock_repeatedly, stamp_from, Readings};
use crate::wire::machine_order;

verus! {

/// Intervals are lengthened by a random number of seconds below this.
pub const TIME_RAND_RANGE: u32 = 10;

/// One round of waiting: when it began, and when a sync and a keep-alive fall due.
#[derive(Debug, Clone, Copy, PartialEq, Eq, Structural)]
pub struct Round {
    pub now: u64,
    pub next_sync: u64,
    pub next_keep_alive: u64,
}

/// What the session is busy with, which decides what follows when it is done or fails.
#[derive(Debug, Clone, Copy, PartialEq, Eq, Structural)]
pub enum Task {
    /// The side that connected awaits the first handshake, whatever may come of it.
    Greeting,
    /// The side that was connected to shakes hands first.
    Opening,
    /// A sync that was overdue when the round began.
    OverdueSync(Round),
    /// A keep-alive that was overdue when the round began.
    OverdueKeepAlive,
    /// Whatever ended the wait of a round.
    Serving,
}

/// Why messages are being received.
#[derive(Debug, Clone, Copy, PartialEq, Eq, Structural)]
pub enum Mode {
    /// A handshake is awaited.
    Expect,
    /// Contents are awaited, after a request with this stamp.
    Answer(u64),
    /// A message has come by itself.
    Serve,
}

/// How far receiving a message has come.
#[derive(Debug, Clone, Copy, PartialEq, Eq, Structural)]
pub enum Stage {
    /// Its header is being read.
    Header,
    /// Its content is being read.
    Body(MessageMeta),
    /// The reply to it is being written.
    Reply,
    /// What it brings, by a message of this kind, is being handed to the clipboard.
    Deliver(MessageKind),
}

/// The outside work that is being waited for.
#[derive(Debug, Clone, Copy, PartialEq, Eq, Structural)]
pub enum Op {
    /// The handshake of a keep-alive is being written.
    Greet,
    /// A request for contents with this stamp is being written.
    Ask(u64),
    /// Contents are being written.
    Send,
    /// A message is being received.
    Receive(Mode, Stage),
}

/// Where a session stands.
#[derive(Debug, Clone, Copy, PartialEq, Eq, Structural)]
pub enum Point {
    /// At the beginning of a round.
    Round,
    /// About to ask for contents.
    StartSync(Task),
    /// About to send a keep-alive.
    StartKeepAlive(Task),
    /// Waiting for outside work.
    Running(Task, Op),
    /// Waiting for the first of several things to happen.
    Select(Round),
    /// Over.
    Finished,
}

/// A connection and where its life stands.
#[derive(Debug, Clone, Copy, PartialEq, Eq, Structural)]
pub struct Session {
    pub conn: Connection,
    pub point: Point,
}

/// What a session is told.
#[derive(Debug, PartialEq, Eq)]
pub enum Event {
    /// Nothing had to be done.
    Proceed,
    /// What came of reading.
    Read(ReadOutcome),
    /// What came of writing.
    Wrote(WriteOutcome),
    /// What came of handing a command to the clipboard: the reason, where it failed.
    Delivered(Result<(), String>),
    /// The time for the whole exchange is over.
    WindowElapsed,
    /// The connection is to be given up.
    Cancelled,
    /// A sync falls due.
    SyncDue,
    /// A keep-alive falls due.
    KeepAliveDue,
    /// The clipboard has a command, or can have no more, for the reason given.
    Commanded(Result<Command, String>),
    /// The other side has something to say.
    Readable,
}

/// The mathematical value of an [`Event`].
pub enum EventView {
    Proceed,
    Read(ReadOutcomeView),
    Wrote(WriteOutcomeView),
    Delivered(Result<(), Seq<char>>),
    WindowElapsed,
    Cancelled,
    SyncDue,
    KeepAliveDue,
    Commanded(Result<CommandView, Seq<char>>),
    Readable,
}

impl View for Event {
    type V = EventView;

    open spec fn view(&self) -> EventView {
        match *self {
            Event::Proceed => EventView::Proceed,
            Event::Read(outcome) => EventView::Read(outcome@),
            Event::Wrote(outcome) => EventView::Wrote(outcome@),
            Event::Delivered(outcome) => EventView::Delivered(reason_view(outcome)),
            Event::WindowElapsed => EventView::WindowElapsed,
            Event::Cancelled => EventView::Cancelled,
            Event::SyncDue => EventView::SyncDue,
            Event::KeepAliveDue => EventView::KeepAliveDue,
            Event::Commanded(Ok(command)) => EventView::Commanded(Ok(command@)),
            Event::Commanded(Err(reason)) => EventView::Commanded(Err(reason@)),
            Event::Readable => EventView::Readable,
        }
    }
}

/// The time that bounds a whole exchange, besides the time that bounds each piece of work.
#[derive(Debug, Clone, Copy, PartialEq, Eq, Structural)]
pub enum Window {
    /// There is none.
    Unbounded,
    /// It begins now and lasts this many seconds.
    Opened(u64),
    /// It goes on.
    Kept,
}

/// The outside work that a session asks for.
#[derive(Debug, PartialEq, Eq)]
pub enum Next {
    /// None.
    Proceed,
    /// Read this many bytes within this many seconds.
    Read { len: usize, secs: u64, window: Window },
    /// Write this packet within this many seconds.
    Write { packet: Vec<u8>, secs: u64, window: Window },
    /// Hand this command to the clipboard.
    Deliver { command: Command, window: Window },
    /// Wait until the connection is cancelled, a sync or a keep-alive falls due, the
    /// clipboard has a command, or the other side has something to say; the first of these,
    /// in this order, that has happened counts.
    Select { sync_secs: u64, keep_alive_secs: u64 },
    /// Close the connection.
    Finish,
    /// Fail: a point in time cannot be computed.
    Abort,
}

/// The mathematical value of a [`Next`].
pub enum NextView {
    Proceed,
    Read { len: usize, secs: u64, window: Window },
    Write { packet: Seq<u8>, secs: u64, window: Window },
    Deliver { command: CommandView, window: Window },
    Select { sync_secs: u64, keep_alive_secs: u64 },
    Finish,
    Abort,
}

impl View for Next {
    type V = NextView;

    open spec fn view(&self) -> NextView {
        match *self {
            Next::Proceed => NextView::Proceed,
            Next::Read { len, secs, window } => NextView::Read { len, secs, window },
            Next::Write { packet, secs, window } => NextView::Write {
                packet: packet@,
                secs,
                window,
            },
            Next::Deliver { command, window } => NextView::Deliver { command: command@, window },
            Next::Select { sync_secs, keep_alive_secs } => NextView::Select {
                sync_secs,
                keep_alive_secs,
            },
            Next::Finish => NextView::Finish,
            Next::Abort => NextView::Abort,
        }
    }
}

/// What a session answers.
#[derive(Debug, PartialEq, Eq)]
pub struct Output {
    /// A last packet to write if that is possible at once.
    pub try_write: Option<Vec<u8>>,
    /// What to report.
    pub report: Option<Report>,
    /// What to do then.
    pub next: Next,
}

/// The mathematical value of an [`Output`].
pub struct OutputView {
    pub try_write: Option<Seq<u8>>,
    pub report: Option<ReportView>,
    pub next: NextView,
}

impl View for Output {
    type V = OutputView;

    open spec fn view(&self) -> OutputView {
        OutputView {
            try_write: match self.try_write {
                Some(packet) => Some(packet@),
                None => None,
            },
            report: match self.report {
                Some(report) => Some(report@),
                None => None,
            },
            next: self.next@,
        }
    }
}

/// Which events a session takes, by where it stands.
pub open spec fn awaits(point: Point, event: EventView) -> bool {
    match point {
        Point::Round | Point::StartSync(_) | Point::StartKeepAlive(_) => event
            == EventView::Proceed,
        Point::Running(_, op) => match op {
            Op::Greet | Op::Send => event is Wrote,
            Op::Ask(_) => event is Wrote || event is WindowElapsed,
            Op::Receive(mode, stage) => {
                ||| mode != Mode::Serve && event is WindowElapsed
                ||| match stage {
                    Stage::Header | Stage::Body(_) => event is Read,
                    Stage::Reply => event is Wrote,
                    Stage::Deliver(_) => event is Delivered,
                }
            },
        },
        Point::Select(_) => {
            ||| event is Cancelled
            ||| event is SyncDue
            ||| event is KeepAliveDue
            ||| event is Commanded
            ||| event is Readable
        },
        Point::Finished => false,
    }
}

/// The session goes to `point` and asks for `next`.
pub open spec fn moved(conn: Connection, point: Point, next: NextView) -> (Session, OutputView) {
    (Session { conn, point }, OutputView { try_write: None, report: None, next })
}

/// The session waits out a round, in which nothing is overdue.
pub open spec fn waiting(conn: Connection, round: Round) -> (Session, OutputView)
    recommends
        round.now <= round.next_sync,
        round.now <= round.next_keep_alive,
{
    moved(
        conn,
        Point::Select(round),
        NextView::Select {
            sync_secs: (round.next_sync - round.now) as u64,
            keep_alive_secs: (round.next_keep_alive - round.now) as u64,
        },
    )
}

/// What follows when a task is done: a new round, unless a keep-alive was overdue besides
/// the sync that is done.
pub open spec fn completed(conn: Connection, task: Task) -> (Session, OutputView) {
    match task {
        Task::OverdueSync(round) if round.now > round.next_keep_alive => moved(
            conn,
            Point::StartKeepAlive(Task::OverdueKeepAlive),
            NextView::Proceed,
        ),
        _ => moved(conn, Point::Round, NextView::Proceed),
    }
}

/// The report of a side that left.
pub open spec fn farewell(addr: Seq<char>) -> ReportView {
    ReportView { level: Level::Info, line: "["@ + addr + "] Client Disconnected!"@, cancel: true }
}

/// The packet that tells the other side of an error, if it can be made.
pub open spec fn error_packet(e: ErrorView, o: Options, now: Option<u64>) -> Option<Seq<u8>> {
    match new_packet(
        MessageKind::Error,
        encode_utf8(error_text(e)),
        None,
        o.max_buffer_size->0,
        now,
    ) {
        Ok(packet) => Some(packet),
        Err(_) => None,
    }
}

/// What follows when a task fails. The first handshake of the side that connected may fail;
/// that of the other side may not. After that, the other side's leaving and trouble with
/// the clipboard end the session, and any other error is told to the other side and cancels
/// the connection, which the next round finds out.
pub open spec fn failed(
    conn: Connection,
    task: Task,
    e: ErrorView,
    addr: Seq<char>,
    o: Options,
    now: Option<u64>,
) -> (Session, OutputView) {
    match task {
        Task::Greeting => moved(conn, Point::Round, NextView::Proceed),
        Task::Opening => (
            Session { conn, point: Point::Finished },
            OutputView { try_write: None, report: Some(fatal(addr, e)), next: NextView::Finish },
        ),
        _ => match e {
            ErrorView::DisconnectedError => (
                Session { conn, point: Point::Finished },
                OutputView {
                    try_write: None,
                    report: Some(farewell(addr)),
                    next: NextView::Finish,
                },
            ),
            ErrorView::ClipboardError(_) => (
                Session { conn, point: Point::Finished },
                OutputView {
                    try_write: None,
                    report: Some(warning("LOCAL"@, e)),
                    next: NextView::Finish,
                },
            ),
            _ => (
                Session { conn, point: Point::Round },
                OutputView {
                    try_write: error_packet(e, o, now),
                    report: Some(fatal(addr, e)),
                    next: NextView::Proceed,
                },
            ),
        },
    }
}

/// How long a whole exchange may take: three times as long as one piece of it.
pub open spec fn window_secs(o: Options) -> Option<u64> {
    if o.timeout_sec->0 * 3 <= u64::MAX {
        Some((o.timeout_sec->0 * 3) as u64)
    } else {
        None
    }
}

/// The time that bounds an exchange that is under way.
pub open spec fn window_of(mode: Mode) -> Window {
    match mode {
        Mode::Serve => Window::Unbounded,
        _ => Window::Kept,
    }
}

/// The session reads a header.
pub open spec fn receiving(
    conn: Connection,
    task: Task,
    mode: Mode,
    window: Window,
    o: Options,
) -> (Session, OutputView) {
    moved(
        conn,
        Point::Running(task, Op::Receive(mode, Stage::Header)),
        NextView::Read { len: META_SIZE, secs: o.timeout_sec->0, window },
    )
}

/// The request for contents with a stamp.
pub open spec fn sync_packet(stamp: u64) -> Seq<u8> {
    packet_bytes(
        MessageView {
            meta: MessageMeta { len: 0, stamp, kind: MessageKind::Sync },
            content: Seq::empty(),
        },
        machine_order(),
    )
}

/// What follows when all that a message asked for is done. Who awaits a handshake reads on;
/// who awaits contents asks again, unless this was contents.
pub open spec fn after_message(
    conn: Connection,
    task: Task,
    mode: Mode,
    kind: MessageKind,
    o: Options,
) -> (Session, OutputView) {
    match mode {
        Mode::Expect => receiving(conn, task, mode, Window::Kept, o),
        Mode::Answer(stamp) => if kind == MessageKind::Text || kind == MessageKind::Image {
            completed(conn, task)
        } else {
            moved(
                conn,
                Point::Running(task, Op::Ask(stamp)),
                NextView::Write {
                    packet: sync_packet(stamp),
                    secs: o.timeout_sec->0,
                    window: Window::Kept,
                },
            )
        },
        Mode::Serve => completed(conn, task),
    }
}

/// How a message is taken, by why messages are being received.
pub open spec fn judged(conn: Connection, mode: Mode, msg: MessageView, o: Options, t: Readings) -> (
    Connection,
    Result<ExpectedView, ErrorView>,
) {
    match mode {
        Mode::Expect => expected(conn, msg, o.allowed_time_diff->0, o.max_buffer_size->0, t),
        _ => match handled(conn, msg, o.max_buffer_size->0, t) {
            (after, Ok(asked)) => (after, Ok(ExpectedView::Other(asked))),
            (after, Err(e)) => (after, Err(e)),
        },
    }
}

/// What follows when a message has come.
pub open spec fn took(
    conn: Connection,
    task: Task,
    mode: Mode,
    msg: MessageView,
    addr: Seq<char>,
    o: Options,
    t: Readings,
) -> (Session, OutputView) {
    match judged(conn, mode, msg, o, t) {
        (after, Err(e)) => failed(after, task, e, addr, o, t.fourth),
        (after, Ok(ExpectedView::HandShake)) => completed(after, task),
        (after, Ok(ExpectedView::Other(asked))) => match asked {
            HandledView::Done => after_message(after, task, mode, msg.meta.kind, o),
            HandledView::Reply(packet) => moved(
                after,
                Point::Running(task, Op::Receive(mode, Stage::Reply)),
                NextView::Write { packet, secs: o.timeout_sec->0, window: window_of(mode) },
            ),
            HandledView::Deliver(command) => moved(
                after,
                Point::Running(task, Op::Receive(mode, Stage::Deliver(msg.meta.kind))),
                NextView::Deliver { command, window: window_of(mode) },
            ),
        },
    }
}

/// What follows when a piece of receiving a message is over.
pub open spec fn received_step(
    conn: Connection,
    task: Task,
    mode: Mode,
    stage: Stage,
    event: EventView,
    addr: Seq<char>,
    o: Options,
    t: Readings,
) -> (Session, OutputView) {
    match (stage, event) {
        (_, EventView::WindowElapsed) => failed(
            conn,
            task,
            ErrorView::TimeoutError,
            addr,
            o,
            t.fourth,
        ),
        (Stage::Header, EventView::Read(outcome)) => match header_read(outcome, machine_order()) {
            Err(e) => failed(conn, task, e, addr, o, t.fourth),
            Ok(HeaderReadView::Whole(msg)) => took(conn, task, mode, msg, addr, o, t),
            Ok(HeaderReadView::Body(meta)) => moved(
                conn,
                Point::Running(task, Op::Receive(mode, Stage::Body(meta))),
                NextView::Read {
                    len: meta.len as usize,
                    secs: o.timeout_sec->0,
                    window: window_of(mode),
                },
            ),
        },
        (Stage::Body(meta), EventView::Read(outcome)) => match body_read(meta, outcome) {
            Err(e) => failed(conn, task, e, addr, o, t.fourth),
            Ok(msg) => took(conn, task, mode, msg, addr, o, t),
        },
        (Stage::Reply, EventView::Wrote(outcome)) => match written(outcome) {
            Err(e) => failed(conn, task, e, addr, o, t.fourth),
            Ok(_) => after_message(conn, task, mode, MessageKind::HandShake, o),
        },
        (Stage::Deliver(kind), EventView::Delivered(outcome)) => match delivered(outcome) {
            Err(e) => failed(conn, task, e, addr, o, t.fourth),
            Ok(_) => after_message(conn, task, mode, kind, o),
        },
        _ => arbitrary(),
    }
}

/// What follows when a piece of outside work is over.
pub open spec fn ran(
    conn: Connection,
    task: Task,
    op: Op,
    event: EventView,
    addr: Seq<char>,
    o: Options,
    t: Readings,
) -> (Session, OutputView) {
    match (op, event) {
        (Op::Receive(mode, stage), _) => received_step(
            conn,
            task,
            mode,
            stage,
            event,
            addr,
            o,
            t,
        ),
        (_, EventView::WindowElapsed) => failed(
            conn,
            task,
            ErrorView::TimeoutError,
            addr,
            o,
            t.fourth,
        ),
        (_, EventView::Wrote(outcome)) => match written(outcome) {
            Err(e) => failed(conn, task, e, addr, o, t.fourth),
            Ok(_) => match op {
                Op::Ask(stamp) => receiving(conn, task, Mode::Answer(stamp), Window::Kept, o),
                Op::Send => completed(conn, task),
                _ => match t.first {
                    None => failed(conn, task, ErrorView::SystemClockError, addr, o, t.fourth),
                    Some(last_keep_alive) => {
                        let noted = Connection { last_keep_alive, ..conn };
                        match window_secs(o) {
                            Some(secs) => receiving(
                                noted,
                                task,
                                Mode::Expect,
                                Window::Opened(secs),
                                o,
                            ),
                            None => moved(noted, Point::Finished, NextView::Abort),
                        }
                    },
                },
            },
        },
        _ => arbitrary(),
    }
}

/// When something falls due again: an interval after it last happened, and a little more.
pub open spec fn deadline(last: u64, interval: u64, jitter: u32) -> Option<u64> {
    if last + interval + jitter <= u64::MAX {
        Some((last + interval + jitter) as u64)
    } else {
        None
    }
}

/// Two random numbers, which lengthen the intervals of a round.
#[derive(Debug, Clone, Copy, PartialEq, Eq, Structural)]
pub struct Jitter {
    pub keep_alive: u32,
    pub sync: u32,
}

/// How a round begins: with what is overdue, a sync before a keep-alive, or else by waiting.
pub open spec fn began(conn: Connection, addr: Seq<char>, o: Options, t: Readings, j: Jitter) -> (
    Session,
    OutputView,
) {
    match t.first {
        None => failed(conn, Task::Serving, ErrorView::SystemClockError, addr, o, t.fourth),
        Some(now) => {
            match (
                deadline(conn.last_keep_alive, o.keep_alive->0, j.keep_alive),
                deadline(conn.last_sync, o.sync_interval->0, j.sync),
            ) {
                (Some(next_keep_alive), Some(next_sync)) => {
                    let round = Round { now, next_sync, next_keep_alive };
                    if now > next_sync {
                        moved(conn, Point::StartSync(Task::OverdueSync(round)), NextView::Proceed)
                    } else if now > next_keep_alive {
                        moved(
                            conn,
                            Point::StartKeepAlive(Task::OverdueKeepAlive),
                            NextView::Proceed,
                        )
                    } else {
                        waiting(conn, round)
                    }
                },
                _ => moved(conn, Point::Finished, NextView::Abort),
            }
        },
    }
}

/// How a request for contents starts.
pub open spec fn sync_started(
    conn: Connection,
    task: Task,
    addr: Seq<char>,
    o: Options,
    t: Readings,
) -> (Session, OutputView) {
    match sent(conn, MessageKind::Sync, Seq::empty(), None, o.max_buffer_size->0, t) {
        (after, Err(e)) => failed(after, task, e, addr, o, t.fourth),
        (after, Ok(packet)) => match window_secs(o) {
            Some(secs) => moved(
                after,
                Point::Running(task, Op::Ask(t.first->0)),
                NextView::Write { packet, secs: o.timeout_sec->0, window: Window::Opened(secs) },
            ),
            None => moved(after, Point::Finished, NextView::Abort),
        },
    }
}

/// How a keep-alive starts.
pub open spec fn keep_alive_started(
    conn: Connection,
    task: Task,
    addr: Seq<char>,
    o: Options,
    t: Readings,
) -> (Session, OutputView) {
    match new_packet(
        MessageKind::HandShake,
        Seq::empty(),
        None,
        o.max_buffer_size->0,
        t.first,
    ) {
        Err(e) => failed(conn, task, e, addr, o, t.fourth),
        Ok(packet) => moved(
            conn,
            Point::Running(task, Op::Greet),
            NextView::Write { packet, secs: o.timeout_sec->0, window: Window::Unbounded },
        ),
    }
}

/// How contents of the clipboard are sent.
pub open spec fn contents_sent(
    conn: Connection,
    content: Seq<u8>,
    stamp: u64,
    addr: Seq<char>,
    o: Options,
    t: Readings,
) -> (Session, OutputView) {
    match sent(conn, MessageKind::Text, content, Some(stamp), o.max_buffer_size->0, t) {
        (after, Err(e)) => failed(after, Task::Serving, e, addr, o, t.fourth),
        (after, Ok(packet)) => moved(
            after,
            Point::Running(Task::Serving, Op::Send),
            NextView::Write { packet, secs: o.timeout_sec->0, window: Window::Unbounded },
        ),
    }
}

/// What follows what ended the wait of a round.
pub open spec fn selected(
    conn: Connection,
    event: EventView,
    addr: Seq<char>,
    o: Options,
    t: Readings,
) -> (Session, OutputView) {
    match event {
        EventView::Cancelled => (
            Session { conn, point: Point::Finished },
            OutputView {
                try_write: match new_packet(
                    MessageKind::Disconnect,
                    Seq::empty(),
                    None,
                    o.max_buffer_size->0,
                    t.first,
                ) {
                    Ok(packet) => Some(packet),
                    Err(_) => None,
                },
                report: None,
                next: NextView::Finish,
            },
        ),
        EventView::SyncDue => moved(conn, Point::StartSync(Task::Serving), NextView::Proceed),
        EventView::KeepAliveDue => moved(
            conn,
            Point::StartKeepAlive(Task::Serving),
            NextView::Proceed,
        ),
        EventView::Commanded(Err(reason)) => failed(
            conn,
            Task::Serving,
            ErrorView::ChannelError(reason),
            addr,
            o,
            t.fourth,
        ),
        EventView::Commanded(Ok(CommandView::Sync)) => failed(
            conn,
            Task::Serving,
            ErrorView::UnknownError("Received Sync command from the channel."@),
            addr,
            o,
            t.fourth,
        ),
        EventView::Commanded(Ok(CommandView::Text(stamp, text))) => contents_sent(
            conn,
            encode_utf8(text),
            stamp,
            addr,
            o,
            t,
        ),
        EventView::Commanded(Ok(CommandView::Image(stamp, png))) => contents_sent(
            conn,
            png,
            stamp,
            addr,
            o,
            t,
        ),
        EventView::Readable => receiving(conn, Task::Serving, Mode::Serve, Window::Unbounded, o),
        _ => arbitrary(),
    }
}

/// What a session makes of an event, given the readings of the clock and the random numbers
/// that it draws.
pub open spec fn stepped(
    session: Session,
    event: EventView,
    addr: Seq<char>,
    o: Options,
    t: Readings,
    j: Jitter,
) -> (Session, OutputView) {
    match session.point {
        Point::Round => began(session.conn, addr, o, t, j),
        Point::StartSync(task) => sync_started(session.conn, task, addr, o, t),
        Point::StartKeepAlive(task) => keep_alive_started(session.conn, task, addr, o, t),
        Point::Running(task, op) => ran(session.conn, task, op, event, addr, o, t),
        Point::Select(_) => selected(session.conn, event, addr, o, t),
        Point::Finished => arbitrary(),
    }
}

/// How a session of the side that connected starts.
pub open spec fn greeting(o: Options) -> (Session, OutputView) {
    match window_secs(o) {
        Some(secs) => receiving(
            Connection::fresh(),
            Task::Greeting,
            Mode::Expect,
            Window::Opened(secs),
            o,
        ),
        None => moved(Connection::fresh(), Point::Finished, NextView::Abort),
    }
}

/// How a session of the side that was connected to starts.
pub open spec fn opening() -> (Session, OutputView) {
    moved(Connection::fresh(), Point::StartKeepAlive(Task::Opening), NextView::Proceed)
}

/// `rand::rngs::SmallRng`.
#[verifier::external_type_specification]
#[verifier::external_body]
pub struct ExSmallRng(rand::rngs::SmallRng);

/// `Rng::random_range` over the numbers from zero up to `bound`: some number below `bound`.
/// It panics where there is no such number. Which number comes is left to chance.
#[verifier::external_body]
fn draw_below(rng: &mut rand::rngs::SmallRng, bound: u32) -> (number: u32)
    requires
        bound > 0,
    ensures
        number < bound,
{
    rand::Rng::random_range(rng, 0..bound)
}

/// Draws the random numbers of a round.
fn draw_jitter(rng: &mut rand::rngs::SmallRng) -> (jitter: Jitter)
    ensures
        jitter.keep_alive < TIME_RAND_RANGE,
        jitter.sync < TIME_RAND_RANGE,
{
    let keep_alive: u32 = draw_below(rng, TIME_RAND_RANGE);
    let sync: u32 = draw_below(rng, TIME_RAND_RANGE);
    Jitter { keep_alive, sync }
}

/// When something falls due again, if that can be computed.
fn next_deadline(last: u64, interval: u64, jitter: u32) -> (due: Option<u64>)
    ensures
        due == deadline(last, interval, jitter),
{
    match last.checked_add(interval) {
        Some(due) => due.checked_add(jitter as u64),
        None => None,
    }
}

/// How long a whole exchange may take, if that can be computed.
fn window(options: &Options) -> (secs: Option<u64>)
    requires
        options.ready(),
    ensures
        secs == window_secs(*options),
{
    get_option(&options.timeout_sec).checked_mul(3)
}

/// The time that bounds an exchange that is under way.
fn window_for(mode: Mode) -> (window: Window)
    ensures
        window == window_of(mode),
{
    match mode {
        Mode::Serve => Window::Unbounded,
        _ => Window::Kept,
    }
}

impl Session {
    /// The session of the side that connected: it awaits the first handshake.
    pub fn connected(options: &Options) -> (started: (Session, Output))
        requires
            options.ready(),
        ensures
            (started.0, started.1@) == greeting(*options),
    {
        let mut session = Session { conn: Connection::new(), point: Point::Round };
        let output = match window(options) {
            Some(secs) => session.receive(
                Task::Greeting,
                Mode::Expect,
                Window::Opened(secs),
                options,
            ),
            None => session.go(Point::Finished, Next::Abort),
        };
        (session, output)
    }

    /// The session of the side that was connected to: it shakes hands first.
    pub fn accepted() -> (started: (Session, Output))
        ensures
            (started.0, started.1@) == opening(),
    {
        let mut session = Session { conn: Connection::new(), point: Point::Round };
        let output = session.go(Point::StartKeepAlive(Task::Opening), Next::Proceed);
        (session, output)
    }

    /// Whether the session takes the event where it stands.
    pub fn takes(&self, event: &Event) -> (takes: bool)
        ensures
            takes == awaits(self.point, event@),
    {
        match self.point {
            Point::Round | Point::StartSync(_) | Point::StartKeepAlive(_) => matches!(
                event,
                Event::Proceed
            ),
            Point::Running(_, op) => match op {
                Op::Greet | Op::Send => matches!(event, Event::Wrote(_)),
                Op::Ask(_) => matches!(event, Event::Wrote(_) | Event::WindowElapsed),
                Op::Receive(mode, stage) => {
                    if mode != Mode::Serve && matches!(event, Event::WindowElapsed) {
                        return true;
                    }
                    match stage {
                        Stage::Header | Stage::Body(_) => matches!(event, Event::Read(_)),
                        Stage::Reply => matches!(event, Event::Wrote(_)),
                        Stage::Deliver(_) => matches!(event, Event::Delivered(_)),
                    }
                },
            },
            Point::Select(_) => matches!(
                event,
                Event::Cancelled | Event::SyncDue | Event::KeepAliveDue | Event::Commanded(_)
                    | Event::Readable
            ),
            Point::Finished => false,
        }
    }

    fn go(&mut self, point: Point, next: Next) -> (output: Output)
        ensures
            (*final(self), output@) == moved(old(self).conn, point, next@),
    {
        self.point = point;
        Output { try_write: None, report: None, next }
    }

    fn wait_out(&mut self, round: Round) -> (output: Output)
        requires
            round.now <= round.next_sync,
            round.now <= round.next_keep_alive,
        ensures
            (*final(self), output@) == waiting(old(self).conn, round),
    {
        let sync_secs: u64 = round.next_sync - round.now;
        let keep_alive_secs: u64 = round.next_keep_alive - round.now;
        self.go(Point::Select(round), Next::Select { sync_secs, keep_alive_secs })
    }

    fn complete(&mut self, task: Task) -> (output: Output)
        ensures
            (*final(self), output@) == completed(old(self).conn, task),
    {
        if let Task::OverdueSync(round) = task {
            if round.now > round.next_keep_alive {
                return self.go(Point::StartKeepAlive(Task::OverdueKeepAlive), Next::Proceed);
            }
        }
        self.go(Point::Round, Next::Proceed)
    }

    fn fail(
        &mut self,
        task: Task,
        e: UniClipError,
        addr: &String,
        options: &Options,
        now: Option<u64>,
    ) -> (output: Output)
        requires
            options.ready(),
        ensures
            (*final(self), output@) == failed(old(self).conn, task, e@, addr@, *options, now),
    {
        match task {
            Task::Greeting => return self.go(Point::Round, Next::Proceed),
            Task::Opening => {
                self.point = Point::Finished;
                return Output {
                    try_write: None,
                    report: Some(e.panic(addr)),
                    next: Next::Finish,
                };
            },
            _ => (),
        }
        match e {
            UniClipError::DisconnectedError => {
                let mut line = "[".to_owned();
                line.append(addr.as_str());
                line.append("] Client Disconnected!");
                self.point = Point::Finished;
                Output {
                    try_write: None,
                    report: Some(Report { level: Level::Info, line, cancel: true }),
                    next: Next::Finish,
                }
            },
            UniClipError::ClipboardError(_) => {
                self.point = Point::Finished;
                Output {
                    try_write: None,
                    report: Some(e.report(&"LOCAL".to_owned())),
                    next: Next::Finish,
                }
            },
            _ => {
                let content = e.to_string().as_str().as_bytes_vec();
                let try_write = match make_packet(
                    MessageKind::Error,
                    content,
                    None,
                    options,
                    now,
                ) {
                    Ok(packet) => Some(packet),
                    Err(_) => None,
                };
                self.point = Point::Round;
                Output { try_write, report: Some(e.panic(addr)), next: Next::Proceed }
            },
        }
    }

    fn receive(&mut self, task: Task, mode: Mode, window: Window, options: &Options) -> (output:
        Output)
        requires
            options.ready(),
        ensures
            (*final(self), output@) == receiving(old(self).conn, task, mode, window, *options),
    {
        let secs: u64 = get_option(&options.timeout_sec);
        self.go(
            Point::Running(task, Op::Receive(mode, Stage::Header)),
            Next::Read { len: META_SIZE, secs, window },
        )
    }

    fn finish_message(&mut self, task: Task, mode: Mode, kind: MessageKind, options: &Options) -> (
        output: Output)
        requires
            options.ready(),
        ensures
            (*final(self), output@) == after_message(old(self).conn, task, mode, kind, *options),
    {
        match mode {
            Mode::Expect => self.receive(task, mode, Window::Kept, options),
            Mode::Answer(stamp) => if kind == MessageKind::Text || kind == MessageKind::Image {
                self.complete(task)
            } else {
                let content: Vec<u8> = Vec::new();
                let meta = MessageMeta { len: 0, stamp, kind: MessageKind::Sync };
                let packet = Message { meta, content }.to_packet();
                let secs: u64 = get_option(&options.timeout_sec);
                self.go(
                    Point::Running(task, Op::Ask(stamp)),
                    Next::Write { packet, secs, window: Window::Kept },
                )
            },
            Mode::Serve => self.complete(task),
        }
    }

    fn take_message(
        &mut self,
        task: Task,
        mode: Mode,
        msg: Message,
        addr: &String,
        options: &Options,
        t: Readings,
    ) -> (output: Output)
        requires
            options.ready(),
        ensures
            (*final(self), output@) == took(old(self).conn, task, mode, msg@, addr@, *options, t),
    {
        let kind = msg.meta.kind;
        let judgement = match mode {
            Mode::Expect => self.conn.expect_handshake(msg, options, t),
            _ => match self.conn.handle_msg(msg, options, t) {
                Ok(asked) => Ok(Expected::Other(asked)),
                Err(e) => Err(e),
            },
        };
        match judgement {
            Err(e) => self.fail(task, e, addr, options, t.fourth),
            Ok(Expected::HandShake) => self.complete(task),
            Ok(Expected::Other(Handled::Done)) => self.finish_message(task, mode, kind, options),
            Ok(Expected::Other(Handled::Reply(packet))) => {
                let secs: u64 = get_option(&options.timeout_sec);
                self.go(
                    Point::Running(task, Op::Receive(mode, Stage::Reply)),
                    Next::Write { packet, secs, window: window_for(mode) },
                )
            },
            Ok(Expected::Other(Handled::Deliver(command))) => self.go(
                Point::Running(task, Op::Receive(mode, Stage::Deliver(kind))),
                Next::Deliver { command, window: window_for(mode) },
            ),
        }
    }

    fn receive_step(
        &mut self,
        task: Task,
        mode: Mode,
        stage: Stage,
        event: Event,
        addr: &String,
        options: &Options,
        t: Readings,
    ) -> (output: Output)
        requires
            options.ready(),
            awaits(Point::Running(task, Op::Receive(mode, stage)), event@),
        ensures
            (*final(self), output@) == received_step(
                old(self).conn,
                task,
                mode,
                stage,
                event@,
                addr@,
                *options,
                t,
            ),
    {
        match event {
            Event::Read(outcome) => match stage {
                Stage::Body(meta) => match Message::read_body(meta, outcome) {
                    Err(e) => self.fail(task, e, addr, options, t.fourth),
                    Ok(msg) => self.take_message(task, mode, msg, addr, options, t),
                },
                _ => match Message::read_header(outcome) {
                    Err(e) => self.fail(task, e, addr, options, t.fourth),
                    Ok(HeaderRead::Whole(msg)) => self.take_message(
                        task,
                        mode,
                        msg,
                        addr,
                        options,
                        t,
                    ),
                    Ok(HeaderRead::Body(meta)) => {
                        let secs: u64 = get_option(&options.timeout_sec);
                        let len: usize = meta.len as usize;
                        self.go(
                            Point::Running(task, Op::Receive(mode, Stage::Body(meta))),
                            Next::Read { len, secs, window: window_for(mode) },
                        )
                    },
                },
            },
            Event::Wrote(outcome) => match check_written(outcome) {
                Err(e) => self.fail(task, e, addr, options, t.fourth),
                Ok(_) => self.finish_message(task, mode, MessageKind::HandShake, options),
            },
            Event::Delivered(outcome) => {
                let kind = match stage {
                    Stage::Deliver(kind) => kind,
                    _ => MessageKind::HandShake,
                };
                match check_delivered(outcome) {
                    Err(e) => self.fail(task, e, addr, options, t.fourth),
                    Ok(_) => self.finish_message(task, mode, kind, options),
                }
            },
            _ => self.fail(task, UniClipError::TimeoutError, addr, options, t.fourth),
        }
    }

    fn run(
        &mut self,
        task: Task,
        op: Op,
        event: Event,
        addr: &String,
        options: &Options,
        t: Readings,
    ) -> (output: Output)
        requires
            options.ready(),
            awaits(Point::Running(task, op), event@),
        ensures
            (*final(self), output@) == ran(
                old(self).conn,
                task,
                op,
                event@,
                addr@,
                *options,
                t,
            ),
    {
        if let Op::Receive(mode, stage) = op {
            return self.receive_step(task, mode, stage, event, addr, options, t);
        }
        let result = match event {
            Event::Wrote(outcome) => check_written(outcome),
            _ => Err(UniClipError::TimeoutError),
        };
        if let Err(e) = result {
            return self.fail(task, e, addr, options, t.fourth);
        }
        match op {
            Op::Ask(stamp) => self.receive(task, Mode::Answer(stamp), Window::Kept, options),
            Op::Send => self.complete(task),
            _ => match self.conn.keep_alive(t.first) {
                Err(e) => self.fail(task, e, addr, options, t.fourth),
                Ok(_) => match window(options) {
                    Some(secs) => self.receive(
                        task,
                        Mode::Expect,
                        Window::Opened(secs),
                        options,
                    ),
                    None => self.go(Point::Finished, Next::Abort),
                },
            },
        }
    }

    fn begin_round(&mut self, addr: &String, options: &Options, t: Readings, jitter: Jitter) -> (
        output: Output)
        requires
            options.ready(),
        ensures
            (*final(self), output@) == began(old(self).conn, addr@, *options, t, jitter),
    {
        let now: u64 = match stamp_from(t.first) {
            Ok(now) => now,
            Err(e) => return self.fail(Task::Serving, e, addr, options, t.fourth),
        };
        let next_keep_alive = next_deadline(
            self.conn.last_keep_alive,
            get_option(&options.keep_alive),
            jitter.keep_alive,
        );
        let next_sync = next_deadline(
            self.conn.last_sync,
            get_option(&options.sync_interval),
            jitter.sync,
        );
        match (next_keep_alive, next_sync) {
            (Some(next_keep_alive), Some(next_sync)) => {
                let round = Round { now, next_sync, next_keep_alive };
                if now > next_sync {
                    self.go(Point::StartSync(Task::OverdueSync(round)), Next::Proceed)
                } else if now > next_keep_alive {
                    self.go(Point::StartKeepAlive(Task::OverdueKeepAlive), Next::Proceed)
                } else {
                    self.wait_out(round)
                }
            },
            _ => self.go(Point::Finished, Next::Abort),
        }
    }

    fn start_sync(&mut self, task: Task, addr: &String, options: &Options, t: Readings) -> (output:
        Output)
        requires
            options.ready(),
        ensures
            (*final(self), output@) == sync_started(old(self).conn, task, addr@, *options, t),
    {
        let packet = match self.conn.req_sync(options, t) {
            Ok(packet) => packet,
            Err(e) => return self.fail(task, e, addr, options, t.fourth),
        };
        let stamp: u64 = match t.first {
            Some(stamp) => stamp,
            None => 0,
        };
        match window(options) {
            Some(secs) => {
                let limit: u64 = get_option(&options.timeout_sec);
                self.go(
                    Point::Running(task, Op::Ask(stamp)),
                    Next::Write { packet, secs: limit, window: Window::Opened(secs) },
                )
            },
            None => self.go(Point::Finished, Next::Abort),
        }
    }

    fn start_keep_alive(&mut self, task: Task, addr: &String, options: &Options, t: Readings) -> (
        output: Output)
        requires
            options.ready(),
        ensures
            (*final(self), output@) == keep_alive_started(
                old(self).conn,
                task,
                addr@,
                *options,
                t,
            ),
    {
        match Connection::send_handshake(options, t.first) {
            Err(e) => self.fail(task, e, addr, options, t.fourth),
            Ok(packet) => {
                let secs: u64 = get_option(&options.timeout_sec);
                self.go(
                    Point::Running(task, Op::Greet),
                    Next::Write { packet, secs, window: Window::Unbounded },
                )
            },
        }
    }

    fn send_contents(
        &mut self,
        packet: Result<Vec<u8>, UniClipError>,
        addr: &String,
        options: &Options,
        t: Readings,
    ) -> (output: Output)
        requires
            options.ready(),
        ensures
            (*final(self), output@) == match packet {
                Err(e) => failed(old(self).conn, Task::Serving, e@, addr@, *options, t.fourth),
                Ok(packet) => moved(
                    old(self).conn,
                    Point::Running(Task::Serving, Op::Send),
                    NextView::Write {
                        packet: packet@,
                        secs: options.timeout_sec->0,
                        window: Window::Unbounded,
                    },
                ),
            },
    {
        match packet {
            Err(e) => self.fail(Task::Serving, e, addr, options, t.fourth),
            Ok(packet) => {
                let secs: u64 = get_option(&options.timeout_sec);
                self.go(
                    Point::Running(Task::Serving, Op::Send),
                    Next::Write { packet, secs, window: Window::Unbounded },
                )
            },
        }
    }

    fn select(&mut self, event: Event, addr: &String, options: &Options, t: Readings) -> (output:
        Output)
        requires
            options.ready(),
            old(self).point is Select,
            awaits(old(self).point, event@),
        ensures
            (*final(self), output@) == selected(old(self).conn, event@, addr@, *options, t),
    {
        match event {
            Event::Cancelled => {
                let try_write = match make_packet(
                    MessageKind::Disconnect,
                    Vec::new(),
                    None,
                    options,
                    t.first,
                ) {
                    Ok(packet) => Some(packet),
                    Err(_) => None,
                };
                self.point = Point::Finished;
                Output { try_write, report: None, next: Next::Finish }
            },
            Event::SyncDue => self.go(Point::StartSync(Task::Serving), Next::Proceed),
            Event::KeepAliveDue => self.go(Point::StartKeepAlive(Task::Serving), Next::Proceed),
            Event::Commanded(Err(reason)) => self.fail(
                Task::Serving,
                UniClipError::ChannelError(reason),
                addr,
                options,
                t.fourth,
            ),
            Event::Commanded(Ok(Command::Sync)) => self.fail(
                Task::Serving,
                UniClipError::UnknownError("Received Sync command from the channel.".to_owned()),
                addr,
                options,
                t.fourth,
            ),
            Event::Commanded(Ok(Command::Text(stamp, text))) => {
                let packet = self.conn.send_text(&text, stamp, options, t);
                self.send_contents(packet, addr, options, t)
            },
            Event::Commanded(Ok(Command::Image(stamp, png))) => {
                let packet = self.conn.send_image(png, stamp, options, t);
                self.send_contents(packet, addr, options, t)
            },
            _ => self.receive(Task::Serving, Mode::Serve, Window::Unbounded, options),
        }
    }

    /// What the session makes of an event, given readings of the clock and the random
    /// numbers of the round.
    pub fn step_at(
        &mut self,
        event: Event,
        addr: &String,
        options: &Options,
        t: Readings,
        jitter: Jitter,
    ) -> (output: Output)
        requires
            options.ready(),
            awaits(old(self).point, event@),
        ensures
            (*final(self), output@) == stepped(*old(self), event@, addr@, *options, t, jitter),
    {
        match self.point {
            Point::Round => self.begin_round(addr, options, t, jitter),
            Point::StartSync(task) => self.start_sync(task, addr, options, t),
            Point::StartKeepAlive(task) => self.start_keep_alive(task, addr, options, t),
            Point::Running(task, op) => self.run(task, op, event, addr, options, t),
            _ => self.select(event, addr, options, t),
        }
    }

    /// What the session makes of an event. It reads the clock, and at the beginning of a
    /// round it draws random numbers.
    pub fn step(
        &mut self,
        event: Event,
        addr: &String,
        options: &Options,
        rng: &mut rand::rngs::SmallRng,
    ) -> (output: Output)
        requires
            options.ready(),
            awaits(old(self).point, event@),
        ensures
            exists|t: Readings, j: Jitter|
                {
                    &&& t.taken()
                    &&& j.keep_alive < TIME_RAND_RANGE && j.sync < TIME_RAND_RANGE
                    &&& (*final(self), output@) == #[trigger] stepped(
                        *old(self),
                        event@,
                        addr@,
                        *options,
                        t,
                        j,
                    )
                },
    {
        let jitter = match self.point {
            Point::Round => draw_jitter(rng),
            _ => Jitter { keep_alive: 0, sync: 0 },
        };
        let t = read_clock_repeatedly();
        self.step_at(event, addr, options, t, jitter)
    }
}

} // verus!
