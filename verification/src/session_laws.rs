//! What holds of every session, and of two sessions that talk to each other.
use vstd::prelude::*;
use vstd::utf8::*;

use crate::error::{error_text, fatal, warning, ErrorView, Level, ReportView};
use crate::message::{
    body_read, control_content_is_refused, header_read, meta_bytes, new_message, new_message_length,
    packet_bytes, packet_round_trip, HeaderReadView, MessageKind, MessageMeta, MessageView,
    ReadOutcomeView, META_SIZE,
};
use crate::options::Options;
use crate::proto::{
    bare_packet, delivered, expected, handled, new_packet, sent, time_between, written,
    CommandView, Connection, ExpectedView, HandledView, WriteOutcomeView,
};
use crate::session::{
    after_message, awaits, began, completed, contents_sent, deadline, error_packet, failed,
    farewell, greeting, judged, keep_alive_started, opening, ran, received_step, receiving, selected,
    stepped, sync_packet, sync_started, took, window_of, window_secs, EventView, Jitter, Mode,
    NextView, Op, OutputView, Point, Round, Session, Stage, Task, Window,
    TIME_RAND_RANGE,
};
use crate::timestamp::Readings;
use crate::wire::machine_order;

verus! {

/// The events that can come of a piece of outside work.
pub open spec fn asks_for(next: NextView, event: EventView) -> bool {
    match next {
        NextView::Proceed => event is Proceed,
        NextView::Read { window, .. } => event is Read || (window != Window::Unbounded
            && event is WindowElapsed),
        NextView::Write { window, .. } => event is Wrote || (window != Window::Unbounded
            && event is WindowElapsed),
        NextView::Deliver { window, .. } => event is Delivered || (window != Window::Unbounded
            && event is WindowElapsed),
        NextView::Select { .. } => {
            ||| event is Cancelled
            ||| event is SyncDue
            ||| event is KeepAliveDue
            ||| event is Commanded
            ||| event is Readable
        },
        NextView::Finish | NextView::Abort => false,
    }
}

/// A session stands where the work that it asks for leaves it.
spec fn fits(result: (Session, OutputView)) -> bool {
    let point = result.0.point;
    match result.1.next {
        NextView::Proceed => point is Round || point is StartSync || point is StartKeepAlive,
        NextView::Read { window, .. } => match point {
            Point::Running(_, Op::Receive(mode, Stage::Header)) => (window == Window::Unbounded)
                == (mode == Mode::Serve),
            Point::Running(_, Op::Receive(mode, Stage::Body(_))) => (window == Window::Unbounded)
                == (mode == Mode::Serve),
            _ => false,
        },
        NextView::Write { window, .. } => match point {
            Point::Running(_, Op::Greet) => window == Window::Unbounded,
            Point::Running(_, Op::Send) => window == Window::Unbounded,
            Point::Running(_, Op::Ask(_)) => window != Window::Unbounded,
            Point::Running(_, Op::Receive(mode, Stage::Reply)) => (window == Window::Unbounded)
                == (mode == Mode::Serve),
            _ => false,
        },
        NextView::Deliver { window, .. } => match point {
            Point::Running(_, Op::Receive(mode, Stage::Deliver(_))) => (window
                == Window::Unbounded) == (mode == Mode::Serve),
            _ => false,
        },
        NextView::Select { .. } => point is Select,
        NextView::Finish | NextView::Abort => point is Finished,
    }
}

/// A connection after a step: the handshake is remembered and times are readings.
spec fn follows(before: Connection, after: Connection, t: Readings) -> bool {
    &&& before.initial_handshake_done ==> after.initial_handshake_done
    &&& after.last_keep_alive == before.last_keep_alive || Some(after.last_keep_alive) == t.first
        || Some(after.last_keep_alive) == t.second
    &&& after.last_sync == before.last_sync || Some(after.last_sync) == t.second || Some(
        after.last_sync,
    ) == t.third
}

/// No text without a stamp is handed over.
spec fn stamps(output: OutputView) -> bool {
    output.next matches NextView::Deliver {
        command: CommandView::Text(stamp, _),
        ..
    } ==> stamp != 0
}

/// All that holds of the result of every step.
#[verifier::opaque]
spec fn lawful(before: Connection, result: (Session, OutputView), t: Readings) -> bool {
    &&& fits(result)
    &&& follows(before, result.0.conn, t)
    &&& stamps(result.1)
}

proof fn lemma_fits_asks(result: (Session, OutputView), answer: EventView)
    requires
        fits(result),
    ensures
        asks_for(result.1.next, answer) <==> awaits(result.0.point, answer),
{
}

proof fn lemma_completed(before: Connection, conn: Connection, task: Task, t: Readings)
    requires
        follows(before, conn, t),
    ensures
        lawful(before, completed(conn, task), t),
{
    reveal(lawful);
}

proof fn lemma_failed(
    before: Connection,
    conn: Connection,
    task: Task,
    e: ErrorView,
    addr: Seq<char>,
    o: Options,
    now: Option<u64>,
    t: Readings,
)
    requires
        follows(before, conn, t),
    ensures
        lawful(before, failed(conn, task, e, addr, o, now), t),
{
    reveal(lawful);
}

proof fn lemma_receiving(
    before: Connection,
    conn: Connection,
    task: Task,
    mode: Mode,
    window: Window,
    o: Options,
    t: Readings,
)
    requires
        follows(before, conn, t),
        (window == Window::Unbounded) == (mode == Mode::Serve),
    ensures
        lawful(before, receiving(conn, task, mode, window, o), t),
{
    reveal(lawful);
}

proof fn lemma_after_message(
    before: Connection,
    conn: Connection,
    task: Task,
    mode: Mode,
    kind: MessageKind,
    o: Options,
    t: Readings,
)
    requires
        follows(before, conn, t),
    ensures
        lawful(before, after_message(conn, task, mode, kind, o), t),
{
    lemma_completed(before, conn, task, t);
    lemma_receiving(before, conn, task, Mode::Expect, Window::Kept, o, t);
    reveal(lawful);
}

proof fn lemma_handled(conn: Connection, msg: MessageView, max_buffer_size: u64, t: Readings)
    ensures
        follows(conn, handled(conn, msg, max_buffer_size, t).0, t),
        handled(conn, msg, max_buffer_size, t).1 matches Ok(
            HandledView::Deliver(CommandView::Text(stamp, _)),
        ) ==> stamp != 0,
{
}

proof fn lemma_took(
    conn: Connection,
    task: Task,
    mode: Mode,
    msg: MessageView,
    addr: Seq<char>,
    o: Options,
    t: Readings,
)
    ensures
        lawful(conn, took(conn, task, mode, msg, addr, o, t), t),
{
    lemma_handled(conn, msg, o.max_buffer_size->0, t);
    let (after, result) = judged(conn, mode, msg, o, t);
    assert(follows(conn, after, t));
    match result {
        Err(e) => lemma_failed(conn, after, task, e, addr, o, t.fourth, t),
        Ok(ExpectedView::HandShake) => lemma_completed(conn, after, task, t),
        Ok(ExpectedView::Other(HandledView::Done)) => lemma_after_message(
            conn,
            after,
            task,
            mode,
            msg.meta.kind,
            o,
            t,
        ),
        Ok(ExpectedView::Other(HandledView::Reply(_))) => {
            reveal(lawful);
        },
        Ok(ExpectedView::Other(HandledView::Deliver(_))) => {
            reveal(lawful);
        },
    }
}

proof fn lemma_received_step(
    conn: Connection,
    task: Task,
    mode: Mode,
    stage: Stage,
    event: EventView,
    addr: Seq<char>,
    o: Options,
    t: Readings,
)
    requires
        awaits(Point::Running(task, Op::Receive(mode, stage)), event),
    ensures
        lawful(conn, received_step(conn, task, mode, stage, event, addr, o, t), t),
{
    match (stage, event) {
        (_, EventView::WindowElapsed) => lemma_failed(
            conn,
            conn,
            task,
            ErrorView::TimeoutError,
            addr,
            o,
            t.fourth,
            t,
        ),
        (Stage::Header, EventView::Read(outcome)) => match header_read(outcome, machine_order()) {
            Err(e) => lemma_failed(conn, conn, task, e, addr, o, t.fourth, t),
            Ok(HeaderReadView::Whole(msg)) => lemma_took(conn, task, mode, msg, addr, o, t),
            Ok(HeaderReadView::Body(_)) => {
                reveal(lawful);
            },
        },
        (Stage::Body(meta), EventView::Read(outcome)) => match body_read(meta, outcome) {
            Err(e) => lemma_failed(conn, conn, task, e, addr, o, t.fourth, t),
            Ok(msg) => lemma_took(conn, task, mode, msg, addr, o, t),
        },
        (Stage::Reply, EventView::Wrote(outcome)) => match written(outcome) {
            Err(e) => lemma_failed(conn, conn, task, e, addr, o, t.fourth, t),
            Ok(_) => lemma_after_message(conn, conn, task, mode, MessageKind::HandShake, o, t),
        },
        (Stage::Deliver(kind), EventView::Delivered(outcome)) => match delivered(outcome) {
            Err(e) => lemma_failed(conn, conn, task, e, addr, o, t.fourth, t),
            Ok(_) => lemma_after_message(conn, conn, task, mode, kind, o, t),
        },
        _ => {},
    }
}

proof fn lemma_ran(
    conn: Connection,
    task: Task,
    op: Op,
    event: EventView,
    addr: Seq<char>,
    o: Options,
    t: Readings,
)
    requires
        awaits(Point::Running(task, op), event),
    ensures
        lawful(conn, ran(conn, task, op, event, addr, o, t), t),
{
    match (op, event) {
        (Op::Receive(mode, stage), _) => lemma_received_step(
            conn,
            task,
            mode,
            stage,
            event,
            addr,
            o,
            t,
        ),
        (_, EventView::WindowElapsed) => lemma_failed(
            conn,
            conn,
            task,
            ErrorView::TimeoutError,
            addr,
            o,
            t.fourth,
            t,
        ),
        (_, EventView::Wrote(outcome)) => match written(outcome) {
            Err(e) => lemma_failed(conn, conn, task, e, addr, o, t.fourth, t),
            Ok(_) => match op {
                Op::Ask(stamp) => lemma_receiving(
                    conn,
                    conn,
                    task,
                    Mode::Answer(stamp),
                    Window::Kept,
                    o,
                    t,
                ),
                Op::Send => lemma_completed(conn, conn, task, t),
                _ => match t.first {
                    None => lemma_failed(
                        conn,
                        conn,
                        task,
                        ErrorView::SystemClockError,
                        addr,
                        o,
                        t.fourth,
                        t,
                    ),
                    Some(last_keep_alive) => {
                        let noted = Connection { last_keep_alive, ..conn };
                        match window_secs(o) {
                            Some(secs) => lemma_receiving(
                                conn,
                                noted,
                                task,
                                Mode::Expect,
                                Window::Opened(secs),
                                o,
                                t,
                            ),
                            None => {
                                reveal(lawful);
                            },
                        }
                    },
                },
            },
        },
        _ => {},
    }
}

proof fn lemma_began(conn: Connection, addr: Seq<char>, o: Options, t: Readings, j: Jitter)
    ensures
        lawful(conn, began(conn, addr, o, t, j), t),
{
    lemma_failed(
        conn,
        conn,
        Task::Serving,
        ErrorView::SystemClockError,
        addr,
        o,
        t.fourth,
        t,
    );
    reveal(lawful);
}

proof fn lemma_sync_started(
    conn: Connection,
    task: Task,
    addr: Seq<char>,
    o: Options,
    t: Readings,
)
    ensures
        lawful(conn, sync_started(conn, task, addr, o, t), t),
{
    let (after, result) = sent(
        conn,
        MessageKind::Sync,
        Seq::empty(),
        None,
        o.max_buffer_size->0,
        t,
    );
    assert(follows(conn, after, t));
    if let Err(e) = result {
        lemma_failed(conn, after, task, e, addr, o, t.fourth, t);
    }
    reveal(lawful);
}

proof fn lemma_keep_alive_started(
    conn: Connection,
    task: Task,
    addr: Seq<char>,
    o: Options,
    t: Readings,
)
    ensures
        lawful(conn, keep_alive_started(conn, task, addr, o, t), t),
{
    if let Err(e) = new_packet(
        MessageKind::HandShake,
        Seq::empty(),
        None,
        o.max_buffer_size->0,
        t.first,
    ) {
        lemma_failed(conn, conn, task, e, addr, o, t.fourth, t);
    }
    reveal(lawful);
}

proof fn lemma_contents_sent(
    conn: Connection,
    content: Seq<u8>,
    stamp: u64,
    addr: Seq<char>,
    o: Options,
    t: Readings,
)
    ensures
        lawful(conn, contents_sent(conn, content, stamp, addr, o, t), t),
{
    let (after, result) = sent(
        conn,
        MessageKind::Text,
        content,
        Some(stamp),
        o.max_buffer_size->0,
        t,
    );
    assert(follows(conn, after, t));
    if let Err(e) = result {
        lemma_failed(conn, after, Task::Serving, e, addr, o, t.fourth, t);
    }
    reveal(lawful);
}

proof fn lemma_selected(
    conn: Connection,
    round: Round,
    event: EventView,
    addr: Seq<char>,
    o: Options,
    t: Readings,
)
    requires
        awaits(Point::Select(round), event),
    ensures
        lawful(conn, selected(conn, event, addr, o, t), t),
{
    match event {
        EventView::Commanded(Err(reason)) => lemma_failed(
            conn,
            conn,
            Task::Serving,
            ErrorView::ChannelError(reason),
            addr,
            o,
            t.fourth,
            t,
        ),
        EventView::Commanded(Ok(CommandView::Sync)) => lemma_failed(
            conn,
            conn,
            Task::Serving,
            ErrorView::UnknownError("Received Sync command from the channel."@),
            addr,
            o,
            t.fourth,
            t,
        ),
        EventView::Commanded(Ok(CommandView::Text(stamp, text))) => lemma_contents_sent(
            conn,
            encode_utf8(text),
            stamp,
            addr,
            o,
            t,
        ),
        EventView::Commanded(Ok(CommandView::Image(stamp, png))) => lemma_contents_sent(
            conn,
            png,
            stamp,
            addr,
            o,
            t,
        ),
        EventView::Readable => lemma_receiving(
            conn,
            conn,
            Task::Serving,
            Mode::Serve,
            Window::Unbounded,
            o,
            t,
        ),
        _ => {
            reveal(lawful);
        },
    }
}

proof fn lemma_stepped(
    session: Session,
    event: EventView,
    addr: Seq<char>,
    o: Options,
    t: Readings,
    j: Jitter,
)
    requires
        awaits(session.point, event),
    ensures
        fits(stepped(session, event, addr, o, t, j)),
        follows(session.conn, stepped(session, event, addr, o, t, j).0.conn, t),
        stamps(stepped(session, event, addr, o, t, j).1),
{
    let conn = session.conn;
    match session.point {
        Point::Round => lemma_began(conn, addr, o, t, j),
        Point::StartSync(task) => lemma_sync_started(conn, task, addr, o, t),
        Point::StartKeepAlive(task) => lemma_keep_alive_started(conn, task, addr, o, t),
        Point::Running(task, op) => lemma_ran(conn, task, op, event, addr, o, t),
        Point::Select(round) => lemma_selected(conn, round, event, addr, o, t),
        Point::Finished => {},
    }
    assert(lawful(conn, stepped(session, event, addr, o, t, j), t));
    reveal(lawful);
}

/// A session that starts takes exactly the events that answer the work it asks for first.
pub proof fn starts_by_asking(o: Options, answer: EventView)
    ensures
        asks_for(greeting(o).1.next, answer) <==> awaits(greeting(o).0.point, answer),
        asks_for(opening().1.next, answer) <==> awaits(opening().0.point, answer),
{
    lemma_fits_asks(greeting(o), answer);
    lemma_fits_asks(opening(), answer);
}

/// A session takes exactly the events that can come of the work that it asks for, so it
/// never gets stuck and never sees an event out of place.
pub proof fn takes_what_it_asks_for(
    session: Session,
    event: EventView,
    addr: Seq<char>,
    o: Options,
    t: Readings,
    j: Jitter,
    answer: EventView,
)
    requires
        awaits(session.point, event),
    ensures
        ({
            let (after, output) = stepped(session, event, addr, o, t, j);
            asks_for(output.next, answer) <==> awaits(after.point, answer)
        }),
{
    lemma_stepped(session, event, addr, o, t, j);
    lemma_fits_asks(stepped(session, event, addr, o, t, j), answer);
}

/// While the first handshake is awaited, nothing that the other side says gets to the
/// clipboard.
pub proof fn awaiting_handshake_delivers_nothing(
    session: Session,
    event: EventView,
    addr: Seq<char>,
    o: Options,
    t: Readings,
    j: Jitter,
)
    requires
        awaits(session.point, event),
        !session.conn.initial_handshake_done,
        session.point matches Point::Running(_, Op::Receive(Mode::Expect, _)),
    ensures
        stepped(session, event, addr, o, t, j).1.next !is Deliver,
{
}

/// Once the other side has shaken hands, that is never forgotten.
pub proof fn handshake_is_remembered(
    session: Session,
    event: EventView,
    addr: Seq<char>,
    o: Options,
    t: Readings,
    j: Jitter,
)
    requires
        awaits(session.point, event),
        session.conn.initial_handshake_done,
    ensures
        stepped(session, event, addr, o, t, j).0.conn.initial_handshake_done,
{
    lemma_stepped(session, event, addr, o, t, j);
}

/// The times that a session remembers are readings of the clock: a step leaves each as it
/// was or sets it to a reading.
pub proof fn times_are_readings(
    session: Session,
    event: EventView,
    addr: Seq<char>,
    o: Options,
    t: Readings,
    j: Jitter,
)
    requires
        awaits(session.point, event),
    ensures
        ({
            let old_conn = session.conn;
            let new_conn = stepped(session, event, addr, o, t, j).0.conn;
            &&& new_conn.last_keep_alive == old_conn.last_keep_alive || Some(
                new_conn.last_keep_alive,
            ) == t.first || Some(new_conn.last_keep_alive) == t.second
            &&& new_conn.last_sync == old_conn.last_sync || Some(new_conn.last_sync) == t.second
                || Some(new_conn.last_sync) == t.third
        }),
{
    lemma_stepped(session, event, addr, o, t, j);
}

/// A handshake counts exactly where the clock can be read and the two clocks are no further
/// apart than allowed.
pub proof fn handshake_needs_close_clocks(
    conn: Connection,
    msg: MessageView,
    allowed_time_diff: u64,
    max_buffer_size: u64,
    t: Readings,
)
    requires
        msg.meta.kind == MessageKind::HandShake,
    ensures
        ({
            let (after, result) = expected(conn, msg, allowed_time_diff, max_buffer_size, t);
            let counts = t.first matches Some(now) && time_between(now, msg.meta.stamp)
                <= allowed_time_diff;
            &&& counts ==> result == Ok::<ExpectedView, ErrorView>(ExpectedView::HandShake)
                && after.initial_handshake_done
            &&& !counts ==> result == Err::<ExpectedView, ErrorView>(ErrorView::SystemClockError)
                && after == conn
        }),
{
}

/// A text without a stamp never gets to the clipboard.
pub proof fn unstamped_text_is_ignored(
    session: Session,
    event: EventView,
    addr: Seq<char>,
    o: Options,
    t: Readings,
    j: Jitter,
)
    requires
        awaits(session.point, event),
    ensures
        stepped(session, event, addr, o, t, j).1.next matches NextView::Deliver {
            command: CommandView::Text(stamp, _),
            ..
        } ==> stamp != 0,
{
    lemma_stepped(session, event, addr, o, t, j);
}

/// A session that is cancelled while it waits is over.
pub proof fn cancelled_session_ends(
    session: Session,
    addr: Seq<char>,
    o: Options,
    t: Readings,
    j: Jitter,
)
    requires
        session.point is Select,
    ensures
        ({
            let (after, output) = stepped(session, EventView::Cancelled, addr, o, t, j);
            after.point == Point::Finished && output.next == NextView::Finish
        }),
{
}

/// An error after the first handshakes always cancels the connection, except for trouble
/// with the clipboard, which only ends the session.
pub proof fn errors_cancel(
    conn: Connection,
    task: Task,
    e: ErrorView,
    addr: Seq<char>,
    o: Options,
    now: Option<u64>,
)
    requires
        task != Task::Greeting,
    ensures
        ({
            let (after, output) = failed(conn, task, e, addr, o, now);
            &&& output.report is Some
            &&& output.report->0.cancel || (e is ClipboardError && after.point
                == Point::Finished)
        }),
{
}

/// Where a session ends, it says so, and where it says so, it ends.
pub proof fn ends_together(
    session: Session,
    event: EventView,
    addr: Seq<char>,
    o: Options,
    t: Readings,
    j: Jitter,
)
    requires
        awaits(session.point, event),
    ensures
        ({
            let (after, output) = stepped(session, event, addr, o, t, j);
            after.point == Point::Finished <==> output.next is Finish || output.next is Abort
        }),
{
    lemma_stepped(session, event, addr, o, t, j);
}

/// What a session that reads messages makes of a packet: it is given the header, and then as
/// many bytes of the rest as it asks for, or all of the rest where it asks for more. A header
/// that is followed by content makes no use of the readings.
pub open spec fn read_packet(
    session: Session,
    packet: Seq<u8>,
    addr: Seq<char>,
    o: Options,
    t: Readings,
    j: Jitter,
) -> (Session, OutputView) {
    let head = packet.subrange(0, META_SIZE as int);
    let rest = packet.subrange(META_SIZE as int, packet.len() as int);
    let first = stepped(session, EventView::Read(ReadOutcomeView::Received(head)), addr, o, t, j);
    if rest.len() == 0 {
        first
    } else {
        let wanted = match first.1.next {
            NextView::Read { len, .. } => len as int,
            _ => 0,
        };
        let given = if wanted <= rest.len() {
            rest.subrange(0, wanted)
        } else {
            rest
        };
        stepped(first.0, EventView::Read(ReadOutcomeView::Received(given)), addr, o, t, j)
    }
}

/// A header that is a whole message is taken as that message.
proof fn lemma_whole(
    conn: Connection,
    task: Task,
    mode: Mode,
    outcome: ReadOutcomeView,
    msg: MessageView,
    addr: Seq<char>,
    o: Options,
    t: Readings,
    j: Jitter,
)
    requires
        header_read(outcome, machine_order()) == Ok::<HeaderReadView, ErrorView>(
            HeaderReadView::Whole(msg),
        ),
    ensures
        stepped(
            Session { conn, point: Point::Running(task, Op::Receive(mode, Stage::Header)) },
            EventView::Read(outcome),
            addr,
            o,
            t,
            j,
        ) == took(conn, task, mode, msg, addr, o, t),
{
}

/// A header that announces content is followed by reading it.
proof fn lemma_head(
    conn: Connection,
    task: Task,
    mode: Mode,
    outcome: ReadOutcomeView,
    meta: MessageMeta,
    addr: Seq<char>,
    o: Options,
    t: Readings,
    j: Jitter,
)
    requires
        header_read(outcome, machine_order()) == Ok::<HeaderReadView, ErrorView>(
            HeaderReadView::Body(meta),
        ),
    ensures
        stepped(
            Session { conn, point: Point::Running(task, Op::Receive(mode, Stage::Header)) },
            EventView::Read(outcome),
            addr,
            o,
            t,
            j,
        ) == (
            Session { conn, point: Point::Running(task, Op::Receive(mode, Stage::Body(meta))) },
            OutputView {
                try_write: None,
                report: None,
                next: NextView::Read {
                    len: meta.len as usize,
                    secs: o.timeout_sec->0,
                    window: window_of(mode),
                },
            },
        ),
{
}

/// Content completes a message, which is then taken.
proof fn lemma_body(
    conn: Connection,
    task: Task,
    mode: Mode,
    outcome: ReadOutcomeView,
    msg: MessageView,
    addr: Seq<char>,
    o: Options,
    t: Readings,
    j: Jitter,
)
    requires
        body_read(msg.meta, outcome) == Ok::<MessageView, ErrorView>(msg),
    ensures
        stepped(
            Session { conn, point: Point::Running(task, Op::Receive(mode, Stage::Body(msg.meta))) },
            EventView::Read(outcome),
            addr,
            o,
            t,
            j,
        ) == took(conn, task, mode, msg, addr, o, t),
{
}

/// A well-formed packet is taken as the message that it carries.
pub proof fn packet_is_taken_as_its_message(
    conn: Connection,
    task: Task,
    mode: Mode,
    msg: MessageView,
    addr: Seq<char>,
    o: Options,
    t: Readings,
    j: Jitter,
)
    requires
        msg.meta.len == msg.content.len(),
        msg.meta.kind.has_content() || msg.content.len() == 0,
    ensures
        read_packet(
            Session { conn, point: Point::Running(task, Op::Receive(mode, Stage::Header)) },
            packet_bytes(msg, machine_order()),
            addr,
            o,
            t,
            j,
        ) == took(conn, task, mode, msg, addr, o, t),
{
    packet_round_trip(msg, machine_order());
    let packet = packet_bytes(msg, machine_order());
    let head = ReadOutcomeView::Received(packet.subrange(0, META_SIZE as int));
    let rest = ReadOutcomeView::Received(
        packet.subrange(META_SIZE as int, packet.len() as int),
    );
    if msg.content.len() == 0 {
        lemma_whole(conn, task, mode, head, msg, addr, o, t, j);
    } else {
        lemma_head(conn, task, mode, head, msg.meta, addr, o, t, j);
        assert(rest->Received_0.subrange(0, msg.meta.len as usize as int) =~= msg.content);
        lemma_body(conn, task, mode, rest, msg, addr, o, t, j);
    }
}

/// A side that reads messages in this mode takes whatever comes.
pub open spec fn open_to_all(conn: Connection, mode: Mode) -> bool {
    mode == Mode::Expect ==> conn.initial_handshake_done
}

/// Contents are written in a packet that says it is a text, with their stamp.
proof fn lemma_contents_packet(
    conn: Connection,
    content: Seq<u8>,
    stamp: u64,
    addr: Seq<char>,
    o: Options,
    t: Readings,
)
    requires
        content.len() <= o.max_buffer_size->0 as usize,
        content.len() <= u32::MAX,
        t.first is Some && t.second is Some && t.third is Some,
    ensures
        ({
            let meta = MessageMeta { len: content.len() as u32, stamp, kind: MessageKind::Text };
            contents_sent(conn, content, stamp, addr, o, t).1.next == (NextView::Write {
                packet: packet_bytes(MessageView { meta, content }, machine_order()),
                secs: o.timeout_sec->0,
                window: Window::Unbounded,
            })
        }),
{
    new_message_length(MessageKind::Text, content, Some(stamp), o.max_buffer_size->0, t.first);
}

/// A text that comes is handed over if it is one, and otherwise complained of.
proof fn lemma_text_taken(
    receiver: Connection,
    task: Task,
    mode: Mode,
    msg: MessageView,
    there: Seq<char>,
    o: Options,
    t: Readings,
)
    requires
        open_to_all(receiver, mode),
        msg.meta.kind == MessageKind::Text,
        msg.meta.stamp != 0,
        t.first is Some && t.second is Some,
    ensures
        ({
            let noted = Connection {
                last_keep_alive: t.first->0,
                last_sync: t.second->0,
                ..receiver
            };
            let result = took(receiver, task, mode, msg, there, o, t);
            if valid_utf8(msg.content) {
                result.1.next == (NextView::Deliver {
                    command: CommandView::Text(msg.meta.stamp, decode_utf8(msg.content)),
                    window: window_of(mode),
                })
            } else {
                result == failed(
                    noted,
                    task,
                    ErrorView::PacketParseError("Unable to decode UTF-8 text from the client."@),
                    there,
                    o,
                    t.fourth,
                )
            }
        }),
{
}

/// Where a session stands while it hands a text over.
proof fn lemma_text_handed_over(
    receiver: Connection,
    task: Task,
    mode: Mode,
    msg: MessageView,
    there: Seq<char>,
    o: Options,
    t: Readings,
)
    requires
        open_to_all(receiver, mode),
        msg.meta.kind == MessageKind::Text,
        msg.meta.stamp != 0,
        valid_utf8(msg.content),
        t.first is Some && t.second is Some,
    ensures
        took(receiver, task, mode, msg, there, o, t).0 == (Session {
            conn: Connection {
                last_keep_alive: t.first->0,
                last_sync: t.second->0,
                ..receiver
            },
            point: Point::Running(
                task,
                Op::Receive(mode, Stage::Deliver(MessageKind::Text)),
            ),
        }),
{
}

/// A text that one side copies gets to the clipboard of the other side, with its stamp:
/// what the sender writes, the receiver hands over. The text must be within the limit and
/// short enough for the header, have a stamp, and the clocks must be readable. A receiver
/// that still awaits the first handshake takes nothing.
#[verifier::spinoff_prover]
pub proof fn text_travels(
    sender: Session,
    text: Seq<char>,
    stamp: u64,
    addr: Seq<char>,
    o: Options,
    t: Readings,
    j: Jitter,
    receiver: Connection,
    task: Task,
    mode: Mode,
    there: Seq<char>,
    o2: Options,
    t2: Readings,
    j2: Jitter,
)
    requires
        sender.point is Select,
        encode_utf8(text).len() <= o.max_buffer_size->0 as usize,
        encode_utf8(text).len() <= u32::MAX,
        stamp != 0,
        t.first is Some && t.second is Some && t.third is Some,
        open_to_all(receiver, mode),
        t2.first is Some && t2.second is Some,
    ensures
        ({
            let event = EventView::Commanded(Ok(CommandView::Text(stamp, text)));
            let (_, output) = stepped(sender, event, addr, o, t, j);
            let reading = Session {
                conn: receiver,
                point: Point::Running(task, Op::Receive(mode, Stage::Header)),
            };
            &&& output.next matches NextView::Write { packet, .. }
            &&& read_packet(reading, packet, there, o2, t2, j2).1.next == (NextView::Deliver {
                command: CommandView::Text(stamp, text),
                window: window_of(mode),
            })
        }),
{
    let content = encode_utf8(text);
    let msg = MessageView {
        meta: MessageMeta { len: content.len() as u32, stamp, kind: MessageKind::Text },
        content,
    };
    lemma_contents_packet(sender.conn, content, stamp, addr, o, t);
    packet_is_taken_as_its_message(receiver, task, mode, msg, there, o2, t2, j2);
    lemma_text_taken(receiver, task, mode, msg, there, o2, t2);
    encode_utf8_valid_utf8(text);
    encode_utf8_decode_utf8(text);
}

/// A picture travels in a packet that says it is a text: the other side hands it over as a
/// text if its bytes happen to be one, and otherwise complains.
#[verifier::spinoff_prover]
pub proof fn picture_travels_as_text(
    sender: Session,
    png: Seq<u8>,
    stamp: u64,
    addr: Seq<char>,
    o: Options,
    t: Readings,
    j: Jitter,
    receiver: Connection,
    task: Task,
    mode: Mode,
    there: Seq<char>,
    o2: Options,
    t2: Readings,
    j2: Jitter,
)
    requires
        sender.point is Select,
        png.len() <= o.max_buffer_size->0 as usize,
        png.len() <= u32::MAX,
        stamp != 0,
        t.first is Some && t.second is Some && t.third is Some,
        open_to_all(receiver, mode),
        t2.first is Some && t2.second is Some,
    ensures
        ({
            let event = EventView::Commanded(Ok(CommandView::Image(stamp, png)));
            let (_, output) = stepped(sender, event, addr, o, t, j);
            let reading = Session {
                conn: receiver,
                point: Point::Running(task, Op::Receive(mode, Stage::Header)),
            };
            let noted = Connection {
                last_keep_alive: t2.first->0,
                last_sync: t2.second->0,
                ..receiver
            };
            &&& output.next matches NextView::Write { packet, .. }
            &&& if valid_utf8(png) {
                read_packet(reading, packet, there, o2, t2, j2).1.next == (NextView::Deliver {
                    command: CommandView::Text(stamp, decode_utf8(png)),
                    window: window_of(mode),
                })
            } else {
                read_packet(reading, packet, there, o2, t2, j2) == failed(
                    noted,
                    task,
                    ErrorView::PacketParseError("Unable to decode UTF-8 text from the client."@),
                    there,
                    o2,
                    t2.fourth,
                )
            }
        }),
{
    let msg = MessageView {
        meta: MessageMeta { len: png.len() as u32, stamp, kind: MessageKind::Text },
        content: png,
    };
    lemma_contents_packet(sender.conn, png, stamp, addr, o, t);
    packet_is_taken_as_its_message(receiver, task, mode, msg, there, o2, t2, j2);
    lemma_text_taken(receiver, task, mode, msg, there, o2, t2);
}

/// A request for contents is handed over.
proof fn lemma_sync_taken(
    receiver: Connection,
    task: Task,
    mode: Mode,
    msg: MessageView,
    there: Seq<char>,
    o: Options,
    t: Readings,
)
    requires
        open_to_all(receiver, mode),
        msg.meta.kind == MessageKind::Sync,
        t.first is Some && t.second is Some,
    ensures
        took(receiver, task, mode, msg, there, o, t).1.next == (NextView::Deliver {
            command: CommandView::Sync,
            window: window_of(mode),
        }),
{
}

/// A request for contents, sent for the first time or again, gets to the clipboard of the
/// other side.
#[verifier::spinoff_prover]
pub proof fn sync_request_travels(
    stamp: u64,
    receiver: Connection,
    task: Task,
    mode: Mode,
    there: Seq<char>,
    o2: Options,
    t2: Readings,
    j2: Jitter,
)
    requires
        open_to_all(receiver, mode),
        t2.first is Some && t2.second is Some,
    ensures
        ({
            let reading = Session {
                conn: receiver,
                point: Point::Running(task, Op::Receive(mode, Stage::Header)),
            };
            read_packet(reading, sync_packet(stamp), there, o2, t2, j2).1.next == (
            NextView::Deliver { command: CommandView::Sync, window: window_of(mode) })
        }),
{
    let msg = MessageView {
        meta: MessageMeta { len: 0, stamp, kind: MessageKind::Sync },
        content: Seq::empty(),
    };
    packet_is_taken_as_its_message(receiver, task, mode, msg, there, o2, t2, j2);
    lemma_sync_taken(receiver, task, mode, msg, there, o2, t2);
}

/// What a session makes of an answer to a request for contents, once all that the answer
/// asked for is done: contents complete the request, and after anything else the same
/// request is sent again.
pub proof fn request_is_repeated_until_contents_come(
    session: Session,
    task: Task,
    stamp: u64,
    kind: MessageKind,
    addr: Seq<char>,
    o: Options,
    t: Readings,
    j: Jitter,
)
    requires
        session.point == Point::Running(
            task,
            Op::Receive(Mode::Answer(stamp), Stage::Deliver(kind)),
        ),
    ensures
        ({
            let result = stepped(session, EventView::Delivered(Ok(())), addr, o, t, j);
            if kind == MessageKind::Text || kind == MessageKind::Image {
                result == completed(session.conn, task)
            } else {
                &&& result.0.point == Point::Running(task, Op::Ask(stamp))
                &&& result.1.next == (NextView::Write {
                    packet: sync_packet(stamp),
                    secs: o.timeout_sec->0,
                    window: Window::Kept,
                })
            }
        }),
{
}

/// A request for contents is first sent with the time as its stamp.
pub proof fn request_is_stamped_with_the_time(
    session: Session,
    task: Task,
    addr: Seq<char>,
    o: Options,
    t: Readings,
    j: Jitter,
)
    requires
        session.point == Point::StartSync(task),
    ensures
        ({
            let (after, output) = stepped(session, EventView::Proceed, addr, o, t, j);
            output.next matches NextView::Write { packet, .. } ==> {
                &&& t.first is Some
                &&& after.point == Point::Running(task, Op::Ask(t.first->0))
                &&& packet == sync_packet(t.first->0)
            }
        }),
{
}

/// A keep-alive starts with the packet of a handshake that carries the time.
proof fn lemma_keep_alive_packet(
    sender: Session,
    sending: Task,
    addr: Seq<char>,
    o: Options,
    t: Readings,
    j: Jitter,
)
    requires
        sender.point == Point::StartKeepAlive(sending),
        t.first is Some,
    ensures
        ({
            let made = new_message(
                MessageKind::HandShake,
                Seq::empty(),
                None,
                o.max_buffer_size->0,
                t.first,
            );
            let meta = MessageMeta { len: 0, stamp: t.first->0, kind: MessageKind::HandShake };
            &&& made == Ok::<MessageView, ErrorView>(MessageView { meta, content: Seq::empty() })
            &&& stepped(sender, EventView::Proceed, addr, o, t, j).1.next matches NextView::Write {
                packet,
                ..
            }
            &&& packet == packet_bytes(made->Ok_0, machine_order())
        }),
{
}

/// A handshake whose time is close enough completes the wait for it.
proof fn lemma_handshake_taken(
    receiver: Connection,
    waiting: Task,
    msg: MessageView,
    there: Seq<char>,
    o: Options,
    t: Readings,
)
    requires
        msg.meta.kind == MessageKind::HandShake,
        t.first is Some,
        time_between(t.first->0, msg.meta.stamp) <= o.allowed_time_diff->0,
    ensures
        took(receiver, waiting, Mode::Expect, msg, there, o, t) == completed(
            Connection { initial_handshake_done: true, ..receiver },
            waiting,
        ),
{
}

/// A keep-alive completes the other side's wait for a handshake, if the two clocks are close
/// enough.
#[verifier::spinoff_prover]
pub proof fn handshake_travels(
    sender: Session,
    sending: Task,
    addr: Seq<char>,
    o: Options,
    t: Readings,
    j: Jitter,
    receiver: Connection,
    waiting: Task,
    there: Seq<char>,
    o2: Options,
    t2: Readings,
    j2: Jitter,
)
    requires
        sender.point == Point::StartKeepAlive(sending),
        t.first is Some,
        t2.first is Some,
        time_between(t2.first->0, t.first->0) <= o2.allowed_time_diff->0,
    ensures
        ({
            let (_, output) = stepped(sender, EventView::Proceed, addr, o, t, j);
            let reading = Session {
                conn: receiver,
                point: Point::Running(waiting, Op::Receive(Mode::Expect, Stage::Header)),
            };
            &&& output.next matches NextView::Write { packet, .. }
            &&& read_packet(reading, packet, there, o2, t2, j2) == completed(
                Connection { initial_handshake_done: true, ..receiver },
                waiting,
            )
        }),
{
    let made = new_message(
        MessageKind::HandShake,
        Seq::empty(),
        None,
        o.max_buffer_size->0,
        t.first,
    );
    lemma_keep_alive_packet(sender, sending, addr, o, t, j);
    lemma_handshake_taken(receiver, waiting, made->Ok_0, there, o2, t2);
    packet_is_taken_as_its_message(
        receiver,
        waiting,
        Mode::Expect,
        made->Ok_0,
        there,
        o2,
        t2,
        j2,
    );
}

/// A handshake that comes by itself is answered with one.
proof fn lemma_handshake_answered(
    receiver: Connection,
    msg: MessageView,
    there: Seq<char>,
    o: Options,
    t: Readings,
)
    requires
        msg.meta.kind == MessageKind::HandShake,
        t.first is Some,
        t.second is Some,
    ensures
        ({
            let meta = MessageMeta { len: 0, stamp: t.second->0, kind: MessageKind::HandShake };
            took(receiver, Task::Serving, Mode::Serve, msg, there, o, t).1.next == (
            NextView::Write {
                packet: packet_bytes(
                    MessageView { meta, content: Seq::empty() },
                    machine_order(),
                ),
                secs: o.timeout_sec->0,
                window: Window::Unbounded,
            })
        }),
{
}

/// A keep-alive that the other side hears while it waits is answered with a handshake, and
/// that completes the keep-alive, if the two clocks are close enough.
#[verifier::spinoff_prover]
pub proof fn keep_alive_is_answered(
    sender: Session,
    sending: Task,
    addr: Seq<char>,
    o: Options,
    t: Readings,
    j: Jitter,
    receiver: Connection,
    there: Seq<char>,
    o2: Options,
    t2: Readings,
    j2: Jitter,
    waiting: Connection,
    t3: Readings,
    j3: Jitter,
)
    requires
        sender.point == Point::StartKeepAlive(sending),
        t.first is Some,
        t2.first is Some,
        t2.second is Some,
        t3.first is Some,
        time_between(t3.first->0, t2.second->0) <= o.allowed_time_diff->0,
    ensures
        ({
            let hearing = Session {
                conn: receiver,
                point: Point::Running(Task::Serving, Op::Receive(Mode::Serve, Stage::Header)),
            };
            let expecting = Session {
                conn: waiting,
                point: Point::Running(sending, Op::Receive(Mode::Expect, Stage::Header)),
            };
            &&& stepped(sender, EventView::Proceed, addr, o, t, j).1.next
                matches NextView::Write { packet, .. }
            &&& read_packet(hearing, packet, there, o2, t2, j2).1.next
                matches NextView::Write { packet: answer, .. }
            &&& read_packet(expecting, answer, addr, o, t3, j3) == completed(
                Connection { initial_handshake_done: true, ..waiting },
                sending,
            )
        }),
{
    let asked = MessageView {
        meta: MessageMeta { len: 0, stamp: t.first->0, kind: MessageKind::HandShake },
        content: Seq::empty(),
    };
    let answered = MessageView {
        meta: MessageMeta { len: 0, stamp: t2.second->0, kind: MessageKind::HandShake },
        content: Seq::empty(),
    };
    lemma_keep_alive_packet(sender, sending, addr, o, t, j);
    packet_is_taken_as_its_message(
        receiver,
        Task::Serving,
        Mode::Serve,
        asked,
        there,
        o2,
        t2,
        j2,
    );
    lemma_handshake_answered(receiver, asked, there, o2, t2);
    packet_is_taken_as_its_message(
        waiting,
        sending,
        Mode::Expect,
        answered,
        addr,
        o,
        t3,
        j3,
    );
    lemma_handshake_taken(waiting, sending, answered, addr, o, t3);
}

/// When a keep-alive falls due, the next packet is a handshake that carries the time.
pub proof fn due_keep_alive_is_sent(
    session: Session,
    addr: Seq<char>,
    o: Options,
    t: Readings,
    j: Jitter,
    t2: Readings,
    j2: Jitter,
)
    requires
        session.point is Select,
        t2.first is Some,
    ensures
        ({
            let (due, output) = stepped(session, EventView::KeepAliveDue, addr, o, t, j);
            let meta = MessageMeta { len: 0, stamp: t2.first->0, kind: MessageKind::HandShake };
            let packet = packet_bytes(
                MessageView { meta, content: Seq::empty() },
                machine_order(),
            );
            &&& output.next == NextView::Proceed
            &&& stepped(due, EventView::Proceed, addr, o, t2, j2).1.next == (NextView::Write {
                packet,
                secs: o.timeout_sec->0,
                window: Window::Unbounded,
            })
        }),
{
    let due = stepped(session, EventView::KeepAliveDue, addr, o, t, j).0;
    lemma_keep_alive_packet(due, Task::Serving, addr, o, t2, j2);
}

/// When a sync falls due, the next packet is a request for contents that carries the time,
/// where the time for the whole exchange can be computed.
pub proof fn due_sync_is_sent(
    session: Session,
    addr: Seq<char>,
    o: Options,
    t: Readings,
    j: Jitter,
    t2: Readings,
    j2: Jitter,
)
    requires
        session.point is Select,
        t2.first is Some && t2.second is Some && t2.third is Some,
        window_secs(o) is Some,
    ensures
        ({
            let (due, output) = stepped(session, EventView::SyncDue, addr, o, t, j);
            &&& output.next == NextView::Proceed
            &&& stepped(due, EventView::Proceed, addr, o, t2, j2).1.next == (NextView::Write {
                packet: sync_packet(t2.first->0),
                secs: o.timeout_sec->0,
                window: Window::Opened(window_secs(o)->0),
            })
        }),
{
}

/// Nothing is overdue for a connection at the time `now`: no interval has passed since what
/// it bounds last happened. The points in time at which intervals end can be computed.
pub open spec fn nothing_overdue(conn: Connection, o: Options, now: u64, j: Jitter) -> bool {
    &&& now <= conn.last_keep_alive + o.keep_alive->0
    &&& now <= conn.last_sync + o.sync_interval->0
    &&& deadline(conn.last_keep_alive, o.keep_alive->0, j.keep_alive) is Some
    &&& deadline(conn.last_sync, o.sync_interval->0, j.sync) is Some
}

/// A round in which nothing is overdue is waited out.
pub proof fn round_is_waited_out(
    session: Session,
    addr: Seq<char>,
    o: Options,
    t: Readings,
    j: Jitter,
)
    requires
        session.point == Point::Round,
        t.first is Some,
        nothing_overdue(session.conn, o, t.first->0, j),
    ensures
        stepped(session, EventView::Proceed, addr, o, t, j).0.point is Select,
        stepped(session, EventView::Proceed, addr, o, t, j).1.next is Select,
{
}

/// A session whose overdue task is completed comes to wait on the next step, if the clock can
/// be read and nothing is overdue again. Only where a keep-alive was overdue besides a sync,
/// the keep-alive comes first.
pub proof fn overdue_task_leads_to_the_wait(
    conn: Connection,
    task: Task,
    addr: Seq<char>,
    o: Options,
    t: Readings,
    j: Jitter,
)
    requires
        task is OverdueSync || task is OverdueKeepAlive,
        t.first is Some,
        nothing_overdue(conn, o, t.first->0, j),
    ensures
        ({
            let (session, output) = completed(conn, task);
            &&& output.next == NextView::Proceed
            &&& if task matches Task::OverdueSync(round) && round.now > round.next_keep_alive {
                session.point == Point::StartKeepAlive(Task::OverdueKeepAlive)
            } else {
                stepped(session, EventView::Proceed, addr, o, t, j).0.point is Select
            }
        }),
{
    round_is_waited_out(Session { conn, point: Point::Round }, addr, o, t, j);
}

/// The session of a side that was connected to, shakes hands and asks for contents first: the
/// other side's handshake, with a clock that is close enough, opens the first round, in which
/// a sync is overdue.
#[verifier::spinoff_prover]
pub proof fn accepted_session_asks_for_contents(
    addr: Seq<char>,
    o: Options,
    made: Readings,
    greeted: Readings,
    met: Readings,
    begun: Readings,
    stamp: u64,
    j: Jitter,
)
    requires
        window_secs(o) is Some,
        made.first is Some && greeted.first is Some && met.first is Some && begun.first is Some,
        time_between(met.first->0, stamp) <= o.allowed_time_diff->0,
        begun.first->0 > o.sync_interval->0 + j.sync,
        deadline(greeted.first->0, o.keep_alive->0, j.keep_alive) is Some,
        begun.first->0 <= greeted.first->0 + o.keep_alive->0,
    ensures
        ({
            let hello = packet_bytes(
                MessageView {
                    meta: MessageMeta { len: 0, stamp, kind: MessageKind::HandShake },
                    content: Seq::empty(),
                },
                machine_order(),
            );
            let written = EventView::Wrote(WriteOutcomeView::Written);
            let s1 = stepped(opening().0, EventView::Proceed, addr, o, made, j).0;
            let s2 = stepped(s1, written, addr, o, greeted, j).0;
            let s3 = read_packet(s2, hello, addr, o, met, j).0;
            let s4 = stepped(s3, EventView::Proceed, addr, o, begun, j).0;
            &&& s4.point matches Point::StartSync(Task::OverdueSync(round))
            &&& round.now <= round.next_keep_alive
            &&& s4.conn.initial_handshake_done
        }),
{
    let written = EventView::Wrote(WriteOutcomeView::Written);
    let s1 = stepped(opening().0, EventView::Proceed, addr, o, made, j).0;
    lemma_keep_alive_packet(opening().0, Task::Opening, addr, o, made, j);
    assert(s1 == Session {
        conn: Connection::fresh(),
        point: Point::Running(Task::Opening, Op::Greet),
    });
    let noted = Connection { last_keep_alive: greeted.first->0, ..Connection::fresh() };
    let s2 = stepped(s1, written, addr, o, greeted, j).0;
    assert(s2 == Session {
        conn: noted,
        point: Point::Running(Task::Opening, Op::Receive(Mode::Expect, Stage::Header)),
    });
    let msg = MessageView {
        meta: MessageMeta { len: 0, stamp, kind: MessageKind::HandShake },
        content: Seq::empty(),
    };
    packet_is_taken_as_its_message(noted, Task::Opening, Mode::Expect, msg, addr, o, met, j);
    lemma_handshake_taken(noted, Task::Opening, msg, addr, o, met);
}

/// A sync that was overdue, answered with a text and with nothing else overdue, leads to the
/// wait: from there contents travel.
#[verifier::spinoff_prover]
pub proof fn overdue_sync_leads_to_the_wait(
    session: Session,
    round: Round,
    text: Seq<char>,
    stamp: u64,
    addr: Seq<char>,
    o: Options,
    asked: Readings,
    answered: Readings,
    again: Readings,
    j: Jitter,
)
    requires
        session.point == Point::StartSync(Task::OverdueSync(round)),
        round.now <= round.next_keep_alive,
        encode_utf8(text).len() <= u32::MAX,
        stamp != 0,
        window_secs(o) is Some,
        asked.first is Some && asked.second is Some && asked.third is Some,
        answered.first is Some && answered.second is Some,
        again.first is Some,
        nothing_overdue(
            Connection {
                last_keep_alive: answered.first->0,
                last_sync: answered.second->0,
                ..session.conn
            },
            o,
            again.first->0,
            j,
        ),
    ensures
        ({
            let content = encode_utf8(text);
            let meta = MessageMeta { len: content.len() as u32, stamp, kind: MessageKind::Text };
            let answer = packet_bytes(MessageView { meta, content }, machine_order());
            let written = EventView::Wrote(WriteOutcomeView::Written);
            let s1 = stepped(session, EventView::Proceed, addr, o, asked, j).0;
            let s2 = stepped(s1, written, addr, o, asked, j).0;
            let s3 = read_packet(s2, answer, addr, o, answered, j).0;
            let s4 = stepped(s3, EventView::Delivered(Ok(())), addr, o, answered, j).0;
            stepped(s4, EventView::Proceed, addr, o, again, j).0.point is Select
        }),
{
    let task = Task::OverdueSync(round);
    let written = EventView::Wrote(WriteOutcomeView::Written);
    let mode = Mode::Answer(asked.first->0);
    let requested = Connection {
        last_keep_alive: asked.second->0,
        last_sync: asked.third->0,
        ..session.conn
    };
    let s1 = stepped(session, EventView::Proceed, addr, o, asked, j).0;
    assert(s1 == Session {
        conn: requested,
        point: Point::Running(task, Op::Ask(asked.first->0)),
    });
    let s2 = stepped(s1, written, addr, o, asked, j).0;
    assert(s2 == Session {
        conn: requested,
        point: Point::Running(task, Op::Receive(mode, Stage::Header)),
    });
    let content = encode_utf8(text);
    let msg = MessageView {
        meta: MessageMeta { len: content.len() as u32, stamp, kind: MessageKind::Text },
        content,
    };
    encode_utf8_valid_utf8(text);
    packet_is_taken_as_its_message(requested, task, mode, msg, addr, o, answered, j);
    lemma_text_handed_over(requested, task, mode, msg, addr, o, answered);
    let noted = Connection {
        last_keep_alive: answered.first->0,
        last_sync: answered.second->0,
        ..session.conn
    };
    let s3 = Session {
        conn: noted,
        point: Point::Running(task, Op::Receive(mode, Stage::Deliver(MessageKind::Text))),
    };
    request_is_repeated_until_contents_come(
        s3,
        task,
        asked.first->0,
        MessageKind::Text,
        addr,
        o,
        answered,
        j,
    );
    overdue_task_leads_to_the_wait(noted, task, addr, o, again, j);
}

/// A cancelled session leaves with the packet of a goodbye.
proof fn lemma_goodbye_packet(sender: Session, addr: Seq<char>, o: Options, t: Readings, j: Jitter)
    requires
        sender.point is Select,
        t.first is Some,
    ensures
        ({
            let made = new_message(
                MessageKind::Disconnect,
                Seq::empty(),
                None,
                o.max_buffer_size->0,
                t.first,
            );
            let meta = MessageMeta { len: 0, stamp: t.first->0, kind: MessageKind::Disconnect };
            &&& made == Ok::<MessageView, ErrorView>(MessageView { meta, content: Seq::empty() })
            &&& stepped(sender, EventView::Cancelled, addr, o, t, j).1.try_write == Some(
                packet_bytes(made->Ok_0, machine_order()),
            )
        }),
{
}

/// A goodbye ends the session that hears it.
proof fn lemma_goodbye_taken(
    receiver: Connection,
    task: Task,
    mode: Mode,
    msg: MessageView,
    there: Seq<char>,
    o: Options,
    t: Readings,
)
    requires
        open_to_all(receiver, mode),
        task != Task::Greeting,
        task != Task::Opening,
        msg.meta.kind == MessageKind::Disconnect,
    ensures
        took(receiver, task, mode, msg, there, o, t) == (
            Session { conn: receiver, point: Point::Finished },
            OutputView { try_write: None, report: Some(farewell(there)), next: NextView::Finish },
        ),
{
}

/// A side that is cancelled says goodbye, and the other side's session ends on hearing it,
/// unless it is still busy with the first handshake.
#[verifier::spinoff_prover]
pub proof fn goodbye_travels(
    sender: Session,
    addr: Seq<char>,
    o: Options,
    t: Readings,
    j: Jitter,
    receiver: Connection,
    task: Task,
    mode: Mode,
    there: Seq<char>,
    o2: Options,
    t2: Readings,
    j2: Jitter,
)
    requires
        sender.point is Select,
        t.first is Some,
        open_to_all(receiver, mode),
        task != Task::Greeting,
        task != Task::Opening,
    ensures
        ({
            let (_, output) = stepped(sender, EventView::Cancelled, addr, o, t, j);
            let reading = Session {
                conn: receiver,
                point: Point::Running(task, Op::Receive(mode, Stage::Header)),
            };
            &&& output.try_write matches Some(packet)
            &&& read_packet(reading, packet, there, o2, t2, j2) == (
                Session { conn: receiver, point: Point::Finished },
                OutputView {
                    try_write: None,
                    report: Some(farewell(there)),
                    next: NextView::Finish,
                },
            )
        }),
{
    let msg = MessageView {
        meta: MessageMeta { len: 0, stamp: t.first->0, kind: MessageKind::Disconnect },
        content: Seq::empty(),
    };
    lemma_goodbye_packet(sender, addr, o, t, j);
    packet_is_taken_as_its_message(receiver, task, mode, msg, there, o2, t2, j2);
    lemma_goodbye_taken(receiver, task, mode, msg, there, o2, t2);
}

/// Every error says something.
proof fn lemma_error_text_is_not_empty(e: ErrorView)
    ensures
        error_text(e).len() > 0,
{
    reveal_strlit("Client disconnected.");
    reveal_strlit("Timed out while trying to reach the client.");
    reveal_strlit("Could not use System Clock. Are these clocks synced?");
    reveal_strlit("Trying to send a message that is too large.");
    reveal_strlit("Broken connection. Details: ");
    reveal_strlit("Failed to parse the packet. Details: ");
    reveal_strlit("Error received from the client: ");
    reveal_strlit("Failed to send/recv from a channel: ");
    reveal_strlit("System clipboard is not available. Details: ");
    reveal_strlit("IOError occured! Details: ");
    reveal_strlit("An unknown error occured! Details: ");
}

/// The packet that tells the other side of an error is a control message with content, so
/// the other side refuses it when it reads the header.
pub proof fn error_packet_is_refused(e: ErrorView, o: Options, now: Option<u64>)
    requires
        encode_utf8(error_text(e)).len() <= u32::MAX,
        error_packet(e, o, now) is Some,
    ensures
        ({
            let head = error_packet(e, o, now)->0.subrange(0, META_SIZE as int);
            header_read(ReadOutcomeView::Received(head), machine_order()) == Err::<
                HeaderReadView,
                ErrorView,
            >(ErrorView::PacketParseError("Non-empty data received in control messages."@))
        }),
{
    lemma_error_text_is_not_empty(e);
    let content = encode_utf8(error_text(e));
    assert(content.len() > 0) by {
        if content.len() == 0 {
            encode_utf8_decode_utf8(error_text(e));
            assert(decode_utf8(content).len() == 0);
        }
    }
    let made = new_message(MessageKind::Error, content, None, o.max_buffer_size->0, now);
    let msg = made->Ok_0;
    control_content_is_refused(msg.meta, machine_order());
    crate::message::meta_round_trip(msg.meta, machine_order());
    assert(packet_bytes(msg, machine_order()).subrange(0, META_SIZE as int) =~= meta_bytes(
        msg.meta,
        machine_order(),
    ));
}

/// The session goes to `point` with `conn`, says nothing and asks for `next`.
pub open spec fn goes(
    result: (Session, OutputView),
    conn: Connection,
    point: Point,
    next: NextView,
) -> bool {
    &&& result.0.conn == conn
    &&& result.0.point == point
    &&& result.1.try_write is None
    &&& result.1.report is None
    &&& result.1.next == next
}

/// The session goes on to read the header of a message, of 21 bytes, within a window.
pub open spec fn reads_on(
    result: (Session, OutputView),
    conn: Connection,
    task: Task,
    mode: Mode,
    window: Window,
    o: Options,
) -> bool {
    goes(
        result,
        conn,
        Point::Running(task, Op::Receive(mode, Stage::Header)),
        NextView::Read { len: 21, secs: o.timeout_sec->0, window },
    )
}

/// The session asks for contents again, with the same request as before.
pub open spec fn asks_again(
    result: (Session, OutputView),
    conn: Connection,
    task: Task,
    stamp: u64,
    o: Options,
) -> bool {
    goes(
        result,
        conn,
        Point::Running(task, Op::Ask(stamp)),
        NextView::Write {
            packet: bare_packet(MessageKind::Sync, stamp),
            secs: o.timeout_sec->0,
            window: Window::Kept,
        },
    )
}

/// A session begins a round anew.
pub open spec fn begins_anew(result: (Session, OutputView), conn: Connection) -> bool {
    goes(result, conn, Point::Round, NextView::Proceed)
}

/// The reckoning of time: a whole exchange lasts three times as long as one piece of it, an
/// interval ends where its length and the random delay have passed, and what cannot be
/// reckoned in 64 bits is not reckoned.
pub proof fn reckoning(o: Options, last: u64, interval: u64, jitter: u32, mode: Mode)
    ensures
        window_secs(o) matches Some(secs) ==> secs == o.timeout_sec->0 * 3,
        window_secs(o) is None <==> o.timeout_sec->0 * 3 > u64::MAX,
        deadline(last, interval, jitter) matches Some(due) ==> due == last + interval + jitter,
        deadline(last, interval, jitter) is None <==> last + interval + jitter > u64::MAX,
        mode == Mode::Serve ==> window_of(mode) == Window::Unbounded,
        mode != Mode::Serve ==> window_of(mode) == Window::Kept,
{
}

/// A request for contents is a packet without content that carries its stamp.
pub proof fn requests_are_bare(stamp: u64)
    ensures
        sync_packet(stamp) == bare_packet(MessageKind::Sync, stamp),
{
}

/// The other side is told of an error with all that the error says, where the clock can be
/// read and that is within the limit, and else is not told.
pub proof fn errors_are_told_whole(e: ErrorView, o: Options, now: Option<u64>)
    ensures
        ({
            let content = encode_utf8(error_text(e));
            let fits = now is Some && content.len() <= o.max_buffer_size->0 as usize;
            let meta = MessageMeta {
                len: (content.len() % 0x1_0000_0000) as u32,
                stamp: now->0,
                kind: MessageKind::Error,
            };
            &&& fits ==> error_packet(e, o, now) == Some(
                packet_bytes(MessageView { meta, content }, machine_order()),
            )
            &&& !fits ==> error_packet(e, o, now) is None
        }),
{
}

/// What a session does when it fails. The connecting side's first handshake may fail, without
/// a word; the other side's first handshake may not, and ends the session. After that a
/// goodbye ends the session and cancels, trouble with the clipboard ends it with a warning,
/// and any other error is told to both sides and cancels; a new round then begins. Nothing
/// that the session remembers changes.
pub proof fn failing(
    conn: Connection,
    task: Task,
    e: ErrorView,
    addr: Seq<char>,
    o: Options,
    now: Option<u64>,
)
    ensures
        ({
            let result = failed(conn, task, e, addr, o, now);
            let (after, output) = result;
            let first = task == Task::Greeting || task == Task::Opening;
            &&& after.conn == conn
            &&& task == Task::Greeting ==> begins_anew(result, conn)
            &&& task == Task::Opening ==> {
                &&& after.point == Point::Finished
                &&& output.next == NextView::Finish
                &&& output.try_write is None
                &&& output.report == Some(fatal(addr, e))
            }
            &&& !first && e == ErrorView::DisconnectedError ==> {
                &&& after.point == Point::Finished
                &&& output.next == NextView::Finish
                &&& output.try_write is None
                &&& output.report == Some(
                    ReportView {
                        level: Level::Info,
                        line: "["@ + addr + "] Client Disconnected!"@,
                        cancel: true,
                    },
                )
            }
            &&& !first && e is ClipboardError ==> {
                &&& after.point == Point::Finished
                &&& output.next == NextView::Finish
                &&& output.try_write is None
                &&& output.report == Some(warning("LOCAL"@, e))
            }
            &&& !first && e != ErrorView::DisconnectedError && e !is ClipboardError ==> {
                &&& after.point == Point::Round
                &&& output.next == NextView::Proceed
                &&& output.try_write == error_packet(e, o, now)
                &&& output.report == Some(fatal(addr, e))
            }
        }),
{
}

/// What a session does when a task is done: a new round begins, unless a keep-alive was
/// overdue besides the sync that is done. Nothing that it remembers changes.
pub proof fn completing(conn: Connection, task: Task)
    ensures
        ({
            let besides = task matches Task::OverdueSync(round) && round.now
                > round.next_keep_alive;
            &&& besides ==> goes(
                completed(conn, task),
                conn,
                Point::StartKeepAlive(Task::OverdueKeepAlive),
                NextView::Proceed,
            )
            &&& !besides ==> begins_anew(completed(conn, task), conn)
        }),
{
}

/// A round in which nothing is overdue is waited out, and the session asks to be woken
/// exactly where each of the two intervals ends, whichever comes first.
pub proof fn waking_is_asked_for_exactly_when_due(
    session: Session,
    addr: Seq<char>,
    o: Options,
    t: Readings,
    j: Jitter,
)
    requires
        session.point == Point::Round,
        t.first is Some,
        session.conn.last_sync + o.sync_interval->0 + j.sync <= u64::MAX,
        session.conn.last_keep_alive + o.keep_alive->0 + j.keep_alive <= u64::MAX,
        t.first->0 <= session.conn.last_sync + o.sync_interval->0 + j.sync,
        t.first->0 <= session.conn.last_keep_alive + o.keep_alive->0 + j.keep_alive,
    ensures
        ({
            let (after, output) = stepped(session, EventView::Proceed, addr, o, t, j);
            &&& after.conn == session.conn
            &&& after.point is Select
            &&& output.try_write is None
            &&& output.report is None
            &&& output.next matches NextView::Select { sync_secs, keep_alive_secs }
            &&& t.first->0 + sync_secs == session.conn.last_sync + o.sync_interval->0 + j.sync
            &&& t.first->0 + keep_alive_secs == session.conn.last_keep_alive + o.keep_alive->0
                + j.keep_alive
        }),
{
}

/// The random delays of a round are below ten seconds: a session asks to be woken no earlier
/// than where each of the two intervals ends, and less than ten seconds later.
pub proof fn delays_are_short(
    session: Session,
    addr: Seq<char>,
    o: Options,
    t: Readings,
    j: Jitter,
)
    requires
        j.keep_alive < TIME_RAND_RANGE,
        j.sync < TIME_RAND_RANGE,
        session.point == Point::Round,
        t.first is Some,
    ensures
        ({
            let conn = session.conn;
            stepped(session, EventView::Proceed, addr, o, t, j).1.next matches NextView::Select {
                sync_secs,
                keep_alive_secs,
            } ==> {
                &&& 0 <= t.first->0 + sync_secs - (conn.last_sync + o.sync_interval->0) < 10
                &&& 0 <= t.first->0 + keep_alive_secs - (conn.last_keep_alive + o.keep_alive->0)
                    < 10
            }
        }),
{
    lemma_stepped(session, EventView::Proceed, addr, o, t, j);
}

/// A round in which something is overdue begins with that, a sync before a keep-alive, and
/// remembers which of the two were. Without a clock that is the error, and where an interval
/// ends beyond reckoning the session cannot go on.
pub proof fn overdue_work_comes_first(
    session: Session,
    addr: Seq<char>,
    o: Options,
    t: Readings,
    j: Jitter,
)
    requires
        session.point == Point::Round,
    ensures
        ({
            let result = stepped(session, EventView::Proceed, addr, o, t, j);
            let conn = session.conn;
            let sync_end = conn.last_sync + o.sync_interval->0 + j.sync;
            let keep_alive_end = conn.last_keep_alive + o.keep_alive->0 + j.keep_alive;
            let reckoned = sync_end <= u64::MAX && keep_alive_end <= u64::MAX;
            &&& t.first is None ==> result == failed(
                conn,
                Task::Serving,
                ErrorView::SystemClockError,
                addr,
                o,
                t.fourth,
            )
            &&& t.first is Some && !reckoned ==> goes(
                result,
                conn,
                Point::Finished,
                NextView::Abort,
            )
            &&& t.first is Some && reckoned && t.first->0 > sync_end ==> {
                &&& result.0.point matches Point::StartSync(Task::OverdueSync(round))
                &&& goes(result, conn, result.0.point, NextView::Proceed)
                &&& round.now > round.next_keep_alive <==> t.first->0 > keep_alive_end
            }
            &&& t.first is Some && reckoned && t.first->0 <= sync_end && t.first->0
                > keep_alive_end ==> goes(
                result,
                conn,
                Point::StartKeepAlive(Task::OverdueKeepAlive),
                NextView::Proceed,
            )
        }),
{
}

/// A request for contents is sent with the time, in a window of its own, and noted as a sign
/// of life and as a sync.
#[verifier::spinoff_prover]
pub proof fn asking_for_contents(
    session: Session,
    task: Task,
    addr: Seq<char>,
    o: Options,
    t: Readings,
    j: Jitter,
)
    requires
        session.point == Point::StartSync(task),
    ensures
        ({
            let result = stepped(session, EventView::Proceed, addr, o, t, j);
            let conn = session.conn;
            let alive = Connection { last_keep_alive: t.second->0, ..conn };
            let noted = Connection { last_sync: t.third->0, ..alive };
            let clock = ErrorView::SystemClockError;
            &&& t.first is None || t.second is None ==> result == failed(
                conn,
                task,
                clock,
                addr,
                o,
                t.fourth,
            )
            &&& t.first is Some && t.second is Some && t.third is None ==> result == failed(
                alive,
                task,
                clock,
                addr,
                o,
                t.fourth,
            )
            &&& t.first is Some && t.second is Some && t.third is Some ==> if o.timeout_sec->0 * 3
                <= u64::MAX {
                goes(
                    result,
                    noted,
                    Point::Running(task, Op::Ask(t.first->0)),
                    NextView::Write {
                        packet: bare_packet(MessageKind::Sync, t.first->0),
                        secs: o.timeout_sec->0,
                        window: Window::Opened((o.timeout_sec->0 * 3) as u64),
                    },
                )
            } else {
                goes(result, noted, Point::Finished, NextView::Abort)
            }
        }),
{
}

/// A keep-alive starts with a handshake that carries the time.
pub proof fn starting_a_keep_alive(
    session: Session,
    task: Task,
    addr: Seq<char>,
    o: Options,
    t: Readings,
    j: Jitter,
)
    requires
        session.point == Point::StartKeepAlive(task),
    ensures
        ({
            let result = stepped(session, EventView::Proceed, addr, o, t, j);
            &&& t.first is None ==> result == failed(
                session.conn,
                task,
                ErrorView::SystemClockError,
                addr,
                o,
                t.fourth,
            )
            &&& t.first is Some ==> goes(
                result,
                session.conn,
                Point::Running(task, Op::Greet),
                NextView::Write {
                    packet: bare_packet(MessageKind::HandShake, t.first->0),
                    secs: o.timeout_sec->0,
                    window: Window::Unbounded,
                },
            )
        }),
{
}

/// Once the handshake of a keep-alive is written, that is noted with the time, and the other
/// side's handshake is awaited in a window of its own.
pub proof fn awaiting_after_a_keep_alive(
    session: Session,
    task: Task,
    addr: Seq<char>,
    o: Options,
    t: Readings,
    j: Jitter,
)
    requires
        session.point == Point::Running(task, Op::Greet),
    ensures
        ({
            let result = stepped(
                session,
                EventView::Wrote(WriteOutcomeView::Written),
                addr,
                o,
                t,
                j,
            );
            let noted = Connection { last_keep_alive: t.first->0, ..session.conn };
            &&& t.first is None ==> result == failed(
                session.conn,
                task,
                ErrorView::SystemClockError,
                addr,
                o,
                t.fourth,
            )
            &&& t.first is Some && o.timeout_sec->0 * 3 <= u64::MAX ==> reads_on(
                result,
                noted,
                task,
                Mode::Expect,
                Window::Opened((o.timeout_sec->0 * 3) as u64),
                o,
            )
            &&& t.first is Some && o.timeout_sec->0 * 3 > u64::MAX ==> goes(
                result,
                noted,
                Point::Finished,
                NextView::Abort,
            )
        }),
{
}

/// Once a request for contents is written, the answer is awaited in the same window; once
/// contents are written, the task is done.
pub proof fn reading_after_writing(
    session: Session,
    task: Task,
    stamp: u64,
    addr: Seq<char>,
    o: Options,
    t: Readings,
    j: Jitter,
)
    ensures
        ({
            let result = stepped(
                session,
                EventView::Wrote(WriteOutcomeView::Written),
                addr,
                o,
                t,
                j,
            );
            &&& session.point == Point::Running(task, Op::Ask(stamp)) ==> reads_on(
                result,
                session.conn,
                task,
                Mode::Answer(stamp),
                Window::Kept,
                o,
            )
            &&& session.point == Point::Running(task, Op::Send) ==> result == completed(
                session.conn,
                task,
            )
        }),
{
}

/// Whatever a session writes, a failure is told with its reason and time that runs out is
/// told as that, and the task fails.
pub proof fn failing_to_write(
    session: Session,
    task: Task,
    op: Op,
    reason: Seq<char>,
    addr: Seq<char>,
    o: Options,
    t: Readings,
    j: Jitter,
)
    requires
        session.point == Point::Running(task, op),
        awaits(session.point, EventView::Wrote(WriteOutcomeView::Elapsed)),
    ensures
        stepped(
            session,
            EventView::Wrote(WriteOutcomeView::Failed(reason)),
            addr,
            o,
            t,
            j,
        ) == failed(
            session.conn,
            task,
            ErrorView::ConnectionError(reason),
            addr,
            o,
            t.fourth,
        ),
        stepped(
            session,
            EventView::Wrote(WriteOutcomeView::Elapsed),
            addr,
            o,
            t,
            j,
        ) == failed(session.conn, task, ErrorView::TimeoutError, addr, o, t.fourth),
{
    match op {
        Op::Receive(mode, stage) => {},
        _ => {},
    }
}

/// Where the time for a whole exchange is over, the task fails for that, whatever it was
/// busy with.
pub proof fn running_out_of_time(
    session: Session,
    task: Task,
    op: Op,
    addr: Seq<char>,
    o: Options,
    t: Readings,
    j: Jitter,
)
    requires
        session.point == Point::Running(task, op),
        awaits(session.point, EventView::WindowElapsed),
    ensures
        stepped(session, EventView::WindowElapsed, addr, o, t, j) == failed(
            session.conn,
            task,
            ErrorView::TimeoutError,
            addr,
            o,
            t.fourth,
        ),
{
    match op {
        Op::Receive(mode, stage) => {},
        _ => {},
    }
}

/// A header that announces content is followed by a request for exactly as many bytes as it
/// announces, in the same window. Whatever is wrong with a header or with content fails the
/// task.
pub proof fn announced_content_is_asked_for(
    session: Session,
    task: Task,
    mode: Mode,
    outcome: ReadOutcomeView,
    meta: MessageMeta,
    addr: Seq<char>,
    o: Options,
    t: Readings,
    j: Jitter,
)
    ensures
        ({
            let result = stepped(session, EventView::Read(outcome), addr, o, t, j);
            let read = header_read(outcome, machine_order());
            let content = body_read(meta, outcome);
            &&& session.point == Point::Running(task, Op::Receive(mode, Stage::Header)) && read
                == Ok::<HeaderReadView, ErrorView>(HeaderReadView::Body(meta)) ==> {
                &&& result.1.next matches NextView::Read { len, secs, window }
                &&& len == meta.len
                &&& secs == o.timeout_sec->0
                &&& window == Window::Unbounded <==> mode == Mode::Serve
                &&& window == Window::Kept <==> mode != Mode::Serve
                &&& goes(
                    result,
                    session.conn,
                    Point::Running(task, Op::Receive(mode, Stage::Body(meta))),
                    result.1.next,
                )
            }
            &&& session.point == Point::Running(task, Op::Receive(mode, Stage::Header)) && read
                is Err ==> result == failed(
                session.conn,
                task,
                read->Err_0,
                addr,
                o,
                t.fourth,
            )
            &&& session.point == Point::Running(task, Op::Receive(mode, Stage::Body(meta)))
                && content is Err ==> result == failed(
                session.conn,
                task,
                content->Err_0,
                addr,
                o,
                t.fourth,
            )
        }),
{
}

/// What is read completes a message: it is a header without content, or the content that was
/// announced.
pub open spec fn brings(stage: Stage, outcome: ReadOutcomeView, msg: MessageView) -> bool {
    match stage {
        Stage::Header => header_read(outcome, machine_order()) == Ok::<HeaderReadView, ErrorView>(
            HeaderReadView::Whole(msg),
        ),
        Stage::Body(meta) => body_read(meta, outcome) == Ok::<MessageView, ErrorView>(msg),
        _ => false,
    }
}

/// A message that is read is taken, whether it had content or not.
proof fn lemma_brought(
    session: Session,
    task: Task,
    mode: Mode,
    stage: Stage,
    outcome: ReadOutcomeView,
    msg: MessageView,
    addr: Seq<char>,
    o: Options,
    t: Readings,
    j: Jitter,
)
    requires
        session.point == Point::Running(task, Op::Receive(mode, stage)),
        brings(stage, outcome, msg),
    ensures
        stepped(session, EventView::Read(outcome), addr, o, t, j) == took(
            session.conn,
            task,
            mode,
            msg,
            addr,
            o,
            t,
        ),
{
}

/// What a session does with a message that comes by itself or in answer to a request: what
/// the message asks for. A reply is written and a command is handed over, in the same window,
/// and what is wrong fails the task. A message that asks for nothing more is the end of a
/// message that came by itself, and of a request if it was contents; else the request is sent
/// again.
#[verifier::spinoff_prover]
pub proof fn serving_messages(
    session: Session,
    task: Task,
    mode: Mode,
    stage: Stage,
    outcome: ReadOutcomeView,
    msg: MessageView,
    addr: Seq<char>,
    o: Options,
    t: Readings,
    j: Jitter,
)
    requires
        session.point == Point::Running(task, Op::Receive(mode, stage)),
        mode != Mode::Expect,
        brings(stage, outcome, msg),
    ensures
        ({
            let result = stepped(session, EventView::Read(outcome), addr, o, t, j);
            let (after, asked) = handled(session.conn, msg, o.max_buffer_size->0, t);
            let contents = msg.meta.kind == MessageKind::Text || msg.meta.kind
                == MessageKind::Image;
            match asked {
                Err(e) => result == failed(after, task, e, addr, o, t.fourth),
                Ok(HandledView::Reply(packet)) => goes(
                    result,
                    after,
                    Point::Running(task, Op::Receive(mode, Stage::Reply)),
                    NextView::Write { packet, secs: o.timeout_sec->0, window: window_of(mode) },
                ),
                Ok(HandledView::Deliver(command)) => goes(
                    result,
                    after,
                    Point::Running(task, Op::Receive(mode, Stage::Deliver(msg.meta.kind))),
                    NextView::Deliver { command, window: window_of(mode) },
                ),
                Ok(HandledView::Done) => match mode {
                    Mode::Answer(stamp) => if contents {
                        result == completed(after, task)
                    } else {
                        asks_again(result, after, task, stamp, o)
                    },
                    _ => result == completed(after, task),
                },
            }
        }),
{
    lemma_brought(session, task, mode, stage, outcome, msg, addr, o, t, j);
}

/// What a session does with a message while it awaits a handshake: a handshake that counts
/// completes the wait, and nothing else does. What any other message asks for is done
/// meanwhile, and the session reads on where it asks for nothing more.
#[verifier::spinoff_prover]
pub proof fn serving_messages_while_awaiting(
    session: Session,
    task: Task,
    stage: Stage,
    outcome: ReadOutcomeView,
    msg: MessageView,
    addr: Seq<char>,
    o: Options,
    t: Readings,
    j: Jitter,
)
    requires
        session.point == Point::Running(task, Op::Receive(Mode::Expect, stage)),
        brings(stage, outcome, msg),
    ensures
        ({
            let result = stepped(session, EventView::Read(outcome), addr, o, t, j);
            let (after, judged) = expected(
                session.conn,
                msg,
                o.allowed_time_diff->0,
                o.max_buffer_size->0,
                t,
            );
            match judged {
                Err(e) => result == failed(after, task, e, addr, o, t.fourth),
                Ok(ExpectedView::HandShake) => result == completed(after, task),
                Ok(ExpectedView::Other(HandledView::Reply(packet))) => goes(
                    result,
                    after,
                    Point::Running(task, Op::Receive(Mode::Expect, Stage::Reply)),
                    NextView::Write { packet, secs: o.timeout_sec->0, window: Window::Kept },
                ),
                Ok(ExpectedView::Other(HandledView::Deliver(command))) => goes(
                    result,
                    after,
                    Point::Running(
                        task,
                        Op::Receive(Mode::Expect, Stage::Deliver(msg.meta.kind)),
                    ),
                    NextView::Deliver { command, window: Window::Kept },
                ),
                Ok(ExpectedView::Other(HandledView::Done)) => reads_on(
                    result,
                    after,
                    task,
                    Mode::Expect,
                    Window::Kept,
                    o,
                ),
            }
        }),
{
    lemma_brought(session, task, Mode::Expect, stage, outcome, msg, addr, o, t, j);
}

/// Once a message is served, by handing its command over or by writing a reply to it, a wait
/// for a handshake goes on in the same window, a request that contents answered is done, one
/// that anything else answered is sent again, and a message that came by itself is done with.
pub proof fn going_on_after_a_message(
    session: Session,
    task: Task,
    mode: Mode,
    kind: MessageKind,
    addr: Seq<char>,
    o: Options,
    t: Readings,
    j: Jitter,
)
    ensures
        ({
            let written = EventView::Wrote(WriteOutcomeView::Written);
            let handed = stepped(session, EventView::Delivered(Ok(())), addr, o, t, j);
            let replied = stepped(session, written, addr, o, t, j);
            let conn = session.conn;
            let contents = kind == MessageKind::Text || kind == MessageKind::Image;
            &&& session.point == Point::Running(task, Op::Receive(mode, Stage::Deliver(kind)))
                ==> match mode {
                Mode::Expect => reads_on(handed, conn, task, mode, Window::Kept, o),
                Mode::Answer(stamp) => if contents {
                    handed == completed(conn, task)
                } else {
                    asks_again(handed, conn, task, stamp, o)
                },
                Mode::Serve => handed == completed(conn, task),
            }
            &&& session.point == Point::Running(task, Op::Receive(mode, Stage::Reply))
                ==> match mode {
                Mode::Expect => reads_on(replied, conn, task, mode, Window::Kept, o),
                Mode::Answer(stamp) => asks_again(replied, conn, task, stamp, o),
                Mode::Serve => replied == completed(conn, task),
            }
        }),
{
}

/// Where a command cannot be handed to the clipboard, the task fails for the reason given.
pub proof fn failing_to_hand_over(
    session: Session,
    task: Task,
    mode: Mode,
    kind: MessageKind,
    reason: Seq<char>,
    addr: Seq<char>,
    o: Options,
    t: Readings,
    j: Jitter,
)
    requires
        session.point == Point::Running(task, Op::Receive(mode, Stage::Deliver(kind))),
    ensures
        stepped(session, EventView::Delivered(Err(reason)), addr, o, t, j) == failed(
            session.conn,
            task,
            ErrorView::ChannelError(reason),
            addr,
            o,
            t.fourth,
        ),
{
}

/// A wait for a handshake never ends well but by a handshake: whatever answers a session that
/// awaits one, if its task is then neither done by an awaited handshake nor failed, the
/// session awaits it still.
#[verifier::spinoff_prover]
pub proof fn only_a_handshake_ends_the_wait(
    session: Session,
    task: Task,
    stage: Stage,
    event: EventView,
    addr: Seq<char>,
    o: Options,
    t: Readings,
    j: Jitter,
)
    requires
        session.point == Point::Running(task, Op::Receive(Mode::Expect, stage)),
        awaits(session.point, event),
    ensures
        ({
            let result = stepped(session, event, addr, o, t, j);
            let shook = exists|outcome: ReadOutcomeView, msg: MessageView|
                {
                    &&& event == EventView::Read(outcome)
                    &&& #[trigger] brings(stage, outcome, msg)
                    &&& msg.meta.kind == MessageKind::HandShake
                };
            let broke = exists|conn: Connection, e: ErrorView|
                result == #[trigger] failed(conn, task, e, addr, o, t.fourth);
            let waits = result.0.point matches Point::Running(
                after,
                Op::Receive(Mode::Expect, _),
            ) && after == task;
            shook || broke || waits
        }),
{
    match (stage, event) {
        (_, EventView::WindowElapsed) => {
            running_out_of_time(session, task, Op::Receive(Mode::Expect, stage), addr, o, t, j);
        },
        (Stage::Header, EventView::Read(outcome)) => {
            match header_read(outcome, machine_order()) {
                Err(e) => {
                    assert(stepped(session, event, addr, o, t, j) == failed(
                        session.conn,
                        task,
                        e,
                        addr,
                        o,
                        t.fourth,
                    ));
                },
                Ok(HeaderReadView::Whole(msg)) => {
                    lemma_wait_goes_on(session, task, stage, outcome, msg, addr, o, t, j);
                },
                Ok(HeaderReadView::Body(meta)) => {},
            }
        },
        (Stage::Body(meta), EventView::Read(outcome)) => {
            match body_read(meta, outcome) {
                Err(e) => {
                    assert(stepped(session, event, addr, o, t, j) == failed(
                        session.conn,
                        task,
                        e,
                        addr,
                        o,
                        t.fourth,
                    ));
                },
                Ok(msg) => {
                    lemma_wait_goes_on(session, task, stage, outcome, msg, addr, o, t, j);
                },
            }
        },
        (Stage::Reply, EventView::Wrote(outcome)) => {
            going_on_after_a_message(
                session,
                task,
                Mode::Expect,
                MessageKind::HandShake,
                addr,
                o,
                t,
                j,
            );
            if let WriteOutcomeView::Failed(reason) = outcome {
                failing_to_write(
                    session,
                    task,
                    Op::Receive(Mode::Expect, stage),
                    reason,
                    addr,
                    o,
                    t,
                    j,
                );
            } else {
                failing_to_write(
                    session,
                    task,
                    Op::Receive(Mode::Expect, stage),
                    Seq::empty(),
                    addr,
                    o,
                    t,
                    j,
                );
            }
        },
        (Stage::Deliver(kind), EventView::Delivered(outcome)) => {
            going_on_after_a_message(session, task, Mode::Expect, kind, addr, o, t, j);
            if let Err(reason) = outcome {
                failing_to_hand_over(
                    session,
                    task,
                    Mode::Expect,
                    kind,
                    reason,
                    addr,
                    o,
                    t,
                    j,
                );
            }
        },
        _ => {},
    }
}

/// A message that is no handshake leaves a wait for one going on, or breaks it.
proof fn lemma_wait_goes_on(
    session: Session,
    task: Task,
    stage: Stage,
    outcome: ReadOutcomeView,
    msg: MessageView,
    addr: Seq<char>,
    o: Options,
    t: Readings,
    j: Jitter,
)
    requires
        session.point == Point::Running(task, Op::Receive(Mode::Expect, stage)),
        brings(stage, outcome, msg),
    ensures
        ({
            let result = stepped(session, EventView::Read(outcome), addr, o, t, j);
            let broke = exists|conn: Connection, e: ErrorView|
                result == #[trigger] failed(conn, task, e, addr, o, t.fourth);
            let waits = result.0.point matches Point::Running(
                after,
                Op::Receive(Mode::Expect, _),
            ) && after == task;
            msg.meta.kind == MessageKind::HandShake || broke || waits
        }),
{
    serving_messages_while_awaiting(session, task, stage, outcome, msg, addr, o, t, j);
}

/// What ends the wait of a round. A session that is cancelled ends, with a goodbye that
/// carries the time where the clock can be read; what falls due is started; a message of the
/// other side is read. Nothing that the session remembers changes.
pub proof fn waking(session: Session, addr: Seq<char>, o: Options, t: Readings, j: Jitter)
    requires
        session.point is Select,
    ensures
        ({
            let conn = session.conn;
            let (after, output) = stepped(session, EventView::Cancelled, addr, o, t, j);
            &&& after.conn == conn
            &&& after.point == Point::Finished
            &&& output.report is None
            &&& output.next == NextView::Finish
            &&& output.try_write == if t.first is Some {
                Some(bare_packet(MessageKind::Disconnect, t.first->0))
            } else {
                None
            }
            &&& goes(
                stepped(session, EventView::SyncDue, addr, o, t, j),
                conn,
                Point::StartSync(Task::Serving),
                NextView::Proceed,
            )
            &&& goes(
                stepped(session, EventView::KeepAliveDue, addr, o, t, j),
                conn,
                Point::StartKeepAlive(Task::Serving),
                NextView::Proceed,
            )
            &&& reads_on(
                stepped(session, EventView::Readable, addr, o, t, j),
                conn,
                Task::Serving,
                Mode::Serve,
                Window::Unbounded,
                o,
            )
        }),
{
}

/// Where the clipboard can have no more commands, or asks for contents itself, the session
/// fails for that.
pub proof fn waking_for_no_contents(
    session: Session,
    reason: Seq<char>,
    addr: Seq<char>,
    o: Options,
    t: Readings,
    j: Jitter,
)
    requires
        session.point is Select,
    ensures
        stepped(session, EventView::Commanded(Err(reason)), addr, o, t, j) == failed(
            session.conn,
            Task::Serving,
            ErrorView::ChannelError(reason),
            addr,
            o,
            t.fourth,
        ),
        stepped(session, EventView::Commanded(Ok(CommandView::Sync)), addr, o, t, j) == failed(
            session.conn,
            Task::Serving,
            ErrorView::UnknownError("Received Sync command from the channel."@),
            addr,
            o,
            t.fourth,
        ),
{
}

/// The contents that a command of the clipboard tells of, as bytes, with their stamp.
pub open spec fn told(command: CommandView) -> (u64, Seq<u8>) {
    match command {
        CommandView::Sync => (0, Seq::empty()),
        CommandView::Text(stamp, text) => (stamp, encode_utf8(text)),
        CommandView::Image(stamp, png) => (stamp, png),
    }
}

/// Contents that the clipboard tells of are written whole, with their stamp, in a packet that
/// says it is a text, and that is noted as a sign of life and as a sync. Contents beyond the
/// limit and a clock that cannot be read are errors.
#[verifier::spinoff_prover]
pub proof fn waking_for_contents(
    session: Session,
    command: CommandView,
    addr: Seq<char>,
    o: Options,
    t: Readings,
    j: Jitter,
)
    requires
        session.point is Select,
        command !is Sync,
    ensures
        ({
            let result = stepped(session, EventView::Commanded(Ok(command)), addr, o, t, j);
            let conn = session.conn;
            let (stamp, content) = told(command);
            let fits = content.len() <= o.max_buffer_size->0 as usize;
            let alive = Connection { last_keep_alive: t.second->0, ..conn };
            let noted = Connection { last_sync: t.third->0, ..alive };
            let meta = MessageMeta {
                len: (content.len() % 0x1_0000_0000) as u32,
                stamp,
                kind: MessageKind::Text,
            };
            let clock = ErrorView::SystemClockError;
            let large = ErrorView::MessageTooLargeError;
            let serving = Task::Serving;
            &&& t.first is None ==> result == failed(conn, serving, clock, addr, o, t.fourth)
            &&& t.first is Some && !fits ==> result == failed(
                conn,
                serving,
                large,
                addr,
                o,
                t.fourth,
            )
            &&& t.first is Some && fits && t.second is None ==> result == failed(
                conn,
                serving,
                clock,
                addr,
                o,
                t.fourth,
            )
            &&& t.first is Some && fits && t.second is Some && t.third is None ==> result
                == failed(alive, serving, clock, addr, o, t.fourth)
            &&& t.first is Some && fits && t.second is Some && t.third is Some ==> goes(
                result,
                noted,
                Point::Running(serving, Op::Send),
                NextView::Write {
                    packet: packet_bytes(MessageView { meta, content }, machine_order()),
                    secs: o.timeout_sec->0,
                    window: Window::Unbounded,
                },
            )
        }),
{
    match command {
        CommandView::Text(stamp, text) => {
            assert(stepped(session, EventView::Commanded(Ok(command)), addr, o, t, j)
                == contents_sent(session.conn, encode_utf8(text), stamp, addr, o, t));
        },
        CommandView::Image(stamp, png) => {
            assert(stepped(session, EventView::Commanded(Ok(command)), addr, o, t, j)
                == contents_sent(session.conn, png, stamp, addr, o, t));
        },
        CommandView::Sync => {},
    }
}

} // verus!
