//! What holds of every listener, and of contents on their way from one clipboard to another.
use vstd::prelude::*;
use vstd::utf8::*;

use crate::clipboard::{
    blank_context, command_of, context_of, state_hash, ContextView, StateView,
};
use crate::error::{fatal, warning, ClipboardFaultView, ErrorView};
use crate::message::{MessageKind, MessageMeta, MessageView};
use crate::options::Options;
use crate::picture::{decoded, encoded, ImageView};
use crate::proto::{handled, CommandView, Connection, HandledView};
use crate::session::{
    stepped, EventView, Jitter, Mode, NextView, Op, Point, Session, Stage, Task,
};
use crate::session_laws::{open_to_all, read_packet, text_travels};
use crate::timestamp::Readings;

use crate::listener::{
    error_report, hears, listened, resting, started, starting, transient, turned, unstarted,
    ActView, ListenerView, Phase, ReactionView, SignalView,
};

verus! {

/// Whether a signal is an answer to the work that a listener asked for.
pub open spec fn answers(act: ActView, signal: SignalView) -> bool {
    match act {
        ActView::Wait { .. } => signal is Poll || signal is Commanded,
        ActView::ReadText => signal is Text,
        ActView::ReadImage => signal matches SignalView::Image(outcome) && (outcome matches Ok(
            image,
        ) ==> image.coherent()),
        ActView::Broadcast(_) => signal is Sent,
        ActView::WriteText(_) | ActView::WriteImage(_) => signal is Written,
        ActView::Retry { .. } | ActView::Stop => false,
    }
}

/// A listener takes exactly the signals that answer the work it asked for.
pub proof fn listener_takes_what_it_asks_for(
    listener: ListenerView,
    signal: SignalView,
    o: Options,
    now: Option<u64>,
    answer: SignalView,
)
    requires
        hears(listener.phase, signal),
    ensures
        ({
            let (after, reaction) = listened(listener, signal, o, now);
            answers(reaction.act, answer) <==> hears(after.phase, answer)
        }),
{
}

/// A listener that starts takes exactly the signals that answer the work it asks for first.
pub proof fn listener_starts_by_asking(o: Options, answer: SignalView)
    ensures
        answers(started(o).1.act, answer) <==> hears(started(o).0.phase, answer),
{
}

/// What is known is either nothing at all, or contents together with their own hash.
pub open spec fn faithful(ctx: ContextView) -> bool {
    ctx == blank_context() || ctx.hash == state_hash(ctx.state)
}

/// A listener never mistakes the hash of what it knows.
pub proof fn context_stays_faithful(
    listener: ListenerView,
    signal: SignalView,
    o: Options,
    now: Option<u64>,
)
    requires
        hears(listener.phase, signal),
        faithful(listener.ctx),
    ensures
        faithful(listened(listener, signal, o, now).0.ctx),
        faithful(started(o).0.ctx),
{
}

/// What is known changes only by contents that come now, and changes whole.
pub proof fn contents_come_with_the_time(
    listener: ListenerView,
    signal: SignalView,
    o: Options,
    now: Option<u64>,
)
    requires
        hears(listener.phase, signal),
    ensures
        ({
            let after = listened(listener, signal, o, now).0.ctx;
            after == listener.ctx || {
                &&& now is Some
                &&& after == context_of(after.state, now->0)
                &&& after.hash != listener.ctx.hash
            }
        }),
{
}

/// Contents that are already known change nothing, neither when they are found nor when the
/// other side brings them.
pub proof fn known_contents_are_ignored(
    listener: ListenerView,
    stamp: u64,
    o: Options,
    now: Option<u64>,
)
    requires
        listener.ctx.hash == state_hash(listener.ctx.state),
    ensures
        match listener.ctx.state {
            StateView::Text(text) => {
                &&& listened(listener, SignalView::Text(Ok(text)), o, now) == resting(
                    listener.ctx,
                    o,
                )
                &&& listened(
                    listener,
                    SignalView::Commanded(Some(CommandView::Text(stamp, text))),
                    o,
                    now,
                ) == resting(listener.ctx, o)
            },
            StateView::Image(png) => {
                &&& forall|image: ImageView|
                    encoded(image) == Ok::<Seq<u8>, ErrorView>(png) ==> #[trigger] listened(
                        listener,
                        SignalView::Image(Ok(image)),
                        o,
                        now,
                    ) == resting(listener.ctx, o)
                &&& listened(
                    listener,
                    SignalView::Commanded(Some(CommandView::Image(stamp, png))),
                    o,
                    now,
                ) == resting(listener.ctx, o)
            },
        },
{
}

/// Contents that were copied no later than what is known changes nothing.
pub proof fn stale_contents_are_ignored(
    listener: ListenerView,
    stamp: u64,
    text: Seq<char>,
    png: Seq<u8>,
    o: Options,
    now: Option<u64>,
)
    requires
        stamp <= listener.ctx.stamp,
    ensures
        listened(
            listener,
            SignalView::Commanded(Some(CommandView::Text(stamp, text))),
            o,
            now,
        ) == resting(listener.ctx, o),
        listened(
            listener,
            SignalView::Commanded(Some(CommandView::Image(stamp, png))),
            o,
            now,
        ) == resting(listener.ctx, o),
{
}

/// A text that is newer than what is known, and another, is written to the system clipboard
/// and known from now on.
pub proof fn newer_text_is_written(
    listener: ListenerView,
    stamp: u64,
    text: Seq<char>,
    o: Options,
    now: Option<u64>,
)
    requires
        stamp > listener.ctx.stamp,
        state_hash(StateView::Text(text)) != listener.ctx.hash,
        now is Some,
    ensures
        listened(
            listener,
            SignalView::Commanded(Some(CommandView::Text(stamp, text))),
            o,
            now,
        ) == turned(
            context_of(StateView::Text(text), now->0),
            Phase::Writing,
            ActView::WriteText(text),
        ),
{
}

/// A picture that is newer than what is known, and another, is written to the system
/// clipboard and known from now on.
pub proof fn newer_picture_is_written(
    listener: ListenerView,
    stamp: u64,
    png: Seq<u8>,
    o: Options,
    now: Option<u64>,
)
    requires
        stamp > listener.ctx.stamp,
        state_hash(StateView::Image(png)) != listener.ctx.hash,
        now is Some,
        decoded(png) is Ok,
    ensures
        listened(
            listener,
            SignalView::Commanded(Some(CommandView::Image(stamp, png))),
            o,
            now,
        ) == turned(
            context_of(StateView::Image(png), now->0),
            Phase::Writing,
            ActView::WriteImage(decoded(png)->Ok_0),
        ),
{
}

/// A text that the other side brought is not sent back when it is found on the system
/// clipboard later.
pub proof fn written_text_is_not_sent_back(
    listener: ListenerView,
    stamp: u64,
    text: Seq<char>,
    o: Options,
    now: Option<u64>,
    later: ListenerView,
    then: Option<u64>,
)
    requires
        stamp > listener.ctx.stamp,
        now is Some,
        later.ctx == listened(
            listener,
            SignalView::Commanded(Some(CommandView::Text(stamp, text))),
            o,
            now,
        ).0.ctx,
    ensures
        listened(later, SignalView::Text(Ok(text)), o, then) == resting(later.ctx, o),
{
}

/// A text that is found and was not known is told to all connections, with the time.
pub proof fn new_text_is_broadcast(
    listener: ListenerView,
    text: Seq<char>,
    o: Options,
    now: Option<u64>,
)
    requires
        listener.phase == Phase::PollText,
        state_hash(StateView::Text(text)) != listener.ctx.hash,
        now is Some,
    ensures
        listened(listener, SignalView::Text(Ok(text)), o, now) == turned(
            context_of(StateView::Text(text), now->0),
            Phase::Sending,
            ActView::Broadcast(CommandView::Text(now->0, text)),
        ),
{
}

/// A picture that is found and was not known is told to all connections, with the time.
pub proof fn new_picture_is_broadcast(
    listener: ListenerView,
    image: ImageView,
    o: Options,
    now: Option<u64>,
)
    requires
        listener.phase == Phase::PollImage,
        encoded(image) is Ok,
        state_hash(StateView::Image(encoded(image)->Ok_0)) != listener.ctx.hash,
        now is Some,
    ensures
        listened(listener, SignalView::Image(Ok(image)), o, now) == turned(
            context_of(StateView::Image(encoded(image)->Ok_0), now->0),
            Phase::Sending,
            ActView::Broadcast(CommandView::Image(now->0, encoded(image)->Ok_0)),
        ),
{
}

/// Contents are told once: finding the same text again tells nobody.
pub proof fn contents_are_broadcast_once(
    listener: ListenerView,
    text: Seq<char>,
    o: Options,
    now: Option<u64>,
    later: ListenerView,
    then: Option<u64>,
)
    requires
        listener.phase == Phase::PollText,
        now is Some,
        later.ctx == listened(listener, SignalView::Text(Ok(text)), o, now).0.ctx,
    ensures
        listened(later, SignalView::Text(Ok(text)), o, then) == resting(later.ctx, o),
{
}

/// While a listener starts, nobody is told of anything.
pub proof fn first_contents_are_not_broadcast(
    listener: ListenerView,
    signal: SignalView,
    o: Options,
    now: Option<u64>,
)
    requires
        hears(listener.phase, signal),
        starting(listener.phase),
    ensures
        listened(listener, signal, o, now).1.act !is Broadcast,
{
}

/// A listener that waits for the other side's contents leaves the system clipboard alone,
/// however often it is time to poll.
pub proof fn blank_clipboard_is_not_polled(listener: ListenerView, o: Options, now: Option<u64>)
    requires
        listener.ctx.stamp == 0,
    ensures
        listened(listener, SignalView::Poll, o, now) == resting(listener.ctx, o),
{
}

/// A request for contents is answered with what is known.
pub proof fn sync_is_answered(listener: ListenerView, o: Options, now: Option<u64>)
    ensures
        listened(listener, SignalView::Commanded(Some(CommandView::Sync)), o, now) == turned(
            listener.ctx,
            Phase::Sending,
            ActView::Broadcast(command_of(listener.ctx)),
        ),
{
}

/// The answer of a side that knows nothing yet is not taken for contents by the other side.
pub proof fn blank_answer_is_not_taken(conn: Connection, max_buffer_size: u64, t: Readings)
    ensures
        command_of(blank_context()) == CommandView::Text(0, ""@),
        forall|meta: MessageMeta, content: Seq<u8>|
            meta.kind == MessageKind::Text && meta.stamp == 0 ==> (#[trigger] handled(
                conn,
                MessageView { meta, content },
                max_buffer_size,
                t,
            ).1 matches Ok(asked) ==> asked == HandledView::Done),
{
}

/// A listener is over exactly when it asks to stop or to start anew. It asks to stop
/// with a report that cancels everything, and no other report of it cancels anything.
pub proof fn listener_stops_with_a_report(
    listener: ListenerView,
    signal: SignalView,
    o: Options,
    now: Option<u64>,
)
    requires
        hears(listener.phase, signal),
    ensures
        ({
            let (after, reaction) = listened(listener, signal, o, now);
            &&& after.phase == Phase::Stopped <==> reaction.act is Stop || reaction.act is Retry
            &&& reaction.act is Stop <==> (reaction.report matches Some(report) && report.cancel)
            &&& reaction.act is Retry ==> starting(listener.phase) && reaction.report is None
        }),
{
}

/// Trouble with the clipboard that passes never ends a listener that has started.
pub proof fn passing_trouble_is_survived(
    listener: ListenerView,
    fault: ClipboardFaultView,
    o: Options,
    now: Option<u64>,
)
    requires
        transient(ErrorView::ClipboardError(fault)),
        !starting(listener.phase),
    ensures
        listened(listener, SignalView::Text(Err(fault)), o, now).0.phase != Phase::Stopped,
        listened(listener, SignalView::Image(Err(fault)), o, now).0.phase == Phase::Idle,
        listened(listener, SignalView::Written(Err(fault)), o, now).0.phase == Phase::Idle,
{
}

/// A text that is copied on one side is written to the clipboard of the other side: it is
/// found there, told to the connection, sent, received, and brought to a listener to which
/// it is new. Both sides know it then.
///
/// The text must be within the limit and short enough for a header, the clocks must be
/// readable, the two sides must have shaken hands where that is awaited, and the other side
/// must not know anything as new or the same text.
pub proof fn copied_text_is_pasted(
    near: ListenerView,
    text: Seq<char>,
    o: Options,
    now: Option<u64>,
    sender: Session,
    addr: Seq<char>,
    t: Readings,
    j: Jitter,
    receiver: Connection,
    task: Task,
    mode: Mode,
    there: Seq<char>,
    o2: Options,
    t2: Readings,
    j2: Jitter,
    far: ListenerView,
    then: Option<u64>,
)
    requires
        near.phase == Phase::PollText,
        state_hash(StateView::Text(text)) != near.ctx.hash,
        now is Some && now->0 > far.ctx.stamp,
        sender.point is Select,
        encode_utf8(text).len() <= o.max_buffer_size->0 as usize,
        encode_utf8(text).len() <= u32::MAX,
        t.first is Some && t.second is Some && t.third is Some,
        open_to_all(receiver, mode),
        t2.first is Some && t2.second is Some,
        far.phase == Phase::Idle,
        state_hash(StateView::Text(text)) != far.ctx.hash,
        then is Some,
    ensures
        ({
            let (near_after, found) = listened(near, SignalView::Text(Ok(text)), o, now);
            let reading = Session {
                conn: receiver,
                point: Point::Running(task, Op::Receive(mode, Stage::Header)),
            };
            &&& found.act matches ActView::Broadcast(told)
            &&& stepped(sender, EventView::Commanded(Ok(told)), addr, o, t, j).1.next
                matches NextView::Write { packet, .. }
            &&& read_packet(reading, packet, there, o2, t2, j2).1.next
                matches NextView::Deliver { command, .. }
            &&& ({
                let (far_after, brought) = listened(
                    far,
                    SignalView::Commanded(Some(command)),
                    o2,
                    then,
                );
                &&& brought.act == ActView::WriteText(text)
                &&& near_after.ctx == context_of(StateView::Text(text), now->0)
                &&& far_after.ctx == context_of(StateView::Text(text), then->0)
            })
        }),
{
    new_text_is_broadcast(near, text, o, now);
    text_travels(
        sender,
        text,
        now->0,
        addr,
        o,
        t,
        j,
        receiver,
        task,
        mode,
        there,
        o2,
        t2,
        j2,
    );
    newer_text_is_written(far, now->0, text, o2, then);
}

/// The listener knows `ctx`, stands in `phase`, says nothing and asks for `act`.
pub open spec fn asks(
    result: (ListenerView, ReactionView),
    ctx: ContextView,
    phase: Phase,
    act: ActView,
) -> bool {
    &&& result.0.ctx == ctx
    &&& result.0.phase == phase
    &&& result.1.report is None
    &&& result.1.act == act
}

/// The listener knows `ctx` and waits until it is time to poll, without a word.
pub open spec fn rests(result: (ListenerView, ReactionView), ctx: ContextView, o: Options) -> bool {
    asks(result, ctx, Phase::Idle, ActView::Wait { ms: o.clipboard_poll_freq_ms->0 })
}

/// The listener knows `ctx`, tells of an error and waits until it is time to poll.
pub open spec fn warns(
    result: (ListenerView, ReactionView),
    ctx: ContextView,
    e: ErrorView,
    o: Options,
) -> bool {
    &&& result.0.ctx == ctx
    &&& result.0.phase == Phase::Idle
    &&& result.1.report == Some(warning("LOCAL"@, e))
    &&& result.1.act == ActView::Wait { ms: o.clipboard_poll_freq_ms->0 }
}

/// The listener tells of an error, which is fatal, and stops.
pub open spec fn gives_up(result: (ListenerView, ReactionView), e: ErrorView) -> bool {
    &&& result.0.phase == Phase::Stopped
    &&& result.1.report == Some(fatal("LOCAL"@, e))
    &&& result.1.act == ActView::Stop
}

/// The listener is to be started anew after the time between polls, without a word.
pub open spec fn starts_anew(result: (ListenerView, ReactionView), o: Options) -> bool {
    &&& result.0.phase == Phase::Stopped
    &&& result.1.report is None
    &&& result.1.act == ActView::Retry { ms: o.clipboard_poll_freq_ms->0 }
}

/// Trouble with the clipboard that may pass: it holds nothing, somebody else holds it, or
/// what it holds cannot be converted.
pub open spec fn may_pass(fault: ClipboardFaultView) -> bool {
    match fault {
        ClipboardFaultView::ContentNotAvailable => true,
        ClipboardFaultView::ClipboardOccupied => true,
        ClipboardFaultView::ConversionFailure => true,
        _ => false,
    }
}

/// A listener starts by waiting where it is told to, and else by reading a text. It knows
/// nothing.
pub proof fn starting_a_listener(o: Options)
    ensures
        o.sync_on_start->0 ==> rests(started(o), blank_context(), o),
        !o.sync_on_start->0 ==> asks(
            started(o),
            blank_context(),
            Phase::StartText,
            ActView::ReadText,
        ),
{
}

/// Where a listener cannot start, it is tried again after the time between polls if the
/// trouble may pass, without a word; any other error is told and fatal.
pub proof fn failing_to_start(e: ErrorView, o: Options)
    ensures
        ({
            let passes = e matches ErrorView::ClipboardError(fault) && may_pass(fault);
            &&& passes ==> unstarted(e, o).report is None && unstarted(e, o).act == ActView::Retry {
                ms: o.clipboard_poll_freq_ms->0,
            }
            &&& !passes ==> unstarted(e, o).report == Some(fatal("LOCAL"@, e)) && unstarted(
                e,
                o,
            ).act == ActView::Stop
        }),
{
}

/// Only trouble with the clipboard that may pass is survived, and is told as a warning; any
/// other error is told as fatal.
pub proof fn judging_errors(e: ErrorView)
    ensures
        ({
            let passes = e matches ErrorView::ClipboardError(fault) && may_pass(fault);
            &&& transient(e) <==> passes
            &&& passes ==> error_report(e) == warning("LOCAL"@, e)
            &&& !passes ==> error_report(e) == fatal("LOCAL"@, e)
        }),
{
}

/// When it is time to poll, a text is read, unless nothing is known yet.
pub proof fn polling(listener: ListenerView, o: Options, now: Option<u64>)
    ensures
        listener.ctx.stamp == 0 ==> rests(
            listened(listener, SignalView::Poll, o, now),
            listener.ctx,
            o,
        ),
        listener.ctx.stamp != 0 ==> asks(
            listened(listener, SignalView::Poll, o, now),
            listener.ctx,
            Phase::PollText,
            ActView::ReadText,
        ),
{
}

/// Where there is no text, or none that can be converted, a picture is read, and what is
/// known stays as it was. Any other trouble with reading a text is judged by whether it may
/// pass; at the start the listener is tried again in place of waiting.
pub proof fn reading_no_text(
    listener: ListenerView,
    fault: ClipboardFaultView,
    o: Options,
    now: Option<u64>,
)
    requires
        listener.phase == Phase::PollText || listener.phase == Phase::StartText,
    ensures
        ({
            let result = listened(listener, SignalView::Text(Err(fault)), o, now);
            let e = ErrorView::ClipboardError(fault);
            let polls = listener.phase == Phase::PollText;
            let absent = fault == ClipboardFaultView::ContentNotAvailable || fault
                == ClipboardFaultView::ConversionFailure;
            &&& result.0.ctx == listener.ctx
            &&& absent && polls ==> asks(
                result,
                listener.ctx,
                Phase::PollImage,
                ActView::ReadImage,
            )
            &&& absent && !polls ==> asks(
                result,
                listener.ctx,
                Phase::StartImage,
                ActView::ReadImage,
            )
            &&& !absent && may_pass(fault) && polls ==> warns(result, listener.ctx, e, o)
            &&& !absent && may_pass(fault) && !polls ==> starts_anew(result, o)
            &&& !may_pass(fault) ==> gives_up(result, e)
        }),
{
}

/// A text that is read and not known is known from then on, with the time, and is told to all
/// connections, except at the start. A known one changes nothing.
pub proof fn reading_a_text(
    listener: ListenerView,
    text: Seq<char>,
    o: Options,
    now: Option<u64>,
)
    requires
        listener.phase == Phase::PollText || listener.phase == Phase::StartText,
    ensures
        ({
            let result = listened(listener, SignalView::Text(Ok(text)), o, now);
            let state = StateView::Text(text);
            let known = state_hash(state) == listener.ctx.hash;
            let news = ContextView { hash: state_hash(state), state, stamp: now->0 };
            &&& known ==> rests(result, listener.ctx, o)
            &&& !known && now is None ==> result.0.ctx == listener.ctx && gives_up(
                result,
                ErrorView::SystemClockError,
            )
            &&& !known && now is Some && listener.phase == Phase::PollText ==> asks(
                result,
                news,
                Phase::Sending,
                ActView::Broadcast(CommandView::Text(now->0, text)),
            )
            &&& !known && now is Some && listener.phase == Phase::StartText ==> rests(
                result,
                news,
                o,
            )
        }),
{
}

/// Where no picture can be read either, or not be made into a file, the trouble is judged by
/// whether it may pass; at the start the listener is tried again in place of waiting. What is
/// known stays as it was.
pub proof fn reading_no_picture(
    listener: ListenerView,
    outcome: Result<ImageView, ClipboardFaultView>,
    fault: ClipboardFaultView,
    o: Options,
    now: Option<u64>,
)
    requires
        listener.phase == Phase::PollImage || listener.phase == Phase::StartImage,
        match outcome {
            Err(f) => f == fault,
            Ok(image) => encoded(image) is Err && fault == ClipboardFaultView::ConversionFailure,
        },
    ensures
        ({
            let result = listened(listener, SignalView::Image(outcome), o, now);
            let e = ErrorView::ClipboardError(fault);
            &&& result.0.ctx == listener.ctx
            &&& may_pass(fault) && listener.phase == Phase::PollImage ==> warns(
                result,
                listener.ctx,
                e,
                o,
            )
            &&& may_pass(fault) && listener.phase == Phase::StartImage ==> starts_anew(result, o)
            &&& !may_pass(fault) ==> gives_up(result, e)
        }),
{
}

/// A picture that is read, made into a file that is not known, is known from then on, with
/// the time, and is told to all connections, except at the start. A known one changes
/// nothing.
pub proof fn reading_a_picture(
    listener: ListenerView,
    image: ImageView,
    png: Seq<u8>,
    o: Options,
    now: Option<u64>,
)
    requires
        listener.phase == Phase::PollImage || listener.phase == Phase::StartImage,
        encoded(image) == Ok::<Seq<u8>, ErrorView>(png),
    ensures
        ({
            let result = listened(listener, SignalView::Image(Ok(image)), o, now);
            let state = StateView::Image(png);
            let known = state_hash(state) == listener.ctx.hash;
            let news = ContextView { hash: state_hash(state), state, stamp: now->0 };
            &&& known ==> rests(result, listener.ctx, o)
            &&& !known && now is None ==> result.0.ctx == listener.ctx && gives_up(
                result,
                ErrorView::SystemClockError,
            )
            &&& !known && now is Some && listener.phase == Phase::PollImage ==> asks(
                result,
                news,
                Phase::Sending,
                ActView::Broadcast(CommandView::Image(now->0, png)),
            )
            &&& !known && now is Some && listener.phase == Phase::StartImage ==> rests(
                result,
                news,
                o,
            )
        }),
{
}

/// A text that a connection brings is written, whole, and known from then on with the time,
/// exactly where it is newer than what is known and not known itself; else nothing happens.
pub proof fn being_brought_a_text(
    listener: ListenerView,
    stamp: u64,
    text: Seq<char>,
    o: Options,
    now: Option<u64>,
)
    ensures
        ({
            let result = listened(
                listener,
                SignalView::Commanded(Some(CommandView::Text(stamp, text))),
                o,
                now,
            );
            let state = StateView::Text(text);
            let wanted = stamp > listener.ctx.stamp && state_hash(state) != listener.ctx.hash;
            let news = ContextView { hash: state_hash(state), state, stamp: now->0 };
            &&& !wanted ==> rests(result, listener.ctx, o)
            &&& wanted && now is None ==> result.0.ctx == listener.ctx && gives_up(
                result,
                ErrorView::SystemClockError,
            )
            &&& wanted && now is Some ==> asks(
                result,
                news,
                Phase::Writing,
                ActView::WriteText(text),
            )
        }),
{
}

/// A file that a connection brings is known from then on with the time, exactly where it is
/// newer than what is known and not known itself; else nothing happens. The picture in it is
/// written, and where there is none, that is told.
pub proof fn being_brought_a_picture(
    listener: ListenerView,
    stamp: u64,
    png: Seq<u8>,
    o: Options,
    now: Option<u64>,
)
    ensures
        ({
            let result = listened(
                listener,
                SignalView::Commanded(Some(CommandView::Image(stamp, png))),
                o,
                now,
            );
            let state = StateView::Image(png);
            let wanted = stamp > listener.ctx.stamp && state_hash(state) != listener.ctx.hash;
            let news = ContextView { hash: state_hash(state), state, stamp: now->0 };
            &&& !wanted ==> rests(result, listener.ctx, o)
            &&& wanted && now is None ==> result.0.ctx == listener.ctx && gives_up(
                result,
                ErrorView::SystemClockError,
            )
            &&& wanted && now is Some && decoded(png) is Ok ==> asks(
                result,
                news,
                Phase::Writing,
                ActView::WriteImage(decoded(png)->Ok_0),
            )
            &&& wanted && now is Some && decoded(png) is Err ==> warns(
                result,
                news,
                ErrorView::ClipboardError(ClipboardFaultView::ConversionFailure),
                o,
            )
        }),
{
}

/// A connection that asks for contents is told what is known, with its stamp, and that stays
/// known. Where no connection can ask any more, the listener stops.
pub proof fn being_asked_for_contents(listener: ListenerView, o: Options, now: Option<u64>)
    ensures
        ({
            let asked = listened(
                listener,
                SignalView::Commanded(Some(CommandView::Sync)),
                o,
                now,
            );
            match listener.ctx.state {
                StateView::Text(text) => asks(
                    asked,
                    listener.ctx,
                    Phase::Sending,
                    ActView::Broadcast(CommandView::Text(listener.ctx.stamp, text)),
                ),
                StateView::Image(png) => asks(
                    asked,
                    listener.ctx,
                    Phase::Sending,
                    ActView::Broadcast(CommandView::Image(listener.ctx.stamp, png)),
                ),
            }
        }),
        gives_up(
            listened(listener, SignalView::Commanded(None), o, now),
            ErrorView::ChannelError("The channel for receiving commands has been closed."@),
        ),
{
}

/// Contents that were told or written are done with. Where nobody can be told, the listener
/// stops; trouble with writing is judged by whether it may pass. What is known stays known.
pub proof fn being_done(
    listener: ListenerView,
    reason: Seq<char>,
    fault: ClipboardFaultView,
    o: Options,
    now: Option<u64>,
)
    ensures
        rests(listened(listener, SignalView::Sent(Ok(())), o, now), listener.ctx, o),
        gives_up(
            listened(listener, SignalView::Sent(Err(reason)), o, now),
            ErrorView::ChannelError(reason),
        ),
        rests(listened(listener, SignalView::Written(Ok(())), o, now), listener.ctx, o),
        may_pass(fault) ==> warns(
            listened(listener, SignalView::Written(Err(fault)), o, now),
            listener.ctx,
            ErrorView::ClipboardError(fault),
            o,
        ),
        !may_pass(fault) ==> gives_up(
            listened(listener, SignalView::Written(Err(fault)), o, now),
            ErrorView::ClipboardError(fault),
        ),
{
}

} // verus!
