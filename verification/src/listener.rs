//! The task that owns the clipboard, as a machine: a [`ClipboardListener`] is told what came
//! of the outside work that it asked for, and answers with the next piece of work. It polls
//! the system clipboard for new contents, tells the connections of them, and writes to the
//! system clipboard what the connections bring.
use vstd::prelude::*;
use vstd::string::*;

use crate::clipboard::{
    blank_context, command_of, fetched, image_set, option_view, outcome_view, text_set, Clipboard,
    ClipboardContext, ClipboardState, ContextView, StateView,
};
use crate::error::{
    fatal, warning, ClipboardFault, ClipboardFaultView, ErrorView, Report, ReportView, UniClipError,
};
use crate::options::{get_option, Options};
use crate::picture::{encode_as_png, encoded, ImageData, ImageView};
use crate::proto::{delivered, reason_view, Command, CommandView};
use crate::timestamp::{is_reading, read_clock};

verus! {

/// Where a listener stands.
#[derive(Debug, Clone, Copy, PartialEq, Eq, Structural)]
pub enum Phase {
    /// It reads a text for the first time.
    StartText,
    /// It reads a picture for the first time.
    StartImage,
    /// It waits for a command, or until it is time to poll.
    Idle,
    /// It polls for a text.
    PollText,
    /// It polls for a picture.
    PollImage,
    /// It tells the connections of contents.
    Sending,
    /// It writes to the system clipboard.
    Writing,
    /// It is over.
    Stopped,
}

/// The clipboard, and where the task that owns it stands.
#[derive(Debug, PartialEq, Eq)]
pub struct ClipboardListener {
    pub clipboard: Clipboard,
    pub phase: Phase,
}

/// The mathematical value of a [`ClipboardListener`].
pub struct ListenerView {
    pub ctx: ContextView,
    pub phase: Phase,
}

impl View for ClipboardListener {
    type V = ListenerView;

    open spec fn view(&self) -> ListenerView {
        ListenerView { ctx: self.clipboard.ctx@, phase: self.phase }
    }
}

/// What a listener is told.
#[derive(Debug, PartialEq, Eq)]
pub enum Signal {
    /// It is time to poll.
    Poll,
    /// A connection has a command, or none can come any more.
    Commanded(Option<Command>),
    /// What came of reading a text from the system clipboard.
    Text(Result<String, ClipboardFault>),
    /// What came of reading a picture from the system clipboard.
    Image(Result<ImageData, ClipboardFault>),
    /// What came of telling the connections: the reason, where it failed.
    Sent(Result<(), String>),
    /// What came of writing to the system clipboard.
    Written(Result<(), ClipboardFault>),
}

/// The mathematical value of a [`Signal`].
pub enum SignalView {
    Poll,
    Commanded(Option<CommandView>),
    Text(Result<Seq<char>, ClipboardFaultView>),
    Image(Result<ImageView, ClipboardFaultView>),
    Sent(Result<(), Seq<char>>),
    Written(Result<(), ClipboardFaultView>),
}

impl View for Signal {
    type V = SignalView;

    open spec fn view(&self) -> SignalView {
        match *self {
            Signal::Poll => SignalView::Poll,
            Signal::Commanded(command) => SignalView::Commanded(option_view(command)),
            Signal::Text(outcome) => SignalView::Text(outcome_view(outcome)),
            Signal::Image(outcome) => SignalView::Image(outcome_view(outcome)),
            Signal::Sent(outcome) => SignalView::Sent(reason_view(outcome)),
            Signal::Written(outcome) => SignalView::Written(outcome_view(outcome)),
        }
    }
}

/// The outside work that a listener asks for.
#[derive(Debug, PartialEq, Eq)]
pub enum Act {
    /// Wait for a command, or this many milliseconds.
    Wait { ms: u64 },
    /// Read a text from the system clipboard.
    ReadText,
    /// Read a picture from the system clipboard.
    ReadImage,
    /// Tell all connections.
    Broadcast(Command),
    /// Write a text to the system clipboard.
    WriteText(String),
    /// Write a picture to the system clipboard.
    WriteImage(ImageData),
    /// Start anew with another listener, after this many milliseconds.
    Retry { ms: u64 },
    /// Stop.
    Stop,
}

/// The mathematical value of an [`Act`].
pub enum ActView {
    Wait { ms: u64 },
    ReadText,
    ReadImage,
    Broadcast(CommandView),
    WriteText(Seq<char>),
    WriteImage(ImageView),
    Retry { ms: u64 },
    Stop,
}

impl View for Act {
    type V = ActView;

    open spec fn view(&self) -> ActView {
        match *self {
            Act::Wait { ms } => ActView::Wait { ms },
            Act::ReadText => ActView::ReadText,
            Act::ReadImage => ActView::ReadImage,
            Act::Broadcast(command) => ActView::Broadcast(command@),
            Act::WriteText(text) => ActView::WriteText(text@),
            Act::WriteImage(image) => ActView::WriteImage(image@),
            Act::Retry { ms } => ActView::Retry { ms },
            Act::Stop => ActView::Stop,
        }
    }
}

/// What a listener answers.
#[derive(Debug, PartialEq, Eq)]
pub struct Reaction {
    /// What to report.
    pub report: Option<Report>,
    /// What to do then.
    pub act: Act,
}

/// The mathematical value of a [`Reaction`].
pub struct ReactionView {
    pub report: Option<ReportView>,
    pub act: ActView,
}

impl View for Reaction {
    type V = ReactionView;

    open spec fn view(&self) -> ReactionView {
        ReactionView { report: option_view(self.report), act: self.act@ }
    }
}

/// Which signals a listener takes, by where it stands. A picture must hold as many bytes as
/// its dimensions say.
pub open spec fn hears(phase: Phase, signal: SignalView) -> bool {
    match phase {
        Phase::StartText | Phase::PollText => signal is Text,
        Phase::StartImage | Phase::PollImage => signal matches SignalView::Image(outcome) && (
        outcome matches Ok(image) ==> image.coherent()),
        Phase::Idle => signal is Poll || signal is Commanded,
        Phase::Sending => signal is Sent,
        Phase::Writing => signal is Written,
        Phase::Stopped => false,
    }
}

/// Errors that pass: the clipboard may be usable a little later.
pub open spec fn transient(e: ErrorView) -> bool {
    ||| e == ErrorView::ClipboardError(ClipboardFaultView::ContentNotAvailable)
    ||| e == ErrorView::ClipboardError(ClipboardFaultView::ClipboardOccupied)
    ||| e == ErrorView::ClipboardError(ClipboardFaultView::ConversionFailure)
}

/// What becomes of an error: those that pass are reported, others are fatal.
pub open spec fn error_report(e: ErrorView) -> ReportView {
    if transient(e) {
        warning("LOCAL"@, e)
    } else {
        fatal("LOCAL"@, e)
    }
}

/// The listener goes to `phase` and asks for `act`.
pub open spec fn turned(ctx: ContextView, phase: Phase, act: ActView) -> (
    ListenerView,
    ReactionView,
) {
    (ListenerView { ctx, phase }, ReactionView { report: None, act })
}

/// The listener waits.
pub open spec fn resting(ctx: ContextView, o: Options) -> (ListenerView, ReactionView) {
    turned(ctx, Phase::Idle, ActView::Wait { ms: o.clipboard_poll_freq_ms->0 })
}

/// What follows an error of a listener that has started: one that passes is reported, and
/// the listener waits; any other stops it.
pub open spec fn troubled(ctx: ContextView, e: ErrorView, o: Options) -> (
    ListenerView,
    ReactionView,
) {
    if transient(e) {
        (
            ListenerView { ctx, phase: Phase::Idle },
            ReactionView {
                report: Some(error_report(e)),
                act: ActView::Wait { ms: o.clipboard_poll_freq_ms->0 },
            },
        )
    } else {
        (
            ListenerView { ctx, phase: Phase::Stopped },
            ReactionView { report: Some(error_report(e)), act: ActView::Stop },
        )
    }
}

/// What to do when a listener cannot start: try again a little later, without a word, if
/// the error passes, and otherwise report it and stop.
pub open spec fn unstarted(e: ErrorView, o: Options) -> ReactionView {
    if transient(e) {
        ReactionView { report: None, act: ActView::Retry { ms: o.clipboard_poll_freq_ms->0 } }
    } else {
        ReactionView { report: Some(fatal("LOCAL"@, e)), act: ActView::Stop }
    }
}

/// The listener is starting.
pub open spec fn starting(phase: Phase) -> bool {
    phase == Phase::StartText || phase == Phase::StartImage
}

/// What follows an error that comes while the listener reads the system clipboard.
pub open spec fn unread(listener: ListenerView, e: ErrorView, o: Options) -> (
    ListenerView,
    ReactionView,
) {
    if starting(listener.phase) {
        (ListenerView { phase: Phase::Stopped, ..listener }, unstarted(e, o))
    } else {
        troubled(listener.ctx, e, o)
    }
}

/// What follows when the listener has read the system clipboard. The connections are told
/// of new contents, but not of those that were there at the start.
pub open spec fn found(
    listener: ListenerView,
    state: StateView,
    o: Options,
    now: Option<u64>,
) -> (ListenerView, ReactionView) {
    match fetched(listener.ctx, state, now) {
        (after, Err(e)) => unread(ListenerView { ctx: after, ..listener }, e, o),
        (after, Ok(None)) => resting(after, o),
        (after, Ok(Some(news))) => if starting(listener.phase) {
            resting(after, o)
        } else {
            turned(after, Phase::Sending, ActView::Broadcast(command_of(news)))
        },
    }
}

/// What follows reading a text: where there is none, a picture is read.
pub open spec fn text_read(
    listener: ListenerView,
    outcome: Result<Seq<char>, ClipboardFaultView>,
    o: Options,
    now: Option<u64>,
) -> (ListenerView, ReactionView) {
    match outcome {
        Ok(text) => found(listener, StateView::Text(text), o, now),
        Err(ClipboardFaultView::ContentNotAvailable) | Err(
            ClipboardFaultView::ConversionFailure,
        ) => turned(
            listener.ctx,
            if starting(listener.phase) {
                Phase::StartImage
            } else {
                Phase::PollImage
            },
            ActView::ReadImage,
        ),
        Err(fault) => unread(listener, ErrorView::ClipboardError(fault), o),
    }
}

/// What follows reading a picture.
pub open spec fn image_read(
    listener: ListenerView,
    outcome: Result<ImageView, ClipboardFaultView>,
    o: Options,
    now: Option<u64>,
) -> (ListenerView, ReactionView) {
    match outcome {
        Ok(image) => match encoded(image) {
            Ok(png) => found(listener, StateView::Image(png), o, now),
            Err(e) => unread(listener, e, o),
        },
        Err(fault) => unread(listener, ErrorView::ClipboardError(fault), o),
    }
}

/// What follows a command of a connection.
pub open spec fn obeyed(
    ctx: ContextView,
    command: CommandView,
    o: Options,
    now: Option<u64>,
) -> (ListenerView, ReactionView) {
    match command {
        CommandView::Sync => turned(ctx, Phase::Sending, ActView::Broadcast(command_of(ctx))),
        CommandView::Text(stamp, text) => match text_set(ctx, text, stamp, now) {
            (after, Ok(Some(text))) => turned(after, Phase::Writing, ActView::WriteText(text)),
            (after, Ok(None)) => resting(after, o),
            (after, Err(e)) => troubled(after, e, o),
        },
        CommandView::Image(stamp, png) => match image_set(ctx, png, stamp, now) {
            (after, Ok(Some(image))) => turned(after, Phase::Writing, ActView::WriteImage(image)),
            (after, Ok(None)) => resting(after, o),
            (after, Err(e)) => troubled(after, e, o),
        },
    }
}

/// What a listener makes of a signal at the time `now`.
pub open spec fn listened(
    listener: ListenerView,
    signal: SignalView,
    o: Options,
    now: Option<u64>,
) -> (ListenerView, ReactionView) {
    match signal {
        SignalView::Poll => if listener.ctx.stamp == 0 {
            resting(listener.ctx, o)
        } else {
            turned(listener.ctx, Phase::PollText, ActView::ReadText)
        },
        SignalView::Commanded(None) => troubled(
            listener.ctx,
            ErrorView::ChannelError("The channel for receiving commands has been closed."@),
            o,
        ),
        SignalView::Commanded(Some(command)) => obeyed(listener.ctx, command, o, now),
        SignalView::Text(outcome) => text_read(listener, outcome, o, now),
        SignalView::Image(outcome) => image_read(listener, outcome, o, now),
        SignalView::Sent(outcome) => match delivered(outcome) {
            Ok(_) => resting(listener.ctx, o),
            Err(e) => troubled(listener.ctx, e, o),
        },
        SignalView::Written(Ok(_)) => resting(listener.ctx, o),
        SignalView::Written(Err(fault)) => troubled(
            listener.ctx,
            ErrorView::ClipboardError(fault),
            o,
        ),
    }
}

/// How a listener starts: by waiting for contents from the other side, or by reading the
/// system clipboard.
pub open spec fn started(o: Options) -> (ListenerView, ReactionView) {
    if o.sync_on_start->0 {
        resting(blank_context(), o)
    } else {
        turned(blank_context(), Phase::StartText, ActView::ReadText)
    }
}

/// Whether the error passes.
fn is_transient(e: &UniClipError) -> (passes: bool)
    ensures
        passes == transient(e@),
{
    match e {
        UniClipError::ClipboardError(fault) => match fault {
            ClipboardFault::ContentNotAvailable
            | ClipboardFault::ClipboardOccupied
            | ClipboardFault::ConversionFailure => true,
            _ => false,
        },
        _ => false,
    }
}

/// The command that tells connections of contents.
fn make_command(ctx: ClipboardContext) -> (command: Command)
    ensures
        command@ == command_of(ctx@),
{
    match ctx.state {
        ClipboardState::Text(text) => Command::Text(ctx.stamp, text),
        ClipboardState::Image(png) => Command::Image(ctx.stamp, png),
    }
}

impl ClipboardListener {
    /// A listener, and the work that it begins with, once the system clipboard was opened.
    pub fn new(backend: Result<(), ClipboardFault>, options: &Options) -> (listener: Result<
        (ClipboardListener, Reaction),
        UniClipError,
    >)
        requires
            options.ready(),
        ensures
            match backend {
                Ok(_) => {
                    &&& listener matches Ok(begun)
                    &&& (begun.0@, begun.1@) == started(*options)
                },
                Err(fault) => {
                    &&& listener matches Err(e)
                    &&& e@ == ErrorView::ClipboardError(fault@)
                },
            },
    {
        if let Err(fault) = backend {
            return Err(UniClipError::ClipboardError(fault));
        }
        let mut listener = ClipboardListener { clipboard: Clipboard::new(), phase: Phase::Idle };
        let reaction = if get_option(&options.sync_on_start) {
            listener.rest(options)
        } else {
            listener.turn(Phase::StartText, Act::ReadText)
        };
        Ok((listener, reaction))
    }

    /// What to do when a listener cannot start.
    pub fn cannot_start(e: UniClipError, options: &Options) -> (reaction: Reaction)
        requires
            options.ready(),
        ensures
            reaction@ == unstarted(e@, *options),
    {
        if is_transient(&e) {
            let ms: u64 = get_option(&options.clipboard_poll_freq_ms);
            Reaction { report: None, act: Act::Retry { ms } }
        } else {
            Reaction { report: Some(e.panic(&"LOCAL".to_owned())), act: Act::Stop }
        }
    }

    /// What becomes of an error: the report of it, and whether the listener goes on.
    pub fn handle_error(e: UniClipError) -> (handling: (Report, bool))
        ensures
            handling.0@ == error_report(e@),
            handling.1 == transient(e@),
    {
        let source = "LOCAL".to_owned();
        if is_transient(&e) {
            (e.report(&source), true)
        } else {
            (e.panic(&source), false)
        }
    }

    /// Whether the listener takes the signal where it stands.
    pub fn takes(&self, signal: &Signal) -> (takes: bool)
        ensures
            takes == hears(self.phase, signal@),
    {
        match self.phase {
            Phase::StartText | Phase::PollText => matches!(signal, Signal::Text(_)),
            Phase::StartImage | Phase::PollImage => match signal {
                Signal::Image(Ok(image)) => image.is_coherent(),
                Signal::Image(Err(_)) => true,
                _ => false,
            },
            Phase::Idle => matches!(signal, Signal::Poll | Signal::Commanded(_)),
            Phase::Sending => matches!(signal, Signal::Sent(_)),
            Phase::Writing => matches!(signal, Signal::Written(_)),
            Phase::Stopped => false,
        }
    }

    fn turn(&mut self, phase: Phase, act: Act) -> (reaction: Reaction)
        ensures
            (final(self)@, reaction@) == turned(old(self)@.ctx, phase, act@),
    {
        self.phase = phase;
        Reaction { report: None, act }
    }

    fn rest(&mut self, options: &Options) -> (reaction: Reaction)
        requires
            options.ready(),
        ensures
            (final(self)@, reaction@) == resting(old(self)@.ctx, *options),
    {
        let ms: u64 = get_option(&options.clipboard_poll_freq_ms);
        self.turn(Phase::Idle, Act::Wait { ms })
    }

    fn trouble(&mut self, e: UniClipError, options: &Options) -> (reaction: Reaction)
        requires
            options.ready(),
        ensures
            (final(self)@, reaction@) == troubled(old(self)@.ctx, e@, *options),
    {
        let (report, goes_on) = Self::handle_error(e);
        if goes_on {
            let ms: u64 = get_option(&options.clipboard_poll_freq_ms);
            self.phase = Phase::Idle;
            Reaction { report: Some(report), act: Act::Wait { ms } }
        } else {
            self.phase = Phase::Stopped;
            Reaction { report: Some(report), act: Act::Stop }
        }
    }

    fn is_starting(&self) -> (yes: bool)
        ensures
            yes == starting(self.phase),
    {
        matches!(self.phase, Phase::StartText | Phase::StartImage)
    }

    fn fail_to_read(&mut self, e: UniClipError, options: &Options) -> (reaction: Reaction)
        requires
            options.ready(),
        ensures
            (final(self)@, reaction@) == unread(old(self)@, e@, *options),
    {
        if self.is_starting() {
            self.phase = Phase::Stopped;
            Self::cannot_start(e, options)
        } else {
            self.trouble(e, options)
        }
    }

    fn find(&mut self, state: ClipboardState, options: &Options, now: Option<u64>) -> (reaction:
        Reaction)
        requires
            options.ready(),
        ensures
            (final(self)@, reaction@) == found(old(self)@, state@, *options, now),
    {
        match self.clipboard.get_at(state, now) {
            Err(e) => self.fail_to_read(e, options),
            Ok(None) => self.rest(options),
            Ok(Some(news)) => if self.is_starting() {
                self.rest(options)
            } else {
                self.turn(Phase::Sending, Act::Broadcast(make_command(news)))
            },
        }
    }

    fn read_text(
        &mut self,
        outcome: Result<String, ClipboardFault>,
        options: &Options,
        now: Option<u64>,
    ) -> (reaction: Reaction)
        requires
            options.ready(),
        ensures
            (final(self)@, reaction@) == text_read(
                old(self)@,
                outcome_view(outcome),
                *options,
                now,
            ),
    {
        match outcome {
            Ok(text) => self.find(ClipboardState::Text(text), options, now),
            Err(fault) => match fault {
                ClipboardFault::ContentNotAvailable | ClipboardFault::ConversionFailure => {
                    let phase = if self.is_starting() {
                        Phase::StartImage
                    } else {
                        Phase::PollImage
                    };
                    self.turn(phase, Act::ReadImage)
                },
                _ => self.fail_to_read(UniClipError::ClipboardError(fault), options),
            },
        }
    }

    fn read_image(
        &mut self,
        outcome: Result<ImageData, ClipboardFault>,
        options: &Options,
        now: Option<u64>,
    ) -> (reaction: Reaction)
        requires
            options.ready(),
            outcome matches Ok(image) ==> image@.coherent(),
        ensures
            (final(self)@, reaction@) == image_read(
                old(self)@,
                outcome_view(outcome),
                *options,
                now,
            ),
    {
        match outcome {
            Ok(image) => match encode_as_png(&image) {
                Ok(png) => self.find(ClipboardState::Image(png), options, now),
                Err(e) => self.fail_to_read(e, options),
            },
            Err(fault) => self.fail_to_read(UniClipError::ClipboardError(fault), options),
        }
    }

    fn obey(&mut self, command: Command, options: &Options, now: Option<u64>) -> (reaction:
        Reaction)
        requires
            options.ready(),
        ensures
            (final(self)@, reaction@) == obeyed(old(self)@.ctx, command@, *options, now),
    {
        match command {
            Command::Sync => {
                let command = make_command(self.clipboard.ctx.clone());
                self.turn(Phase::Sending, Act::Broadcast(command))
            },
            Command::Text(stamp, text) => match self.clipboard.set_text_at(text, stamp, now) {
                Ok(Some(text)) => self.turn(Phase::Writing, Act::WriteText(text)),
                Ok(None) => self.rest(options),
                Err(e) => self.trouble(e, options),
            },
            Command::Image(stamp, png) => match self.clipboard.set_image_at(png, stamp, now) {
                Ok(Some(image)) => self.turn(Phase::Writing, Act::WriteImage(image)),
                Ok(None) => self.rest(options),
                Err(e) => self.trouble(e, options),
            },
        }
    }

    /// What the listener makes of a signal at the time `now`.
    pub fn listen_at(&mut self, signal: Signal, options: &Options, now: Option<u64>) -> (reaction:
        Reaction)
        requires
            options.ready(),
            hears(old(self).phase, signal@),
        ensures
            (final(self)@, reaction@) == listened(old(self)@, signal@, *options, now),
    {
        match signal {
            Signal::Poll => if self.clipboard.ctx.stamp == 0 {
                self.rest(options)
            } else {
                self.turn(Phase::PollText, Act::ReadText)
            },
            Signal::Commanded(None) => self.trouble(
                UniClipError::ChannelError(
                    "The channel for receiving commands has been closed.".to_owned(),
                ),
                options,
            ),
            Signal::Commanded(Some(command)) => self.obey(command, options, now),
            Signal::Text(outcome) => self.read_text(outcome, options, now),
            Signal::Image(outcome) => self.read_image(outcome, options, now),
            Signal::Sent(Ok(_)) => self.rest(options),
            Signal::Sent(Err(reason)) => self.trouble(
                UniClipError::ChannelError(reason),
                options,
            ),
            Signal::Written(Ok(_)) => self.rest(options),
            Signal::Written(Err(fault)) => self.trouble(
                UniClipError::ClipboardError(fault),
                options,
            ),
        }
    }

    /// What the listener makes of a signal.
    pub fn listen(&mut self, signal: Signal, options: &Options) -> (reaction: Reaction)
        requires
            options.ready(),
            hears(old(self).phase, signal@),
        ensures
            exists|now: Option<u64>|
                {
                    &&& is_reading(now)
                    &&& (final(self)@, reaction@) == #[trigger] listened(
                        old(self)@,
                        signal@,
                        *options,
                        now,
                    )
                },
    {
        let now = read_clock();
        self.listen_at(signal, options, now)
    }
}

} // verus!
