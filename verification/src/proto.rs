//! What a connection does with messages: which it sends, how it answers those that come,
//! and what it remembers of them.
use vstd::prelude::*;
use vstd::string::*;
use vstd::utf8::*;

use crate::error::{ErrorView, UniClipError};
use crate::message::{
    new_message, packet_bytes, result_view, Message, MessageKind, MessageMeta, MessageView,
};
use crate::options::{get_option, Options};
use crate::timestamp::{stamp_from, Readings};
use crate::wire::{copy_bytes, machine_order};

verus! {

/// `std::str::Utf8Error`.
#[verifier::external_type_specification]
#[verifier::external_body]
pub struct ExUtf8Error(std::str::Utf8Error);

/// `std::str::from_utf8`: the text that the bytes encode, if they are valid UTF-8, and an
/// error if they are not.
pub assume_specification[ std::str::from_utf8 ](v: &[u8]) -> (text: Result<
    &str,
    std::str::Utf8Error,
>)
    ensures
        text is Ok <==> valid_utf8(v@),
        text matches Ok(s) ==> s@ == decode_utf8(v@),
;

/// What connections and the clipboard tell each other.
#[derive(Debug, PartialEq, Eq)]
pub enum Command {
    /// The other side asks for the contents of the clipboard.
    Sync,
    /// A text, and when it was copied.
    Text(u64, String),
    /// A picture as a PNG file, and when it was copied.
    Image(u64, Vec<u8>),
}

/// The mathematical value of a [`Command`].
pub enum CommandView {
    Sync,
    Text(u64, Seq<char>),
    Image(u64, Seq<u8>),
}

impl View for Command {
    type V = CommandView;

    open spec fn view(&self) -> CommandView {
        match *self {
            Command::Sync => CommandView::Sync,
            Command::Text(stamp, text) => CommandView::Text(stamp, text@),
            Command::Image(stamp, png) => CommandView::Image(stamp, png@),
        }
    }
}

impl Clone for Command {
    fn clone(&self) -> (copy: Self)
        ensures
            copy@ == self@,
    {
        match self {
            Command::Sync => Command::Sync,
            Command::Text(stamp, text) => Command::Text(*stamp, text.clone()),
            Command::Image(stamp, png) => Command::Image(*stamp, copy_bytes(png)),
        }
    }
}

/// What came of writing a packet to the other side.
#[derive(Debug, PartialEq, Eq)]
pub enum WriteOutcome {
    /// All of it was written.
    Written,
    /// Writing failed, for the reason given.
    Failed(String),
    /// It was not written in time.
    Elapsed,
}

/// The mathematical value of a [`WriteOutcome`].
pub enum WriteOutcomeView {
    Written,
    Failed(Seq<char>),
    Elapsed,
}

impl View for WriteOutcome {
    type V = WriteOutcomeView;

    open spec fn view(&self) -> WriteOutcomeView {
        match *self {
            WriteOutcome::Written => WriteOutcomeView::Written,
            WriteOutcome::Failed(reason) => WriteOutcomeView::Failed(reason@),
            WriteOutcome::Elapsed => WriteOutcomeView::Elapsed,
        }
    }
}

/// What writing a packet comes to.
pub open spec fn written(outcome: WriteOutcomeView) -> Result<(), ErrorView> {
    match outcome {
        WriteOutcomeView::Written => Ok(()),
        WriteOutcomeView::Failed(reason) => Err(ErrorView::ConnectionError(reason)),
        WriteOutcomeView::Elapsed => Err(ErrorView::TimeoutError),
    }
}

/// What writing a packet comes to.
pub fn check_written(outcome: WriteOutcome) -> (result: Result<(), UniClipError>)
    ensures
        result_view(result) == written(outcome@),
{
    match outcome {
        WriteOutcome::Written => Ok(()),
        WriteOutcome::Failed(reason) => Err(UniClipError::ConnectionError(reason)),
        WriteOutcome::Elapsed => Err(UniClipError::TimeoutError),
    }
}

/// What came of handing a command to the clipboard: the reason, where it failed.
pub open spec fn delivered(outcome: Result<(), Seq<char>>) -> Result<(), ErrorView> {
    match outcome {
        Ok(_) => Ok(()),
        Err(reason) => Err(ErrorView::ChannelError(reason)),
    }
}

/// The value of an outcome whose failure is a reason.
pub open spec fn reason_view(outcome: Result<(), String>) -> Result<(), Seq<char>> {
    match outcome {
        Ok(_) => Ok(()),
        Err(reason) => Err(reason@),
    }
}

/// What handing a command to the clipboard comes to.
pub fn check_delivered(outcome: Result<(), String>) -> (result: Result<(), UniClipError>)
    ensures
        result_view(result) == delivered(reason_view(outcome)),
{
    match outcome {
        Ok(_) => Ok(()),
        Err(reason) => Err(UniClipError::ChannelError(reason)),
    }
}

/// The packet of a new message, made at the time `now`.
pub open spec fn new_packet(
    kind: MessageKind,
    content: Seq<u8>,
    stamp: Option<u64>,
    max_buffer_size: u64,
    now: Option<u64>,
) -> Result<Seq<u8>, ErrorView> {
    match new_message(kind, content, stamp, max_buffer_size, now) {
        Ok(msg) => Ok(packet_bytes(msg, machine_order())),
        Err(e) => Err(e),
    }
}

/// The packet of a new message, made at the time `now`.
pub fn make_packet(
    kind: MessageKind,
    content: Vec<u8>,
    stamp: Option<u64>,
    options: &Options,
    now: Option<u64>,
) -> (packet: Result<Vec<u8>, UniClipError>)
    requires
        options.ready(),
    ensures
        result_view(packet) == new_packet(
            kind,
            content@,
            stamp,
            options.max_buffer_size->0,
            now,
        ),
{
    match Message::new_at(kind, content, stamp, options, now) {
        Ok(msg) => Ok(msg.to_packet()),
        Err(e) => Err(e),
    }
}

/// What a message that came asks for.
#[derive(Debug, PartialEq, Eq)]
pub enum Handled {
    /// Nothing more.
    Done,
    /// This packet is to be sent in reply.
    Reply(Vec<u8>),
    /// This command is for the clipboard.
    Deliver(Command),
}

/// The mathematical value of a [`Handled`].
pub enum HandledView {
    Done,
    Reply(Seq<u8>),
    Deliver(CommandView),
}

impl View for Handled {
    type V = HandledView;

    open spec fn view(&self) -> HandledView {
        match *self {
            Handled::Done => HandledView::Done,
            Handled::Reply(packet) => HandledView::Reply(packet@),
            Handled::Deliver(command) => HandledView::Deliver(command@),
        }
    }
}

/// What a message that comes while a handshake is awaited amounts to.
#[derive(Debug, PartialEq, Eq)]
pub enum Expected {
    /// It is the handshake.
    HandShake,
    /// It is another message, with what it asks for.
    Other(Handled),
}

/// The mathematical value of an [`Expected`].
pub enum ExpectedView {
    HandShake,
    Other(HandledView),
}

impl View for Expected {
    type V = ExpectedView;

    open spec fn view(&self) -> ExpectedView {
        match *self {
            Expected::HandShake => ExpectedView::HandShake,
            Expected::Other(handled) => ExpectedView::Other(handled@),
        }
    }
}

/// What one side remembers of a connection.
#[derive(Debug, Clone, Copy, PartialEq, Eq, Structural)]
pub struct Connection {
    /// The other side has shaken hands.
    pub initial_handshake_done: bool,
    /// When the other side was last known to be there.
    pub last_keep_alive: u64,
    /// When contents were last exchanged.
    pub last_sync: u64,
}

/// The error of a clock that cannot be read.
pub open spec fn clock_error<T>() -> Result<T, ErrorView> {
    Err(ErrorView::SystemClockError)
}

/// Contents were exchanged: first the one time is noted, then the other.
pub open spec fn touched(conn: Connection, alive: Option<u64>, sync: Option<u64>) -> (
    Connection,
    Result<(), ErrorView>,
) {
    match alive {
        None => (conn, clock_error()),
        Some(last_keep_alive) => {
            let noted = Connection { last_keep_alive, ..conn };
            match sync {
                None => (noted, clock_error()),
                Some(last_sync) => (Connection { last_sync, ..noted }, Ok(())),
            }
        },
    }
}

/// `value` once contents were exchanged, unless the clock cannot be read.
pub open spec fn touched_with<T>(
    conn: Connection,
    alive: Option<u64>,
    sync: Option<u64>,
    value: Result<T, ErrorView>,
) -> (Connection, Result<T, ErrorView>) {
    match touched(conn, alive, sync) {
        (after, Ok(_)) => (after, value),
        (after, Err(e)) => (after, Err(e)),
    }
}

/// The text that an error message carries.
pub open spec fn complaint(content: Seq<u8>) -> Seq<char> {
    if valid_utf8(content) {
        decode_utf8(content)
    } else {
        "Unknown Error - Unable to decode error message."@
    }
}

/// What a text that came asks for: a stamp of zero marks one that is to be ignored.
pub open spec fn incoming_text(stamp: u64, content: Seq<u8>) -> Result<HandledView, ErrorView> {
    if stamp == 0 {
        Ok(HandledView::Done)
    } else if valid_utf8(content) {
        Ok(HandledView::Deliver(CommandView::Text(stamp, decode_utf8(content))))
    } else {
        Err(ErrorView::PacketParseError("Unable to decode UTF-8 text from the client."@))
    }
}

/// How a connection takes a message.
pub open spec fn handled(
    conn: Connection,
    msg: MessageView,
    max_buffer_size: u64,
    t: Readings,
) -> (Connection, Result<HandledView, ErrorView>) {
    match msg.meta.kind {
        MessageKind::HandShake => match t.first {
            None => (conn, clock_error()),
            Some(last_keep_alive) => (
                Connection { last_keep_alive, ..conn },
                match new_packet(
                    MessageKind::HandShake,
                    Seq::empty(),
                    None,
                    max_buffer_size,
                    t.second,
                ) {
                    Ok(packet) => Ok(HandledView::Reply(packet)),
                    Err(e) => Err(e),
                },
            ),
        },
        MessageKind::Error => (conn, Err(ErrorView::ClientError(complaint(msg.content)))),
        MessageKind::Text => touched_with(
            conn,
            t.first,
            t.second,
            incoming_text(msg.meta.stamp, msg.content),
        ),
        MessageKind::Sync => touched_with(
            conn,
            t.first,
            t.second,
            Ok(HandledView::Deliver(CommandView::Sync)),
        ),
        MessageKind::Image => touched_with(
            conn,
            t.first,
            t.second,
            Ok(HandledView::Deliver(CommandView::Image(msg.meta.stamp, msg.content))),
        ),
        MessageKind::Disconnect => (conn, Err(ErrorView::DisconnectedError)),
    }
}

/// How far apart two times are.
pub open spec fn time_between(a: u64, b: u64) -> u64 {
    if a < b {
        (b - a) as u64
    } else {
        (a - b) as u64
    }
}

/// How a connection that awaits a handshake takes a message. A handshake counts only where
/// the two clocks agree closely enough, and nothing else counts before the first handshake.
pub open spec fn expected(
    conn: Connection,
    msg: MessageView,
    allowed_time_diff: u64,
    max_buffer_size: u64,
    t: Readings,
) -> (Connection, Result<ExpectedView, ErrorView>) {
    if msg.meta.kind == MessageKind::HandShake {
        match t.first {
            None => (conn, clock_error()),
            Some(now) => if time_between(now, msg.meta.stamp) > allowed_time_diff {
                (conn, clock_error())
            } else {
                (Connection { initial_handshake_done: true, ..conn }, Ok(ExpectedView::HandShake))
            },
        }
    } else if !conn.initial_handshake_done {
        (conn, Err(ErrorView::PacketParseError("Message received before handshake."@)))
    } else {
        match handled(conn, msg, max_buffer_size, t) {
            (after, Ok(asked)) => (after, Ok(ExpectedView::Other(asked))),
            (after, Err(e)) => (after, Err(e)),
        }
    }
}

/// How a connection sends contents: the packet, unless it cannot be made or the clock
/// cannot be read.
pub open spec fn sent(
    conn: Connection,
    kind: MessageKind,
    content: Seq<u8>,
    stamp: Option<u64>,
    max_buffer_size: u64,
    t: Readings,
) -> (Connection, Result<Seq<u8>, ErrorView>) {
    match new_packet(kind, content, stamp, max_buffer_size, t.first) {
        Err(e) => (conn, Err(e)),
        Ok(packet) => touched_with(conn, t.second, t.third, Ok(packet)),
    }
}

impl Connection {
    /// A connection that has just been made.
    pub open spec fn fresh() -> Connection {
        Connection { initial_handshake_done: false, last_keep_alive: 0, last_sync: 0 }
    }

    /// A connection that has just been made.
    pub fn new() -> (conn: Self)
        ensures
            conn == Connection::fresh(),
    {
        Connection { initial_handshake_done: false, last_keep_alive: 0, last_sync: 0 }
    }

    /// Notes that contents were exchanged.
    fn touch(&mut self, alive: Option<u64>, sync: Option<u64>) -> (result: Result<
        (),
        UniClipError,
    >)
        ensures
            (*final(self), result_view(result)) == touched(*old(self), alive, sync),
    {
        self.last_keep_alive =
        match stamp_from(alive) {
            Ok(now) => now,
            Err(e) => return Err(e),
        };
        self.last_sync =
        match stamp_from(sync) {
            Ok(now) => now,
            Err(e) => return Err(e),
        };
        Ok(())
    }

    /// Takes a message: notes what it tells of the other side, and says what it asks for.
    pub fn handle_msg(&mut self, msg: Message, options: &Options, t: Readings) -> (result: Result<
        Handled,
        UniClipError,
    >)
        requires
            options.ready(),
        ensures
            (*final(self), result_view(result)) == handled(
                *old(self),
                msg@,
                options.max_buffer_size->0,
                t,
            ),
    {
        match msg.meta.kind {
            MessageKind::HandShake => {
                self.last_keep_alive =
                match stamp_from(t.first) {
                    Ok(now) => now,
                    Err(e) => return Err(e),
                };
                match make_packet(MessageKind::HandShake, Vec::new(), None, options, t.second) {
                    Ok(packet) => Ok(Handled::Reply(packet)),
                    Err(e) => Err(e),
                }
            },
            MessageKind::Error => {
                let text = match std::str::from_utf8(msg.content.as_slice()) {
                    Ok(text) => text,
                    Err(_) => "Unknown Error - Unable to decode error message.",
                };
                Err(UniClipError::ClientError(text.to_owned()))
            },
            MessageKind::Text => {
                match self.touch(t.first, t.second) {
                    Ok(_) => (),
                    Err(e) => return Err(e),
                }
                if msg.meta.stamp == 0 {
                    return Ok(Handled::Done);
                }
                match std::str::from_utf8(msg.content.as_slice()) {
                    Ok(text) => Ok(
                        Handled::Deliver(Command::Text(msg.meta.stamp, text.to_owned())),
                    ),
                    Err(_) => Err(
                        UniClipError::PacketParseError(
                            "Unable to decode UTF-8 text from the client.".to_owned(),
                        ),
                    ),
                }
            },
            MessageKind::Sync => match self.touch(t.first, t.second) {
                Ok(_) => Ok(Handled::Deliver(Command::Sync)),
                Err(e) => Err(e),
            },
            MessageKind::Image => match self.touch(t.first, t.second) {
                Ok(_) => Ok(Handled::Deliver(Command::Image(msg.meta.stamp, msg.content))),
                Err(e) => Err(e),
            },
            MessageKind::Disconnect => Err(UniClipError::DisconnectedError),
        }
    }

    /// Takes a message while a handshake is awaited.
    pub fn expect_handshake(&mut self, msg: Message, options: &Options, t: Readings) -> (result:
        Result<Expected, UniClipError>)
        requires
            options.ready(),
        ensures
            (*final(self), result_view(result)) == expected(
                *old(self),
                msg@,
                options.allowed_time_diff->0,
                options.max_buffer_size->0,
                t,
            ),
    {
        if msg.meta.kind == MessageKind::HandShake {
            let now: u64 = match stamp_from(t.first) {
                Ok(now) => now,
                Err(e) => return Err(e),
            };
            let apart: u64 = if now < msg.meta.stamp {
                msg.meta.stamp - now
            } else {
                now - msg.meta.stamp
            };
            if apart > get_option(&options.allowed_time_diff) {
                return Err(UniClipError::SystemClockError);
            }
            self.initial_handshake_done = true;
            return Ok(Expected::HandShake);
        }
        if !self.initial_handshake_done {
            return Err(
                UniClipError::PacketParseError("Message received before handshake.".to_owned()),
            );
        }
        match self.handle_msg(msg, options, t) {
            Ok(asked) => Ok(Expected::Other(asked)),
            Err(e) => Err(e),
        }
    }

    /// The handshake to send, made at the time `now`.
    pub fn send_handshake(options: &Options, now: Option<u64>) -> (packet: Result<
        Vec<u8>,
        UniClipError,
    >)
        requires
            options.ready(),
        ensures
            result_view(packet) == new_packet(
                MessageKind::HandShake,
                Seq::empty(),
                None,
                options.max_buffer_size->0,
                now,
            ),
    {
        make_packet(MessageKind::HandShake, Vec::new(), None, options, now)
    }

    /// Notes that the other side was there at the time `now`.
    pub fn keep_alive(&mut self, now: Option<u64>) -> (result: Result<(), UniClipError>)
        ensures
            match now {
                Some(last_keep_alive) => {
                    &&& *final(self) == (Connection { last_keep_alive, ..*old(self) })
                    &&& result is Ok
                },
                None => {
                    &&& *final(self) == *old(self)
                    &&& result_view(result) == clock_error::<()>()
                },
            },
    {
        match stamp_from(now) {
            Ok(now) => {
                self.last_keep_alive = now;
                Ok(())
            },
            Err(e) => Err(e),
        }
    }

    /// The request for contents to send, and what is noted of sending it.
    pub fn req_sync(&mut self, options: &Options, t: Readings) -> (packet: Result<
        Vec<u8>,
        UniClipError,
    >)
        requires
            options.ready(),
        ensures
            (*final(self), result_view(packet)) == sent(
                *old(self),
                MessageKind::Sync,
                Seq::empty(),
                None,
                options.max_buffer_size->0,
                t,
            ),
    {
        let packet = match make_packet(MessageKind::Sync, Vec::new(), None, options, t.first) {
            Ok(packet) => packet,
            Err(e) => return Err(e),
        };
        match self.touch(t.second, t.third) {
            Ok(_) => Ok(packet),
            Err(e) => Err(e),
        }
    }

    /// The packet that carries a text, and what is noted of sending it.
    pub fn send_text(
        &mut self,
        clipboard: &String,
        stamp: u64,
        options: &Options,
        t: Readings,
    ) -> (packet: Result<Vec<u8>, UniClipError>)
        requires
            options.ready(),
        ensures
            (*final(self), result_view(packet)) == sent(
                *old(self),
                MessageKind::Text,
                encode_utf8(clipboard@),
                Some(stamp),
                options.max_buffer_size->0,
                t,
            ),
    {
        let content = clipboard.as_str().as_bytes_vec();
        let packet = match make_packet(MessageKind::Text, content, Some(stamp), options, t.first) {
            Ok(packet) => packet,
            Err(e) => return Err(e),
        };
        match self.touch(t.second, t.third) {
            Ok(_) => Ok(packet),
            Err(e) => Err(e),
        }
    }

    /// The packet that carries a picture, and what is noted of sending it. The packet says
    /// that it is a text.
    pub fn send_image(
        &mut self,
        clipboard: Vec<u8>,
        stamp: u64,
        options: &Options,
        t: Readings,
    ) -> (packet: Result<Vec<u8>, UniClipError>)
        requires
            options.ready(),
        ensures
            (*final(self), result_view(packet)) == sent(
                *old(self),
                MessageKind::Text,
                clipboard@,
                Some(stamp),
                options.max_buffer_size->0,
                t,
            ),
    {
        let packet = match make_packet(
            MessageKind::Text,
            clipboard,
            Some(stamp),
            options,
            t.first,
        ) {
            Ok(packet) => packet,
            Err(e) => return Err(e),
        };
        match self.touch(t.second, t.third) {
            Ok(_) => Ok(packet),
            Err(e) => Err(e),
        }
    }
}

/// A packet is written exactly where nothing is said of trouble, and the reason of a failure
/// is kept whole. The same holds of handing a command to the clipboard.
pub proof fn trouble_is_told(reason: Seq<char>)
    ensures
        written(WriteOutcomeView::Written) is Ok,
        written(WriteOutcomeView::Failed(reason)) == Err::<(), ErrorView>(
            ErrorView::ConnectionError(reason),
        ),
        written(WriteOutcomeView::Elapsed) == Err::<(), ErrorView>(ErrorView::TimeoutError),
        delivered(Ok(())) is Ok,
        delivered(Err(reason)) == Err::<(), ErrorView>(ErrorView::ChannelError(reason)),
{
}

/// The packet of a message without content, with a kind and a stamp.
pub open spec fn bare_packet(kind: MessageKind, stamp: u64) -> Seq<u8> {
    packet_bytes(
        MessageView { meta: MessageMeta { len: 0, stamp, kind }, content: Seq::empty() },
        machine_order(),
    )
}

/// A packet without content can be made whenever the clock can be read, and carries the time
/// or the stamp that was given.
pub proof fn bare_packets_can_be_made(
    kind: MessageKind,
    stamp: Option<u64>,
    max_buffer_size: u64,
    now: Option<u64>,
)
    ensures
        ({
            let made = new_packet(kind, Seq::empty(), stamp, max_buffer_size, now);
            &&& now is None ==> made == Err::<Seq<u8>, ErrorView>(ErrorView::SystemClockError)
            &&& now is Some && stamp is None ==> made == Ok::<Seq<u8>, ErrorView>(
                bare_packet(kind, now->0),
            )
            &&& now is Some && stamp is Some ==> made == Ok::<Seq<u8>, ErrorView>(
                bare_packet(kind, stamp->0),
            )
        }),
{
}

/// A packet carries all of its content, as long as the content is within the limit, and no
/// packet is made beyond the limit.
pub proof fn packets_carry_their_content(
    kind: MessageKind,
    content: Seq<u8>,
    stamp: Option<u64>,
    max_buffer_size: u64,
    now: u64,
)
    ensures
        ({
            let made = new_packet(kind, content, stamp, max_buffer_size, Some(now));
            &&& content.len() > max_buffer_size as usize ==> made == Err::<Seq<u8>, ErrorView>(
                ErrorView::MessageTooLargeError,
            )
            &&& content.len() <= max_buffer_size as usize ==> made == Ok::<Seq<u8>, ErrorView>(
                packet_bytes(
                    MessageView {
                        meta: MessageMeta {
                            len: (content.len() % 0x1_0000_0000) as u32,
                            stamp: if stamp is Some {
                                stamp->0
                            } else {
                                now
                            },
                            kind,
                        },
                        content,
                    },
                    machine_order(),
                ),
            )
        }),
{
}

/// A handshake that comes is noted with the time, and answered with a handshake that carries
/// the time.
pub proof fn handshakes_are_answered(
    conn: Connection,
    msg: MessageView,
    max_buffer_size: u64,
    t: Readings,
)
    requires
        msg.meta.kind == MessageKind::HandShake,
    ensures
        ({
            let (after, result) = handled(conn, msg, max_buffer_size, t);
            &&& after.initial_handshake_done == conn.initial_handshake_done
            &&& after.last_sync == conn.last_sync
            &&& t.first is None ==> after == conn && result == Err::<HandledView, ErrorView>(
                ErrorView::SystemClockError,
            )
            &&& t.first is Some ==> Some(after.last_keep_alive) == t.first
            &&& t.first is Some && t.second is None ==> result == Err::<HandledView, ErrorView>(
                ErrorView::SystemClockError,
            )
            &&& t.first is Some && t.second is Some ==> result == Ok::<HandledView, ErrorView>(
                HandledView::Reply(bare_packet(MessageKind::HandShake, t.second->0)),
            )
        }),
{
}

/// Contents and requests for contents that come are noted with the time, first as a sign of
/// life and then as a sync. Where the clock cannot be read for one of these, that is the
/// error.
pub proof fn contents_are_noted(
    conn: Connection,
    msg: MessageView,
    max_buffer_size: u64,
    t: Readings,
)
    requires
        msg.meta.kind == MessageKind::Text || msg.meta.kind == MessageKind::Image || msg.meta.kind
            == MessageKind::Sync,
    ensures
        ({
            let (after, result) = handled(conn, msg, max_buffer_size, t);
            &&& after.initial_handshake_done == conn.initial_handshake_done
            &&& after.last_keep_alive == if t.first is Some {
                t.first->0
            } else {
                conn.last_keep_alive
            }
            &&& after.last_sync == if t.first is Some && t.second is Some {
                t.second->0
            } else {
                conn.last_sync
            }
            &&& t.first is None || t.second is None ==> result == Err::<HandledView, ErrorView>(
                ErrorView::SystemClockError,
            )
        }),
{
}

/// Contents that come are for the clipboard, whole and with their stamp; a text without a
/// stamp is for nobody, and bytes that are no text are complained of. A request is for the
/// clipboard.
pub proof fn contents_are_for_the_clipboard(
    conn: Connection,
    msg: MessageView,
    max_buffer_size: u64,
    t: Readings,
)
    requires
        t.first is Some,
        t.second is Some,
    ensures
        ({
            let result = handled(conn, msg, max_buffer_size, t).1;
            let stamp = msg.meta.stamp;
            &&& msg.meta.kind == MessageKind::Sync ==> result == Ok::<HandledView, ErrorView>(
                HandledView::Deliver(CommandView::Sync),
            )
            &&& msg.meta.kind == MessageKind::Image ==> result == Ok::<HandledView, ErrorView>(
                HandledView::Deliver(CommandView::Image(stamp, msg.content)),
            )
            &&& msg.meta.kind == MessageKind::Text ==> {
                &&& stamp == 0 ==> result == Ok::<HandledView, ErrorView>(HandledView::Done)
                &&& stamp != 0 && valid_utf8(msg.content) ==> result == Ok::<
                    HandledView,
                    ErrorView,
                >(HandledView::Deliver(CommandView::Text(stamp, decode_utf8(msg.content))))
                &&& stamp != 0 && !valid_utf8(msg.content) ==> result == Err::<
                    HandledView,
                    ErrorView,
                >(ErrorView::PacketParseError("Unable to decode UTF-8 text from the client."@))
            }
        }),
{
}

/// A goodbye and an error of the other side are errors here, at any time, and change nothing
/// else. An error is passed on as it came, if it is a text.
pub proof fn goodbyes_and_errors_are_errors(
    conn: Connection,
    msg: MessageView,
    max_buffer_size: u64,
    t: Readings,
)
    ensures
        msg.meta.kind == MessageKind::Disconnect ==> handled(conn, msg, max_buffer_size, t) == (
            conn,
            Err::<HandledView, ErrorView>(ErrorView::DisconnectedError),
        ),
        msg.meta.kind == MessageKind::Error && valid_utf8(msg.content) ==> handled(
            conn,
            msg,
            max_buffer_size,
            t,
        ) == (
            conn,
            Err::<HandledView, ErrorView>(ErrorView::ClientError(decode_utf8(msg.content))),
        ),
        msg.meta.kind == MessageKind::Error && !valid_utf8(msg.content) ==> handled(
            conn,
            msg,
            max_buffer_size,
            t,
        ) == (
            conn,
            Err::<HandledView, ErrorView>(
                ErrorView::ClientError("Unknown Error - Unable to decode error message."@),
            ),
        ),
{
}

/// How far apart two times are is what the earlier lacks to be the later, whichever is which.
pub proof fn time_between_is_the_difference(a: u64, b: u64)
    ensures
        time_between(a, b) == time_between(b, a),
        a <= b ==> a + time_between(a, b) == b,
{
}

/// An awaited handshake counts where the clock can be read and shows a time no further from
/// that of the handshake than allowed, before or after. It then changes nothing but that
/// hands have been shaken.
pub proof fn awaited_handshakes_count(
    conn: Connection,
    msg: MessageView,
    allowed_time_diff: u64,
    max_buffer_size: u64,
    t: Readings,
)
    requires
        msg.meta.kind == MessageKind::HandShake,
    ensures
        ({
            let (after, result) = expected(conn, msg, allowed_time_diff, max_buffer_size, t);
            let close = t.first is Some && t.first->0 <= msg.meta.stamp + allowed_time_diff
                && msg.meta.stamp <= t.first->0 + allowed_time_diff;
            &&& after.last_keep_alive == conn.last_keep_alive
            &&& after.last_sync == conn.last_sync
            &&& after.initial_handshake_done == (conn.initial_handshake_done || close)
            &&& close <==> result == Ok::<ExpectedView, ErrorView>(ExpectedView::HandShake)
            &&& !close <==> result == Err::<ExpectedView, ErrorView>(ErrorView::SystemClockError)
        }),
{
}

/// Any other message that comes while a handshake is awaited is an error before hands were
/// first shaken, and is taken like at any other time after that.
pub proof fn other_messages_are_served_meanwhile(
    conn: Connection,
    msg: MessageView,
    allowed_time_diff: u64,
    max_buffer_size: u64,
    t: Readings,
)
    requires
        msg.meta.kind != MessageKind::HandShake,
    ensures
        ({
            let (after, result) = expected(conn, msg, allowed_time_diff, max_buffer_size, t);
            let (served, asked) = handled(conn, msg, max_buffer_size, t);
            &&& !conn.initial_handshake_done ==> after == conn && result == Err::<
                ExpectedView,
                ErrorView,
            >(ErrorView::PacketParseError("Message received before handshake."@))
            &&& conn.initial_handshake_done ==> after == served
            &&& conn.initial_handshake_done && asked is Err ==> result == Err::<
                ExpectedView,
                ErrorView,
            >(asked->Err_0)
            &&& conn.initial_handshake_done && asked is Ok ==> result == Ok::<
                ExpectedView,
                ErrorView,
            >(ExpectedView::Other(asked->Ok_0))
        }),
{
}

/// Whatever is sent is sent as it is, and sending it is noted with the time, first as a sign
/// of life and then as a sync. What cannot be made into a packet is not sent, and nothing is
/// noted.
pub proof fn sending_is_noted(
    conn: Connection,
    kind: MessageKind,
    content: Seq<u8>,
    stamp: Option<u64>,
    max_buffer_size: u64,
    t: Readings,
)
    ensures
        ({
            let (after, result) = sent(conn, kind, content, stamp, max_buffer_size, t);
            let made = new_packet(kind, content, stamp, max_buffer_size, t.first);
            &&& made is Err ==> after == conn && result == Err::<Seq<u8>, ErrorView>(made->Err_0)
            &&& made is Ok ==> {
                &&& after.initial_handshake_done == conn.initial_handshake_done
                &&& after.last_keep_alive == if t.second is Some {
                    t.second->0
                } else {
                    conn.last_keep_alive
                }
                &&& after.last_sync == if t.second is Some && t.third is Some {
                    t.third->0
                } else {
                    conn.last_sync
                }
                &&& t.second is Some && t.third is Some <==> result is Ok
                &&& result is Ok ==> result->Ok_0 == made->Ok_0
                &&& result is Err ==> result->Err_0 == ErrorView::SystemClockError
            }
        }),
{
}

/// A connection that has just been made has not shaken hands, and nothing has happened on it.
pub proof fn fresh_connections_are_blank()
    ensures
        !Connection::fresh().initial_handshake_done,
        Connection::fresh().last_keep_alive == 0,
        Connection::fresh().last_sync == 0,
{
}

} // verus!
