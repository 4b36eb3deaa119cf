//! Messages, and the packets that carry them.
//!
//! A packet is a header of [`META_SIZE`] bytes and then the content. The header holds, in
//! this order: eight magic bytes, the length of the content in four bytes, a time stamp in
//! eight, and the kind of the message in one. Integers stand in the byte order of the
//! machine.
use vstd::prelude::*;

use crate::error::{ErrorView, UniClipError};
use crate::options::{get_option, Options};
use crate::timestamp::{is_reading, read_clock, stamp_from};
use crate::wire::{
    copy_bytes, get_u32, get_u64, machine_order, native_order, put_u32, put_u64, u32_bytes, u32_of,
    u32_round_trip, u32_round_trip_back, u64_bytes, u64_of, u64_round_trip, u64_round_trip_back,
    ByteOrder,
};

verus! {

/// The bytes that every packet starts with: `UNICLIP!`.
pub const MAGIC_BYTES: [u8; 8] = [85, 78, 73, 67, 76, 73, 80, 33];

/// The number of bytes in a header.
pub const META_SIZE: usize = 21;

/// What a message is for.
#[derive(Debug, Clone, Copy, PartialEq, Eq, Structural)]
pub enum MessageKind {
    HandShake,
    Sync,
    Error,
    Text,
    Image,
    Disconnect,
}

impl MessageKind {
    /// The byte that stands for the kind.
    pub open spec fn spec_code(self) -> u8 {
        match self {
            MessageKind::HandShake => 0,
            MessageKind::Sync => 1,
            MessageKind::Error => 2,
            MessageKind::Text => 3,
            MessageKind::Image => 4,
            MessageKind::Disconnect => 5,
        }
    }

    /// Whether messages of this kind may carry content.
    pub open spec fn has_content(self) -> bool {
        self == MessageKind::Text || self == MessageKind::Image
    }

    /// The byte that stands for the kind.
    pub fn code(self) -> (code: u8)
        ensures
            code == self.spec_code(),
    {
        match self {
            MessageKind::HandShake => 0,
            MessageKind::Sync => 1,
            MessageKind::Error => 2,
            MessageKind::Text => 3,
            MessageKind::Image => 4,
            MessageKind::Disconnect => 5,
        }
    }

    /// The kind that a byte stands for, if it stands for one.
    pub open spec fn spec_from_code(code: u8) -> Option<MessageKind> {
        if code == 0 {
            Some(MessageKind::HandShake)
        } else if code == 1 {
            Some(MessageKind::Sync)
        } else if code == 2 {
            Some(MessageKind::Error)
        } else if code == 3 {
            Some(MessageKind::Text)
        } else if code == 4 {
            Some(MessageKind::Image)
        } else if code == 5 {
            Some(MessageKind::Disconnect)
        } else {
            None
        }
    }

    /// The kind that a byte stands for, if it stands for one.
    pub fn from_code(code: u8) -> (kind: Option<MessageKind>)
        ensures
            kind == MessageKind::spec_from_code(code),
    {
        match code {
            0 => Some(MessageKind::HandShake),
            1 => Some(MessageKind::Sync),
            2 => Some(MessageKind::Error),
            3 => Some(MessageKind::Text),
            4 => Some(MessageKind::Image),
            5 => Some(MessageKind::Disconnect),
            _ => None,
        }
    }
}

/// What a header says. The magic bytes are the same in each and are not kept.
#[derive(Debug, Clone, Copy, PartialEq, Eq, Structural)]
pub struct MessageMeta {
    /// The length of the content.
    pub len: u32,
    /// When the message or its content was made.
    pub stamp: u64,
    pub kind: MessageKind,
}

/// The header that says what `meta` says, its integers in the given order.
pub open spec fn meta_bytes(meta: MessageMeta, order: ByteOrder) -> Seq<u8> {
    MAGIC_BYTES@ + u32_bytes(meta.len, order) + u64_bytes(meta.stamp, order)
        + seq![meta.kind.spec_code()]
}

/// What a header of [`META_SIZE`] bytes says. A byte that stands for no kind is found
/// before wrong magic bytes are.
pub open spec fn parsed_meta(header: Seq<u8>, order: ByteOrder) -> Result<MessageMeta, ErrorView> {
    match MessageKind::spec_from_code(header[20]) {
        None => Err(
            ErrorView::PacketParseError(
                "The conversion failed because the source bytes are not a valid value of the destination type."@,
            ),
        ),
        Some(kind) => if header.subrange(0, 8) != MAGIC_BYTES@ {
            Err(ErrorView::PacketParseError("Magic value mismatch!"@))
        } else {
            Ok(
                MessageMeta {
                    len: u32_of(header.subrange(8, 12), order),
                    stamp: u64_of(header.subrange(12, 20), order),
                    kind,
                },
            )
        },
    }
}

/// A message.
#[derive(Debug, PartialEq, Eq)]
pub struct Message {
    pub meta: MessageMeta,
    pub content: Vec<u8>,
}

/// The mathematical value of a [`Message`].
pub struct MessageView {
    pub meta: MessageMeta,
    pub content: Seq<u8>,
}

impl View for Message {
    type V = MessageView;

    open spec fn view(&self) -> MessageView {
        MessageView { meta: self.meta, content: self.content@ }
    }
}

/// The packet that carries a message, its integers in the given order.
pub open spec fn packet_bytes(msg: MessageView, order: ByteOrder) -> Seq<u8> {
    meta_bytes(msg.meta, order) + msg.content
}

/// What making a message gives: a clock that cannot be read is an error even where the
/// stamp is given, then content beyond the limit is one. A length that does not fit the
/// header is cut to its low 32 bits.
pub open spec fn new_message(
    kind: MessageKind,
    content: Seq<u8>,
    stamp: Option<u64>,
    max_buffer_size: u64,
    now: Option<u64>,
) -> Result<MessageView, ErrorView> {
    if now is None {
        Err(ErrorView::SystemClockError)
    } else if content.len() > (max_buffer_size as usize) {
        Err(ErrorView::MessageTooLargeError)
    } else {
        Ok(
            MessageView {
                meta: MessageMeta {
                    len: (content.len() % 0x1_0000_0000) as u32,
                    stamp: match stamp {
                        Some(given) => given,
                        None => now->0,
                    },
                    kind,
                },
                content,
            },
        )
    }
}

/// What came of waiting for a number of bytes from the other side.
#[derive(Debug, PartialEq, Eq)]
pub enum ReadOutcome {
    /// These bytes came.
    Received(Vec<u8>),
    /// Reading failed, for the reason given.
    Failed(String),
    /// Nothing came in time.
    Elapsed,
}

/// The mathematical value of a [`ReadOutcome`].
pub enum ReadOutcomeView {
    Received(Seq<u8>),
    Failed(Seq<char>),
    Elapsed,
}

impl View for ReadOutcome {
    type V = ReadOutcomeView;

    open spec fn view(&self) -> ReadOutcomeView {
        match *self {
            ReadOutcome::Received(bytes) => ReadOutcomeView::Received(bytes@),
            ReadOutcome::Failed(reason) => ReadOutcomeView::Failed(reason@),
            ReadOutcome::Elapsed => ReadOutcomeView::Elapsed,
        }
    }
}

/// The `wanted` bytes, or why they are not there.
pub open spec fn received(outcome: ReadOutcomeView, wanted: int) -> Result<Seq<u8>, ErrorView> {
    match outcome {
        ReadOutcomeView::Received(bytes) => if bytes.len() == 0 {
            Err(ErrorView::DisconnectedError)
        } else if bytes.len() != wanted {
            Err(ErrorView::PacketParseError("Incomplete message received."@))
        } else {
            Ok(bytes)
        },
        ReadOutcomeView::Failed(reason) => Err(ErrorView::IOError(reason)),
        ReadOutcomeView::Elapsed => Err(ErrorView::TimeoutError),
    }
}

/// Where reading a message stands once its header is there.
#[derive(Debug, PartialEq, Eq)]
pub enum HeaderRead {
    /// The message has no content: it is there.
    Whole(Message),
    /// The content is still to be read.
    Body(MessageMeta),
}

/// The mathematical value of a [`HeaderRead`].
pub enum HeaderReadView {
    Whole(MessageView),
    Body(MessageMeta),
}

impl View for HeaderRead {
    type V = HeaderReadView;

    open spec fn view(&self) -> HeaderReadView {
        match *self {
            HeaderRead::Whole(msg) => HeaderReadView::Whole(msg@),
            HeaderRead::Body(meta) => HeaderReadView::Body(meta),
        }
    }
}

/// What reading a header comes to. Only texts and images may announce content.
pub open spec fn header_read(outcome: ReadOutcomeView, order: ByteOrder) -> Result<
    HeaderReadView,
    ErrorView,
> {
    match received(outcome, META_SIZE as int) {
        Err(e) => Err(e),
        Ok(header) => match parsed_meta(header, order) {
            Err(e) => Err(e),
            Ok(meta) => if meta.len == 0 {
                Ok(HeaderReadView::Whole(MessageView { meta, content: Seq::empty() }))
            } else if meta.kind.has_content() {
                Ok(HeaderReadView::Body(meta))
            } else {
                Err(
                    ErrorView::PacketParseError(
                        "Non-empty data received in control messages."@,
                    ),
                )
            },
        },
    }
}

/// What reading the content that `meta` announces comes to.
pub open spec fn body_read(meta: MessageMeta, outcome: ReadOutcomeView) -> Result<
    MessageView,
    ErrorView,
> {
    match received(outcome, meta.len as int) {
        Err(e) => Err(e),
        Ok(content) => Ok(MessageView { meta, content }),
    }
}

/// A result as its mathematical value.
pub open spec fn result_view<T: View>(r: Result<T, UniClipError>) -> Result<T::V, ErrorView> {
    match r {
        Ok(value) => Ok(value@),
        Err(e) => Err(e@),
    }
}

impl Message {
    /// What a header says, its integers in the given order.
    pub fn parse_meta(header: &[u8], order: ByteOrder) -> (meta: Result<MessageMeta, UniClipError>)
        requires
            header@.len() == META_SIZE,
        ensures
            match meta {
                Ok(m) => parsed_meta(header@, order) == Ok::<MessageMeta, ErrorView>(m),
                Err(e) => parsed_meta(header@, order) == Err::<MessageMeta, ErrorView>(e@),
            },
    {
        let kind = match MessageKind::from_code(header[20]) {
            Some(kind) => kind,
            None => return Err(
                UniClipError::PacketParseError(
                    "The conversion failed because the source bytes are not a valid value of the destination type.".to_owned(),
                ),
            ),
        };
        let mut i: usize = 0;
        while i < 8
            invariant
                i <= 8,
                header@.len() == META_SIZE,
                MessageKind::spec_from_code(header@[20]) == Some(kind),
                header@.subrange(0, i as int) == MAGIC_BYTES@.subrange(0, i as int),
            decreases 8 - i,
        {
            if header[i] != MAGIC_BYTES[i] {
                proof {
                    assert(header@.subrange(0, 8)[i as int] != MAGIC_BYTES@[i as int]);
                }
                return Err(UniClipError::PacketParseError("Magic value mismatch!".to_owned()));
            }
            i = i + 1;
            proof {
                assert(header@.subrange(0, i as int) =~= MAGIC_BYTES@.subrange(0, i as int));
            }
        }
        assert(MAGIC_BYTES@.subrange(0, 8) =~= MAGIC_BYTES@);
        Ok(MessageMeta { len: get_u32(header, 8, order), stamp: get_u64(header, 12, order), kind })
    }

    /// The `wanted` bytes, or why they are not there.
    fn receive(outcome: ReadOutcome, wanted: usize) -> (bytes: Result<Vec<u8>, UniClipError>)
        ensures
            result_view(bytes) == received(outcome@, wanted as int),
    {
        match outcome {
            ReadOutcome::Received(bytes) => if bytes.len() == 0 {
                Err(UniClipError::DisconnectedError)
            } else if bytes.len() != wanted {
                Err(UniClipError::PacketParseError("Incomplete message received.".to_owned()))
            } else {
                Ok(bytes)
            },
            ReadOutcome::Failed(reason) => Err(UniClipError::IOError(reason)),
            ReadOutcome::Elapsed => Err(UniClipError::TimeoutError),
        }
    }

    /// Takes what came for a header, whose integers are in the given order.
    pub fn read_header_in(outcome: ReadOutcome, order: ByteOrder) -> (read: Result<
        HeaderRead,
        UniClipError,
    >)
        ensures
            result_view(read) == header_read(outcome@, order),
    {
        let header = match Message::receive(outcome, META_SIZE) {
            Ok(header) => header,
            Err(e) => return Err(e),
        };
        let meta = match Message::parse_meta(header.as_slice(), order) {
            Ok(meta) => meta,
            Err(e) => return Err(e),
        };
        if meta.len == 0 {
            let content: Vec<u8> = Vec::new();
            Ok(HeaderRead::Whole(Message { meta, content }))
        } else if meta.kind == MessageKind::Text || meta.kind == MessageKind::Image {
            Ok(HeaderRead::Body(meta))
        } else {
            Err(
                UniClipError::PacketParseError(
                    "Non-empty data received in control messages.".to_owned(),
                ),
            )
        }
    }

    /// Takes what came for a header.
    pub fn read_header(outcome: ReadOutcome) -> (read: Result<HeaderRead, UniClipError>)
        ensures
            result_view(read) == header_read(outcome@, machine_order()),
    {
        Message::read_header_in(outcome, native_order())
    }

    /// Takes what came for the content that `meta` announces.
    pub fn read_body(meta: MessageMeta, outcome: ReadOutcome) -> (msg: Result<Self, UniClipError>)
        ensures
            result_view(msg) == body_read(meta, outcome@),
    {
        match Message::receive(outcome, meta.len as usize) {
            Ok(content) => Ok(Message { meta, content }),
            Err(e) => Err(e),
        }
    }

    /// Makes a message at the time `now`, a reading of the clock.
    pub fn new_at(
        kind: MessageKind,
        content: Vec<u8>,
        stamp: Option<u64>,
        options: &Options,
        now: Option<u64>,
    ) -> (msg: Result<Self, UniClipError>)
        requires
            options.ready(),
        ensures
            result_view(msg) == new_message(
                kind,
                content@,
                stamp,
                options.max_buffer_size->0,
                now,
            ),
    {
        let now: u64 = match stamp_from(now) {
            Ok(secs) => secs,
            Err(e) => return Err(e),
        };
        let msg_stamp: u64 = match stamp {
            Some(given) => given,
            None => now,
        };
        let limit: usize = get_option(&options.max_buffer_size) as usize;
        if content.len() > limit {
            return Err(UniClipError::MessageTooLargeError);
        }
        let len: u32 = (content.len() as u64 % 0x1_0000_0000) as u32;
        Ok(Message { meta: MessageMeta { len, stamp: msg_stamp, kind }, content })
    }

    /// Makes a message, stamped with the current time unless a stamp is given.
    pub fn new(
        kind: MessageKind,
        content: Vec<u8>,
        stamp: Option<u64>,
        options: &Options,
    ) -> (msg: Result<Self, UniClipError>)
        requires
            options.ready(),
        ensures
            exists|now: Option<u64>|
                {
                    &&& is_reading(now)
                    &&& result_view(msg) == #[trigger] new_message(
                        kind,
                        content@,
                        stamp,
                        options.max_buffer_size->0,
                        now,
                    )
                },
    {
        Message::new_at(kind, content, stamp, options, read_clock())
    }

    /// The packet that carries the message, its integers in the given order.
    pub fn to_packet_in(&self, order: ByteOrder) -> (packet: Vec<u8>)
        ensures
            packet@ == packet_bytes(self@, order),
    {
        let mut packet: Vec<u8> = Vec::new();
        let mut i: usize = 0;
        while i < 8
            invariant
                i <= 8,
                packet@ == MAGIC_BYTES@.subrange(0, i as int),
            decreases 8 - i,
        {
            packet.push(MAGIC_BYTES[i]);
            i = i + 1;
        }
        put_u32(&mut packet, self.meta.len, order);
        put_u64(&mut packet, self.meta.stamp, order);
        packet.push(self.meta.kind.code());
        assert(packet@ =~= meta_bytes(self.meta, order));
        let mut content = copy_bytes(&self.content);
        packet.append(&mut content);
        packet
    }

    /// The packet that carries the message.
    pub fn to_packet(&self) -> (packet: Vec<u8>)
        ensures
            packet@ == packet_bytes(self@, machine_order()),
    {
        self.to_packet_in(native_order())
    }
}

/// The parts of a header.
proof fn lemma_meta_parts(meta: MessageMeta, order: ByteOrder)
    ensures
        meta_bytes(meta, order).len() == META_SIZE,
        meta_bytes(meta, order).subrange(0, 8) == MAGIC_BYTES@,
        meta_bytes(meta, order).subrange(8, 12) == u32_bytes(meta.len, order),
        meta_bytes(meta, order).subrange(12, 20) == u64_bytes(meta.stamp, order),
        meta_bytes(meta, order)[20] == meta.kind.spec_code(),
{
    u32_round_trip(meta.len, order);
    u64_round_trip(meta.stamp, order);
    let b = meta_bytes(meta, order);
    assert(b.subrange(0, 8) =~= MAGIC_BYTES@);
    assert(b.subrange(8, 12) =~= u32_bytes(meta.len, order));
    assert(b.subrange(12, 20) =~= u64_bytes(meta.stamp, order));
}

/// A header says what it was made to say.
pub proof fn meta_round_trip(meta: MessageMeta, order: ByteOrder)
    ensures
        meta_bytes(meta, order).len() == META_SIZE,
        parsed_meta(meta_bytes(meta, order), order) == Ok::<MessageMeta, ErrorView>(meta),
{
    lemma_meta_parts(meta, order);
    u32_round_trip(meta.len, order);
    u64_round_trip(meta.stamp, order);
}

/// A header that says something is the header made to say that: no two headers say the
/// same.
pub proof fn meta_round_trip_back(header: Seq<u8>, order: ByteOrder)
    requires
        header.len() == META_SIZE,
        parsed_meta(header, order) is Ok,
    ensures
        meta_bytes(parsed_meta(header, order)->Ok_0, order) == header,
{
    u32_round_trip_back(header.subrange(8, 12), order);
    u64_round_trip_back(header.subrange(12, 20), order);
    let meta = parsed_meta(header, order)->Ok_0;
    lemma_meta_parts(meta, order);
    assert(header.subrange(0, 8) + header.subrange(8, 12) + header.subrange(12, 20) + seq![
        header[20],
    ] =~= header);
}

/// What is written is what is read: the packet of a message, read back as a header and
/// then as content, gives the message. The length in its header must be that of its
/// content, and only texts and images may have content.
pub proof fn packet_round_trip(msg: MessageView, order: ByteOrder)
    requires
        msg.meta.len == msg.content.len(),
        msg.meta.kind.has_content() || msg.content.len() == 0,
    ensures
        ({
            let packet = packet_bytes(msg, order);
            let head = ReadOutcomeView::Received(packet.subrange(0, META_SIZE as int));
            let rest = packet.subrange(META_SIZE as int, packet.len() as int);
            &&& rest == msg.content
            &&& if msg.content.len() == 0 {
                header_read(head, order) == Ok::<HeaderReadView, ErrorView>(
                    HeaderReadView::Whole(msg),
                )
            } else {
                &&& header_read(head, order) == Ok::<HeaderReadView, ErrorView>(
                    HeaderReadView::Body(msg.meta),
                )
                &&& body_read(msg.meta, ReadOutcomeView::Received(rest)) == Ok::<
                    MessageView,
                    ErrorView,
                >(msg)
            }
        }),
{
    meta_round_trip(msg.meta, order);
    let packet = packet_bytes(msg, order);
    assert(packet.subrange(0, META_SIZE as int) =~= meta_bytes(msg.meta, order));
    assert(packet.subrange(META_SIZE as int, packet.len() as int) =~= msg.content);
    assert(msg.content.len() == 0 ==> msg.content =~= Seq::<u8>::empty());
}

/// A message that was made has the length of its content in its header, unless the content
/// is too long for the header to hold that length.
pub proof fn new_message_length(
    kind: MessageKind,
    content: Seq<u8>,
    stamp: Option<u64>,
    max_buffer_size: u64,
    now: Option<u64>,
)
    requires
        content.len() <= u32::MAX,
        new_message(kind, content, stamp, max_buffer_size, now) is Ok,
    ensures
        ({
            let msg = new_message(kind, content, stamp, max_buffer_size, now)->Ok_0;
            &&& msg.meta.len == msg.content.len()
            &&& msg.content == content
            &&& msg.meta.kind == kind
        }),
{
}

/// A control message with content never gets through: whoever reads its header refuses it.
pub proof fn control_content_is_refused(meta: MessageMeta, order: ByteOrder)
    requires
        !meta.kind.has_content(),
        meta.len != 0,
    ensures
        header_read(ReadOutcomeView::Received(meta_bytes(meta, order)), order) == Err::<
            HeaderReadView,
            ErrorView,
        >(ErrorView::PacketParseError("Non-empty data received in control messages."@)),
{
    meta_round_trip(meta, order);
}

/// What stands where in a packet.
pub proof fn packet_layout(msg: MessageView, order: ByteOrder)
    ensures
        ({
            let packet = packet_bytes(msg, order);
            let kind = msg.meta.kind;
            &&& packet.len() == 21 + msg.content.len()
            &&& packet.subrange(0, 8) == seq![85u8, 78u8, 73u8, 67u8, 76u8, 73u8, 80u8, 33u8]
            &&& packet.subrange(8, 12) == u32_bytes(msg.meta.len, order)
            &&& packet.subrange(12, 20) == u64_bytes(msg.meta.stamp, order)
            &&& packet[20] == 0 <==> kind == MessageKind::HandShake
            &&& packet[20] == 1 <==> kind == MessageKind::Sync
            &&& packet[20] == 2 <==> kind == MessageKind::Error
            &&& packet[20] == 3 <==> kind == MessageKind::Text
            &&& packet[20] == 4 <==> kind == MessageKind::Image
            &&& packet[20] == 5 <==> kind == MessageKind::Disconnect
            &&& packet.subrange(21, packet.len() as int) == msg.content
        }),
{
    lemma_meta_parts(msg.meta, order);
    let head = meta_bytes(msg.meta, order);
    let packet = packet_bytes(msg, order);
    assert(packet.subrange(0, 8) =~= head.subrange(0, 8));
    assert(head.subrange(0, 8) =~= seq![85u8, 78u8, 73u8, 67u8, 76u8, 73u8, 80u8, 33u8]);
    assert(packet.subrange(8, 12) =~= head.subrange(8, 12));
    assert(packet.subrange(12, 20) =~= head.subrange(12, 20));
    assert(packet.subrange(21, packet.len() as int) =~= msg.content);
}

/// A header is understood exactly where it starts with the magic bytes and its last byte
/// stands for a kind; it then says what stands in it. The last byte is looked at first.
pub proof fn header_is_understood(header: Seq<u8>, order: ByteOrder)
    requires
        header.len() == 21,
    ensures
        ({
            let magic = seq![85u8, 78u8, 73u8, 67u8, 76u8, 73u8, 80u8, 33u8];
            let known = header[20] <= 5;
            let marked = header.subrange(0, 8) == magic;
            match parsed_meta(header, order) {
                Ok(meta) => {
                    &&& known && marked
                    &&& header.subrange(8, 12) == u32_bytes(meta.len, order)
                    &&& header.subrange(12, 20) == u64_bytes(meta.stamp, order)
                    &&& header[20] == meta.kind.spec_code()
                },
                Err(e) => {
                    &&& !known || !marked
                    &&& e is PacketParseError
                    &&& e->PacketParseError_0 == if known {
                        "Magic value mismatch!"@
                    } else {
                        "The conversion failed because the source bytes are not a valid value of the destination type."@
                    }
                },
            }
        }),
{
    assert(MAGIC_BYTES@ =~= seq![85u8, 78u8, 73u8, 67u8, 76u8, 73u8, 80u8, 33u8]);
    u32_round_trip_back(header.subrange(8, 12), order);
    u64_round_trip_back(header.subrange(12, 20), order);
}

/// Reading a header gives its message where it announces no content, asks for the content
/// where it announces some and may, and is an error otherwise. Nothing, too little or too
/// much is no header.
pub proof fn header_reading(outcome: ReadOutcomeView, order: ByteOrder)
    ensures
        match outcome {
            ReadOutcomeView::Elapsed => header_read(outcome, order) == Err::<
                HeaderReadView,
                ErrorView,
            >(ErrorView::TimeoutError),
            ReadOutcomeView::Failed(reason) => header_read(outcome, order) == Err::<
                HeaderReadView,
                ErrorView,
            >(ErrorView::IOError(reason)),
            ReadOutcomeView::Received(bytes) => {
                &&& bytes.len() == 0 ==> header_read(outcome, order) == Err::<
                    HeaderReadView,
                    ErrorView,
                >(ErrorView::DisconnectedError)
                &&& bytes.len() != 0 && bytes.len() != 21 ==> header_read(outcome, order) == Err::<
                    HeaderReadView,
                    ErrorView,
                >(ErrorView::PacketParseError("Incomplete message received."@))
                &&& bytes.len() == 21 ==> match parsed_meta(bytes, order) {
                    Err(e) => header_read(outcome, order) == Err::<HeaderReadView, ErrorView>(e),
                    Ok(meta) => {
                        let may = meta.kind == MessageKind::Text || meta.kind
                            == MessageKind::Image;
                        &&& meta.len == 0 <==> header_read(outcome, order) == Ok::<
                            HeaderReadView,
                            ErrorView,
                        >(HeaderReadView::Whole(MessageView { meta, content: Seq::empty() }))
                        &&& meta.len > 0 && may <==> header_read(outcome, order) == Ok::<
                            HeaderReadView,
                            ErrorView,
                        >(HeaderReadView::Body(meta))
                        &&& meta.len > 0 && !may <==> header_read(outcome, order) == Err::<
                            HeaderReadView,
                            ErrorView,
                        >(
                            ErrorView::PacketParseError(
                                "Non-empty data received in control messages."@,
                            ),
                        )
                    },
                }
            },
        },
{
}

/// Reading content gives the message with all of it, where as much came as was announced.
pub proof fn body_reading(meta: MessageMeta, outcome: ReadOutcomeView)
    requires
        meta.len > 0,
    ensures
        match outcome {
            ReadOutcomeView::Elapsed => body_read(meta, outcome) == Err::<MessageView, ErrorView>(
                ErrorView::TimeoutError,
            ),
            ReadOutcomeView::Failed(reason) => body_read(meta, outcome) == Err::<
                MessageView,
                ErrorView,
            >(ErrorView::IOError(reason)),
            ReadOutcomeView::Received(bytes) => {
                &&& bytes.len() == meta.len <==> body_read(meta, outcome) == Ok::<
                    MessageView,
                    ErrorView,
                >(MessageView { meta, content: bytes })
                &&& bytes.len() == 0 <==> body_read(meta, outcome) == Err::<
                    MessageView,
                    ErrorView,
                >(ErrorView::DisconnectedError)
                &&& bytes.len() != 0 && bytes.len() != meta.len <==> body_read(meta, outcome)
                    == Err::<MessageView, ErrorView>(
                    ErrorView::PacketParseError("Incomplete message received."@),
                )
            },
        },
{
}

/// A message is made exactly where the clock can be read and the content is within the
/// limit. It holds all of the content and its kind, the stamp that was given or else the
/// time, and the length of the content up to multiples of 2^32.
pub proof fn message_making(
    kind: MessageKind,
    content: Seq<u8>,
    stamp: Option<u64>,
    max_buffer_size: u64,
    now: Option<u64>,
)
    ensures
        match new_message(kind, content, stamp, max_buffer_size, now) {
            Ok(msg) => {
                &&& now is Some && content.len() <= max_buffer_size as usize
                &&& msg.content == content
                &&& msg.meta.kind == kind
                &&& stamp is Some ==> Some(msg.meta.stamp) == stamp
                &&& stamp is None ==> Some(msg.meta.stamp) == now
                &&& (content.len() - msg.meta.len) % 0x1_0000_0000 == 0
                &&& content.len() <= u32::MAX ==> content.len() == msg.meta.len
            },
            Err(e) => {
                &&& e == ErrorView::SystemClockError <==> now is None
                &&& e == ErrorView::MessageTooLargeError <==> now is Some && content.len()
                    > max_buffer_size as usize
                &&& e == ErrorView::SystemClockError || e == ErrorView::MessageTooLargeError
            },
        },
{
}

} // verus!
