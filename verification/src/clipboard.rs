//! The clipboard: what this side knows of its contents, and when contents replace each other.
use std::collections::hash_map::DefaultHasher;
use std::hash::Hasher;
use vstd::prelude::*;
use vstd::std_specs::hash::*;
use vstd::string::*;
use vstd::utf8::*;

use crate::error::{ClipboardFault, ClipboardFaultView, ErrorView, UniClipError};
use crate::message::result_view;
use crate::picture::{decoded, read_png, ImageData, ImageView};
use crate::proto::{clock_error, CommandView};
use crate::timestamp::{is_reading, read_clock, stamp_from};
use crate::wire::{
    copy_bytes, machine_order, native_order, put_u64, u64_bytes, u64_of, u64_round_trip,
};

verus! {

/// Contents of the clipboard.
#[derive(Debug, PartialEq, Eq)]
pub enum ClipboardState {
    Text(String),
    /// A picture, as a PNG file.
    Image(Vec<u8>),
}

/// The mathematical value of a [`ClipboardState`].
pub enum StateView {
    Text(Seq<char>),
    Image(Seq<u8>),
}

impl View for ClipboardState {
    type V = StateView;

    open spec fn view(&self) -> StateView {
        match *self {
            ClipboardState::Text(text) => StateView::Text(text@),
            ClipboardState::Image(png) => StateView::Image(png@),
        }
    }
}

/// What is known of the clipboard.
#[derive(Debug, PartialEq, Eq)]
pub struct ClipboardContext {
    /// By which contents are told apart.
    pub hash: u64,
    pub state: ClipboardState,
    /// When the contents came, or zero where none have come yet.
    pub stamp: u64,
}

/// The mathematical value of a [`ClipboardContext`].
pub struct ContextView {
    pub hash: u64,
    pub state: StateView,
    pub stamp: u64,
}

impl View for ClipboardContext {
    type V = ContextView;

    open spec fn view(&self) -> ContextView {
        ContextView { hash: self.hash, state: self.state@, stamp: self.stamp }
    }
}

/// What goes into the hash of contents: which kind they are, and the contents, whose end
/// or length is marked.
pub open spec fn hashed_bytes(state: StateView) -> Seq<Seq<u8>> {
    match state {
        StateView::Text(text) => seq![
            u64_bytes(0, machine_order()),
            encode_utf8(text),
            seq![255u8],
        ],
        StateView::Image(png) => seq![
            u64_bytes(1, machine_order()),
            u64_bytes(png.len() as u64, machine_order()),
            png,
        ],
    }
}

/// The hash of contents.
pub open spec fn state_hash(state: StateView) -> u64 {
    DefaultHasher::spec_finish(hashed_bytes(state))
}

/// The context of contents that come at a time.
pub open spec fn context_of(state: StateView, stamp: u64) -> ContextView {
    ContextView { hash: state_hash(state), state, stamp }
}

/// The context of a clipboard of which nothing is known yet.
pub open spec fn blank_context() -> ContextView {
    ContextView { hash: 0, state: StateView::Text(""@), stamp: 0 }
}

/// What finding `found` on the system clipboard at the time `now` amounts to: contents that
/// are not known yet become known.
pub open spec fn fetched(ctx: ContextView, found: StateView, now: Option<u64>) -> (
    ContextView,
    Result<Option<ContextView>, ErrorView>,
) {
    if state_hash(found) == ctx.hash {
        (ctx, Ok(None))
    } else {
        match now {
            None => (ctx, clock_error()),
            Some(stamp) => (context_of(found, stamp), Ok(Some(context_of(found, stamp)))),
        }
    }
}

/// Whether contents that the other side copied at `stamp` are to be written to the system
/// clipboard, and what is known then. Contents that are not newer than those known, or the
/// same, are ignored.
pub open spec fn replaced(ctx: ContextView, state: StateView, stamp: u64, now: Option<u64>) -> (
    ContextView,
    Result<bool, ErrorView>,
) {
    if stamp <= ctx.stamp || state_hash(state) == ctx.hash {
        (ctx, Ok(false))
    } else {
        match now {
            None => (ctx, clock_error()),
            Some(time) => (context_of(state, time), Ok(true)),
        }
    }
}

/// Which text is to be written to the system clipboard, if any.
pub open spec fn text_set(ctx: ContextView, text: Seq<char>, stamp: u64, now: Option<u64>) -> (
    ContextView,
    Result<Option<Seq<char>>, ErrorView>,
) {
    match replaced(ctx, StateView::Text(text), stamp, now) {
        (after, Ok(true)) => (after, Ok(Some(text))),
        (after, Ok(false)) => (after, Ok(None)),
        (after, Err(e)) => (after, Err(e)),
    }
}

/// Which picture is to be written to the system clipboard, if any. A file that is no
/// picture is known then, but not written.
pub open spec fn image_set(ctx: ContextView, png: Seq<u8>, stamp: u64, now: Option<u64>) -> (
    ContextView,
    Result<Option<ImageView>, ErrorView>,
) {
    match replaced(ctx, StateView::Image(png), stamp, now) {
        (after, Ok(true)) => match decoded(png) {
            Ok(image) => (after, Ok(Some(image))),
            Err(e) => (after, Err(e)),
        },
        (after, Ok(false)) => (after, Ok(None)),
        (after, Err(e)) => (after, Err(e)),
    }
}

/// The command that tells connections of contents.
pub open spec fn command_of(ctx: ContextView) -> CommandView {
    match ctx.state {
        StateView::Text(text) => CommandView::Text(ctx.stamp, text),
        StateView::Image(png) => CommandView::Image(ctx.stamp, png),
    }
}

/// An optional value as its mathematical value.
pub open spec fn option_view<T: View>(value: Option<T>) -> Option<T::V> {
    match value {
        Some(v) => Some(v@),
        None => None,
    }
}

/// A result with an optional value as its mathematical value.
pub open spec fn option_result_view<T: View>(r: Result<Option<T>, UniClipError>) -> Result<
    Option<T::V>,
    ErrorView,
> {
    match r {
        Ok(value) => Ok(option_view(value)),
        Err(e) => Err(e@),
    }
}

/// The outcome of reading or writing the system clipboard as its mathematical value.
pub open spec fn outcome_view<T: View>(outcome: Result<T, ClipboardFault>) -> Result<
    T::V,
    ClipboardFaultView,
> {
    match outcome {
        Ok(value) => Ok(value@),
        Err(fault) => Err(fault@),
    }
}

impl Clone for ClipboardState {
    fn clone(&self) -> (copy: Self)
        ensures
            copy@ == self@,
    {
        match self {
            ClipboardState::Text(text) => ClipboardState::Text(text.clone()),
            ClipboardState::Image(png) => ClipboardState::Image(copy_bytes(png)),
        }
    }
}

impl Clone for ClipboardContext {
    fn clone(&self) -> (copy: Self)
        ensures
            copy@ == self@,
    {
        ClipboardContext { hash: self.hash, state: self.state.clone(), stamp: self.stamp }
    }
}

impl ClipboardState {
    /// The hash of the contents.
    pub fn digest(&self) -> (hash: u64)
        ensures
            hash == state_hash(self@),
    {
        let order = native_order();
        let mut hasher = DefaultHasher::new();
        let mut kind: Vec<u8> = Vec::new();
        match self {
            ClipboardState::Text(text) => {
                put_u64(&mut kind, 0, order);
                hasher.write(kind.as_slice());
                hasher.write(text.as_str().as_bytes());
                let end: Vec<u8> = vec![255u8];
                hasher.write(end.as_slice());
                assert(hasher@ =~~= hashed_bytes(self@));
            },
            ClipboardState::Image(png) => {
                put_u64(&mut kind, 1, order);
                hasher.write(kind.as_slice());
                let mut len: Vec<u8> = Vec::new();
                put_u64(&mut len, png.len() as u64, order);
                hasher.write(len.as_slice());
                hasher.write(png.as_slice());
                assert(hasher@ =~~= hashed_bytes(self@));
            },
        }
        hasher.finish()
    }
}

/// The clipboard as this side knows it.
#[derive(Debug, PartialEq, Eq)]
pub struct Clipboard {
    pub ctx: ClipboardContext,
}

impl Clipboard {
    /// A clipboard of which nothing is known yet.
    pub fn new() -> (clipboard: Self)
        ensures
            clipboard.ctx@ == blank_context(),
    {
        Clipboard {
            ctx: ClipboardContext {
                hash: 0,
                state: ClipboardState::Text("".to_owned()),
                stamp: 0,
            },
        }
    }

    /// Takes note of what was found on the system clipboard at the time `now`, and hands
    /// back what is new.
    pub fn get_at(&mut self, found: ClipboardState, now: Option<u64>) -> (news: Result<
        Option<ClipboardContext>,
        UniClipError,
    >)
        ensures
            (final(self).ctx@, option_result_view(news)) == fetched(old(self).ctx@, found@, now),
    {
        let hash: u64 = found.digest();
        if hash == self.ctx.hash {
            return Ok(None);
        }
        let stamp: u64 = match stamp_from(now) {
            Ok(stamp) => stamp,
            Err(e) => return Err(e),
        };
        let ctx = ClipboardContext { hash, state: found, stamp };
        self.ctx = ctx.clone();
        Ok(Some(ctx))
    }

    /// Takes note of what was found on the system clipboard, and hands back what is new.
    pub fn get(&mut self, found: ClipboardState) -> (news: Result<
        Option<ClipboardContext>,
        UniClipError,
    >)
        ensures
            exists|now: Option<u64>|
                {
                    &&& is_reading(now)
                    &&& (final(self).ctx@, option_result_view(news)) == #[trigger] fetched(
                        old(self).ctx@,
                        found@,
                        now,
                    )
                },
    {
        let now = read_clock();
        self.get_at(found, now)
    }

    /// Takes note of contents that the other side copied at `stamp`, and says whether they
    /// are to be written to the system clipboard.
    fn replace(&mut self, state: ClipboardState, stamp: u64, now: Option<u64>) -> (write: Result<
        bool,
        UniClipError,
    >)
        ensures
            (final(self).ctx@, result_view(write)) == replaced(old(self).ctx@, state@, stamp, now),
    {
        if stamp <= self.ctx.stamp {
            return Ok(false);
        }
        let hash: u64 = state.digest();
        if hash == self.ctx.hash {
            return Ok(false);
        }
        let time: u64 = match stamp_from(now) {
            Ok(time) => time,
            Err(e) => return Err(e),
        };
        self.ctx = ClipboardContext { hash, state, stamp: time };
        Ok(true)
    }

    /// Takes a text that the other side copied at `stamp`, at the time `now`, and hands it
    /// back if it is to be written to the system clipboard.
    pub fn set_text_at(&mut self, s: String, stamp: u64, now: Option<u64>) -> (write: Result<
        Option<String>,
        UniClipError,
    >)
        ensures
            (final(self).ctx@, option_result_view(write)) == text_set(
                old(self).ctx@,
                s@,
                stamp,
                now,
            ),
    {
        match self.replace(ClipboardState::Text(s.clone()), stamp, now) {
            Ok(true) => Ok(Some(s)),
            Ok(false) => Ok(None),
            Err(e) => Err(e),
        }
    }

    /// Takes a text that the other side copied at `stamp`, and hands it back if it is to be
    /// written to the system clipboard.
    pub fn set_text(&mut self, s: String, stamp: u64) -> (write: Result<
        Option<String>,
        UniClipError,
    >)
        ensures
            exists|now: Option<u64>|
                {
                    &&& is_reading(now)
                    &&& (final(self).ctx@, option_result_view(write)) == #[trigger] text_set(
                        old(self).ctx@,
                        s@,
                        stamp,
                        now,
                    )
                },
    {
        let now = read_clock();
        self.set_text_at(s, stamp, now)
    }

    /// Takes a picture that the other side copied at `stamp`, at the time `now`, and hands
    /// it back if it is to be written to the system clipboard.
    pub fn set_image_at(&mut self, buf: Vec<u8>, stamp: u64, now: Option<u64>) -> (write: Result<
        Option<ImageData>,
        UniClipError,
    >)
        ensures
            (final(self).ctx@, option_result_view(write)) == image_set(
                old(self).ctx@,
                buf@,
                stamp,
                now,
            ),
    {
        match self.replace(ClipboardState::Image(copy_bytes(&buf)), stamp, now) {
            Ok(true) => match read_png(buf.as_slice()) {
                Ok(image) => Ok(Some(image)),
                Err(e) => Err(e),
            },
            Ok(false) => Ok(None),
            Err(e) => Err(e),
        }
    }

    /// Takes a picture that the other side copied at `stamp`, and hands it back if it is to
    /// be written to the system clipboard.
    pub fn set_image(&mut self, buf: Vec<u8>, stamp: u64) -> (write: Result<
        Option<ImageData>,
        UniClipError,
    >)
        ensures
            exists|now: Option<u64>|
                {
                    &&& is_reading(now)
                    &&& (final(self).ctx@, option_result_view(write)) == #[trigger] image_set(
                        old(self).ctx@,
                        buf@,
                        stamp,
                        now,
                    )
                },
    {
        let now = read_clock();
        self.set_image_at(buf, stamp, now)
    }
}

/// What goes into the hash, one part after the other.
pub open spec fn hashed_stream(state: StateView) -> Seq<u8> {
    hashed_bytes(state)[0] + hashed_bytes(state)[1] + hashed_bytes(state)[2]
}

/// What goes into the hash tells all contents apart, even where only the bytes count and not
/// how they are parted.
pub proof fn hashed_bytes_tell_contents_apart(a: StateView, b: StateView)
    requires
        hashed_stream(a) == hashed_stream(b) || hashed_bytes(a) == hashed_bytes(b),
    ensures
        a == b,
{
    let order = machine_order();
    u64_round_trip(0, order);
    u64_round_trip(1, order);
    let s = hashed_stream(a);
    let r = hashed_stream(b);
    assert(s == r);
    assert(s.subrange(0, 8) =~= hashed_bytes(a)[0]) by {
        assert(hashed_bytes(a)[0].len() == 8);
    }
    assert(r.subrange(0, 8) =~= hashed_bytes(b)[0]) by {
        assert(hashed_bytes(b)[0].len() == 8);
    }
    match (a, b) {
        (StateView::Text(x), StateView::Text(y)) => {
            assert(s.subrange(8, s.len() - 1) =~= encode_utf8(x));
            assert(r.subrange(8, r.len() - 1) =~= encode_utf8(y));
            encode_utf8_decode_utf8(x);
            encode_utf8_decode_utf8(y);
        },
        (StateView::Image(x), StateView::Image(y)) => {
            u64_round_trip(x.len() as u64, order);
            u64_round_trip(y.len() as u64, order);
            assert(s.subrange(16, s.len() as int) =~= x);
            assert(r.subrange(16, r.len() as int) =~= y);
        },
        _ => {
            assert(u64_of(s.subrange(0, 8), order) != u64_of(r.subrange(0, 8), order));
        },
    }
}

/// Two contents that differ are taken for the same only where the hasher gives the same for
/// two different inputs.
pub proof fn only_collisions_confuse_contents(a: StateView, b: StateView)
    requires
        state_hash(a) == state_hash(b),
        a != b,
    ensures
        hashed_bytes(a) != hashed_bytes(b),
        hashed_stream(a) != hashed_stream(b),
        DefaultHasher::spec_finish(hashed_bytes(a)) == DefaultHasher::spec_finish(hashed_bytes(b)),
{
    if hashed_stream(a) == hashed_stream(b) || hashed_bytes(a) == hashed_bytes(b) {
        hashed_bytes_tell_contents_apart(a, b);
    }
}

/// What is found and not known becomes known, whole and with the time; what is known already
/// changes nothing, whatever the clock shows.
pub proof fn finding_contents(ctx: ContextView, found: StateView, now: Option<u64>)
    ensures
        ({
            let (after, news) = fetched(ctx, found, now);
            let known = state_hash(found) == ctx.hash;
            &&& known ==> after == ctx && news == Ok::<Option<ContextView>, ErrorView>(None)
            &&& !known && now is None ==> after == ctx && news == Err::<
                Option<ContextView>,
                ErrorView,
            >(ErrorView::SystemClockError)
            &&& !known && now is Some ==> {
                &&& after.state == found
                &&& after.hash == state_hash(found)
                &&& Some(after.stamp) == now
                &&& news == Ok::<Option<ContextView>, ErrorView>(Some(after))
            }
        }),
{
}

/// A text that is brought is written exactly where it is newer than what is known, not known
/// itself, and the clock can be read. It is then written whole, and known with the time.
pub proof fn setting_a_text(ctx: ContextView, text: Seq<char>, stamp: u64, now: Option<u64>)
    ensures
        ({
            let (after, write) = text_set(ctx, text, stamp, now);
            let wanted = stamp > ctx.stamp && state_hash(StateView::Text(text)) != ctx.hash;
            &&& !wanted ==> after == ctx && write == Ok::<Option<Seq<char>>, ErrorView>(None)
            &&& wanted && now is None ==> after == ctx && write == Err::<
                Option<Seq<char>>,
                ErrorView,
            >(ErrorView::SystemClockError)
            &&& wanted && now is Some ==> {
                &&& after.state == StateView::Text(text)
                &&& after.hash == state_hash(StateView::Text(text))
                &&& Some(after.stamp) == now
                &&& write == Ok::<Option<Seq<char>>, ErrorView>(Some(text))
            }
        }),
{
}

/// A file that is brought is known with the time exactly where it is newer than what is
/// known, not known itself, and the clock can be read. The picture in it is then written, if
/// there is one.
pub proof fn setting_a_picture(ctx: ContextView, png: Seq<u8>, stamp: u64, now: Option<u64>)
    ensures
        ({
            let (after, write) = image_set(ctx, png, stamp, now);
            let wanted = stamp > ctx.stamp && state_hash(StateView::Image(png)) != ctx.hash;
            &&& !wanted ==> after == ctx && write == Ok::<Option<ImageView>, ErrorView>(None)
            &&& wanted && now is None ==> after == ctx && write == Err::<
                Option<ImageView>,
                ErrorView,
            >(ErrorView::SystemClockError)
            &&& wanted && now is Some ==> {
                &&& after.state == StateView::Image(png)
                &&& after.hash == state_hash(StateView::Image(png))
                &&& Some(after.stamp) == now
                &&& decoded(png) is Ok ==> write == Ok::<Option<ImageView>, ErrorView>(
                    Some(decoded(png)->Ok_0),
                )
                &&& decoded(png) is Err ==> write == Err::<Option<ImageView>, ErrorView>(
                    decoded(png)->Err_0,
                )
            }
        }),
{
}

/// What connections are told of contents is all of them, with the time they came.
pub proof fn commands_tell_contents(ctx: ContextView)
    ensures
        match ctx.state {
            StateView::Text(text) => command_of(ctx) == CommandView::Text(ctx.stamp, text),
            StateView::Image(png) => command_of(ctx) == CommandView::Image(ctx.stamp, png),
        },
        blank_context().hash == 0,
        blank_context().stamp == 0,
        blank_context().state == StateView::Text(""@),
{
}

} // verus!
