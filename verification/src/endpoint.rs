//! How connections come about: one side connects, the other side accepts.
use vstd::prelude::*;
use vstd::string::*;

use crate::error::{fatal, warning, ErrorView, Report, ReportView, UniClipError};
use crate::options::Options;
use crate::proto::Connection;
use crate::session::{
    greeting, opening, Mode, NextView, Op, Output, OutputView, Point, Session, Stage, Task, Window,
};

verus! {

/// What kind of trouble the network has.
#[derive(Debug, Clone, Copy, PartialEq, Eq, Structural)]
pub enum NetFault {
    ConnectionRefused,
    ConnectionReset,
    ConnectionAborted,
    HostUnreachable,
    NetworkUnreachable,
    NotConnected,
    WouldBlock,
    Other,
}

/// What came of connecting to the other side.
#[derive(Debug, PartialEq, Eq)]
pub enum ConnectOutcome {
    Connected,
    /// It failed, with the kind of trouble and the reason.
    Failed(NetFault, String),
    /// It did not succeed in time.
    Elapsed,
}

/// The mathematical value of a [`ConnectOutcome`].
pub enum ConnectOutcomeView {
    Connected,
    Failed(NetFault, Seq<char>),
    Elapsed,
}

impl View for ConnectOutcome {
    type V = ConnectOutcomeView;

    open spec fn view(&self) -> ConnectOutcomeView {
        match *self {
            ConnectOutcome::Connected => ConnectOutcomeView::Connected,
            ConnectOutcome::Failed(fault, reason) => ConnectOutcomeView::Failed(fault, reason@),
            ConnectOutcome::Elapsed => ConnectOutcomeView::Elapsed,
        }
    }
}

/// What a side that connects does then.
#[derive(Debug, PartialEq, Eq)]
pub enum Launch {
    /// Run this session, beginning with this output.
    Run(Session, Output),
    /// Report and give up.
    Stop(Report),
}

/// The mathematical value of a [`Launch`].
pub enum LaunchView {
    Run(Session, OutputView),
    Stop(ReportView),
}

impl View for Launch {
    type V = LaunchView;

    open spec fn view(&self) -> LaunchView {
        match *self {
            Launch::Run(session, output) => LaunchView::Run(session, output@),
            Launch::Stop(report) => LaunchView::Stop(report@),
        }
    }
}

/// What a side that accepts connections is told.
#[derive(Debug, PartialEq, Eq)]
pub enum ServeEvent {
    /// It now listens at its address.
    Bound,
    /// It cannot listen, for the reason given.
    BindFailed(String),
    /// Somebody has connected.
    Accepted,
    /// Accepting somebody failed, with the kind of trouble and the reason.
    AcceptFailed(NetFault, String),
}

/// The mathematical value of a [`ServeEvent`].
pub enum ServeEventView {
    Bound,
    BindFailed(Seq<char>),
    Accepted,
    AcceptFailed(NetFault, Seq<char>),
}

impl View for ServeEvent {
    type V = ServeEventView;

    open spec fn view(&self) -> ServeEventView {
        match *self {
            ServeEvent::Bound => ServeEventView::Bound,
            ServeEvent::BindFailed(reason) => ServeEventView::BindFailed(reason@),
            ServeEvent::Accepted => ServeEventView::Accepted,
            ServeEvent::AcceptFailed(fault, reason) => ServeEventView::AcceptFailed(fault, reason@),
        }
    }
}

/// What a side that accepts connections does then.
#[derive(Debug, PartialEq, Eq)]
pub enum Serve {
    /// Wait for somebody to connect.
    Accept,
    /// Report, and wait for somebody to connect.
    Skip(Report),
    /// Run this session beside all others, beginning with this output, and wait for
    /// somebody else to connect.
    Run(Session, Output),
    /// Report and give up.
    Stop(Report),
}

/// The mathematical value of a [`Serve`].
pub enum ServeView {
    Accept,
    Skip(ReportView),
    Run(Session, OutputView),
    Stop(ReportView),
}

impl View for Serve {
    type V = ServeView;

    open spec fn view(&self) -> ServeView {
        match *self {
            Serve::Accept => ServeView::Accept,
            Serve::Skip(report) => ServeView::Skip(report@),
            Serve::Run(session, output) => ServeView::Run(session, output@),
            Serve::Stop(report) => ServeView::Stop(report@),
        }
    }
}

/// Trouble that means that the other side cannot be reached.
pub open spec fn unreachable_fault(fault: NetFault) -> bool {
    ||| fault == NetFault::ConnectionRefused
    ||| fault == NetFault::ConnectionReset
    ||| fault == NetFault::ConnectionAborted
    ||| fault == NetFault::HostUnreachable
    ||| fault == NetFault::NetworkUnreachable
    ||| fault == NetFault::NotConnected
}

/// Trouble with one connection that leaves others possible.
pub open spec fn passing_fault(fault: NetFault) -> bool {
    ||| fault == NetFault::WouldBlock
    ||| fault == NetFault::ConnectionAborted
    ||| fault == NetFault::ConnectionReset
}

/// What follows an attempt to connect to `addr`.
pub open spec fn launched(addr: Seq<char>, outcome: ConnectOutcomeView, o: Options) -> LaunchView {
    match outcome {
        ConnectOutcomeView::Connected => LaunchView::Run(greeting(o).0, greeting(o).1),
        ConnectOutcomeView::Failed(fault, reason) => LaunchView::Stop(
            fatal(
                "LOCAL"@,
                if unreachable_fault(fault) {
                    ErrorView::ConnectionError("Could not connect to "@ + addr + "."@)
                } else {
                    ErrorView::IOError(reason)
                },
            ),
        ),
        ConnectOutcomeView::Elapsed => LaunchView::Stop(fatal("LOCAL"@, ErrorView::TimeoutError)),
    }
}

/// What a side that accepts connections makes of an event.
pub open spec fn served(event: ServeEventView) -> ServeView {
    match event {
        ServeEventView::Bound => ServeView::Accept,
        ServeEventView::BindFailed(reason) => ServeView::Stop(
            fatal("LOCAL"@, ErrorView::IOError(reason)),
        ),
        ServeEventView::Accepted => ServeView::Run(opening().0, opening().1),
        ServeEventView::AcceptFailed(fault, reason) => if passing_fault(fault) {
            ServeView::Skip(warning("LOCAL"@, ErrorView::ConnectionError(reason)))
        } else {
            ServeView::Stop(fatal("LOCAL"@, ErrorView::IOError(reason)))
        },
    }
}

impl Connection {
    /// What follows an attempt to connect to `addr`.
    pub fn spawn_connect(addr: &String, outcome: ConnectOutcome, options: &Options) -> (launch:
        Launch)
        requires
            options.ready(),
        ensures
            launch@ == launched(addr@, outcome@, *options),
    {
        let e = match outcome {
            ConnectOutcome::Connected => {
                let (session, output) = Session::connected(options);
                return Launch::Run(session, output);
            },
            ConnectOutcome::Failed(fault, reason) => match fault {
                NetFault::ConnectionRefused
                | NetFault::ConnectionReset
                | NetFault::ConnectionAborted
                | NetFault::HostUnreachable
                | NetFault::NetworkUnreachable
                | NetFault::NotConnected => {
                    let mut text = "Could not connect to ".to_owned();
                    text.append(addr.as_str());
                    text.append(".");
                    UniClipError::ConnectionError(text)
                },
                _ => UniClipError::IOError(reason),
            },
            ConnectOutcome::Elapsed => UniClipError::TimeoutError,
        };
        Launch::Stop(e.panic(&"LOCAL".to_owned()))
    }

    /// What a side that accepts connections makes of an event.
    pub fn spawn_serve(event: ServeEvent) -> (serve: Serve)
        ensures
            serve@ == served(event@),
    {
        match event {
            ServeEvent::Bound => Serve::Accept,
            ServeEvent::BindFailed(reason) => Serve::Stop(
                UniClipError::IOError(reason).panic(&"LOCAL".to_owned()),
            ),
            ServeEvent::Accepted => {
                let (session, output) = Session::accepted();
                Serve::Run(session, output)
            },
            ServeEvent::AcceptFailed(fault, reason) => match fault {
                NetFault::WouldBlock
                | NetFault::ConnectionAborted
                | NetFault::ConnectionReset => Serve::Skip(
                    UniClipError::ConnectionError(reason).report(&"LOCAL".to_owned()),
                ),
                _ => Serve::Stop(UniClipError::IOError(reason).panic(&"LOCAL".to_owned())),
            },
        }
    }
}

/// A side that gives up cancels everything, and one that goes on cancels nothing.
pub proof fn giving_up_cancels(addr: Seq<char>, outcome: ConnectOutcomeView, o: Options)
    ensures
        launched(addr, outcome, o) matches LaunchView::Stop(report) ==> report.cancel,
        launched(addr, outcome, o) is Stop <==> outcome !is Connected,
{
}

/// Trouble with one connection never keeps others from being accepted, and any trouble that
/// ends the accepting cancels everything.
pub proof fn passing_faults_are_survived(event: ServeEventView)
    ensures
        served(event) matches ServeView::Stop(report) ==> report.cancel,
        served(event) matches ServeView::Skip(report) ==> !report.cancel,
        event matches ServeEventView::AcceptFailed(fault, _) ==> (served(event) is Skip
            <==> passing_fault(fault)),
{
}

/// A side that cannot reach the other says which address it could not connect to; any other
/// trouble is told as it came, and time that ran out is told as that.
pub proof fn failures_to_connect_are_told(
    addr: Seq<char>,
    fault: NetFault,
    reason: Seq<char>,
    o: Options,
)
    ensures
        ({
            let failed = launched(addr, ConnectOutcomeView::Failed(fault, reason), o);
            let elsewhere = fault == NetFault::WouldBlock || fault == NetFault::Other;
            &&& elsewhere ==> failed == LaunchView::Stop(
                fatal("LOCAL"@, ErrorView::IOError(reason)),
            )
            &&& !elsewhere ==> failed == LaunchView::Stop(
                fatal(
                    "LOCAL"@,
                    ErrorView::ConnectionError("Could not connect to "@ + addr + "."@),
                ),
            )
            &&& launched(addr, ConnectOutcomeView::Elapsed, o) == LaunchView::Stop(
                fatal("LOCAL"@, ErrorView::TimeoutError),
            )
        }),
{
}

/// A side that has connected reads the other side's handshake first, on a connection on which
/// nothing has happened, within three times the time for one piece of work.
pub proof fn connected_sessions_start_by_reading(addr: Seq<char>, o: Options)
    requires
        o.timeout_sec->0 * 3 <= u64::MAX,
    ensures
        launched(addr, ConnectOutcomeView::Connected, o) == LaunchView::Run(
            Session {
                conn: Connection {
                    initial_handshake_done: false,
                    last_keep_alive: 0,
                    last_sync: 0,
                },
                point: Point::Running(Task::Greeting, Op::Receive(Mode::Expect, Stage::Header)),
            },
            OutputView {
                try_write: None,
                report: None,
                next: NextView::Read {
                    len: 21,
                    secs: o.timeout_sec->0,
                    window: Window::Opened((o.timeout_sec->0 * 3) as u64),
                },
            },
        ),
{
}

/// Where the time for the first handshake cannot be reckoned, a side that has connected cannot
/// go on.
pub proof fn connected_sessions_need_reckoned_time(addr: Seq<char>, o: Options)
    requires
        o.timeout_sec->0 * 3 > u64::MAX,
    ensures
        launched(addr, ConnectOutcomeView::Connected, o) matches LaunchView::Run(session, output)
            && session.point == Point::Finished && output.next == NextView::Abort
            && output.report is None && output.try_write is None,
{
}

/// Everybody who is accepted gets a session of their own, which starts with a keep-alive on a
/// connection on which nothing has happened.
pub proof fn accepted_sessions_start_by_shaking_hands()
    ensures
        served(ServeEventView::Bound) == ServeView::Accept,
        served(ServeEventView::Accepted) == ServeView::Run(
            Session {
                conn: Connection {
                    initial_handshake_done: false,
                    last_keep_alive: 0,
                    last_sync: 0,
                },
                point: Point::StartKeepAlive(Task::Opening),
            },
            OutputView { try_write: None, report: None, next: NextView::Proceed },
        ),
{
}

/// Trouble with one connection is told and skipped; any other trouble with accepting, or with
/// listening at all, is told and ends it. What is told is the reason, whole.
pub proof fn failures_to_accept_are_told(fault: NetFault, reason: Seq<char>)
    ensures
        ({
            let failed = served(ServeEventView::AcceptFailed(fault, reason));
            let passes = fault == NetFault::WouldBlock || fault == NetFault::ConnectionAborted
                || fault == NetFault::ConnectionReset;
            &&& passes ==> failed == ServeView::Skip(
                warning("LOCAL"@, ErrorView::ConnectionError(reason)),
            )
            &&& !passes ==> failed == ServeView::Stop(
                fatal("LOCAL"@, ErrorView::IOError(reason)),
            )
            &&& served(ServeEventView::BindFailed(reason)) == ServeView::Stop(
                fatal("LOCAL"@, ErrorView::IOError(reason)),
            )
        }),
{
}

} // verus!
