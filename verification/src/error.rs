//! Everything that can go wrong, how it reads to a person, and what becomes of it.
use vstd::prelude::*;
use vstd::string::*;

verus! {

/// Why the system clipboard could not be read or written.
#[derive(Debug, PartialEq, Eq)]
pub enum ClipboardFault {
    /// Nothing there in the requested format.
    ContentNotAvailable,
    /// The clipboard does not exist on this system.
    ClipboardNotSupported,
    /// Somebody else holds the clipboard.
    ClipboardOccupied,
    /// The contents could not be converted.
    ConversionFailure,
    /// Anything else.
    Unknown { description: String },
}

/// The mathematical value of a [`ClipboardFault`].
pub enum ClipboardFaultView {
    ContentNotAvailable,
    ClipboardNotSupported,
    ClipboardOccupied,
    ConversionFailure,
    Unknown { description: Seq<char> },
}

impl View for ClipboardFault {
    type V = ClipboardFaultView;

    open spec fn view(&self) -> ClipboardFaultView {
        match *self {
            ClipboardFault::ContentNotAvailable => ClipboardFaultView::ContentNotAvailable,
            ClipboardFault::ClipboardNotSupported => ClipboardFaultView::ClipboardNotSupported,
            ClipboardFault::ClipboardOccupied => ClipboardFaultView::ClipboardOccupied,
            ClipboardFault::ConversionFailure => ClipboardFaultView::ConversionFailure,
            ClipboardFault::Unknown { description } => ClipboardFaultView::Unknown {
                description: description@,
            },
        }
    }
}

/// The sentence that describes a clipboard fault.
pub open spec fn fault_text(fault: ClipboardFaultView) -> Seq<char> {
    match fault {
        ClipboardFaultView::ContentNotAvailable =>
            "The clipboard contents were not available in the requested format or the clipboard is empty."@,
        ClipboardFaultView::ClipboardNotSupported =>
            "The selected clipboard is not supported with the current system configuration."@,
        ClipboardFaultView::ClipboardOccupied =>
            "The native clipboard is not accessible due to being held by another party."@,
        ClipboardFaultView::ConversionFailure =>
            "The image or the text that was about the be transferred to/from the clipboard could not be converted to the appropriate format."@,
        ClipboardFaultView::Unknown { description } =>
            "Unknown error while interacting with the clipboard: "@ + description,
    }
}

/// The text of `arboard::Error`, as its `Display` writes it: one fixed sentence for each
/// variant, and for `Unknown` a fixed prefix followed by the description.
#[verifier::external_body]
fn describe_fault(fault: &ClipboardFault) -> (text: String)
    ensures
        text@ == fault_text(fault@),
{
    let outside = match fault {
        ClipboardFault::ContentNotAvailable => arboard::Error::ContentNotAvailable,
        ClipboardFault::ClipboardNotSupported => arboard::Error::ClipboardNotSupported,
        ClipboardFault::ClipboardOccupied => arboard::Error::ClipboardOccupied,
        ClipboardFault::ConversionFailure => arboard::Error::ConversionFailure,
        ClipboardFault::Unknown { description } => {
            arboard::Error::Unknown { description: description.clone() }
        },
    };
    outside.to_string()
}

/// An error of the program.
#[derive(Debug, PartialEq, Eq)]
pub enum UniClipError {
    DisconnectedError,
    TimeoutError,
    SystemClockError,
    MessageTooLargeError,
    ConnectionError(String),
    PacketParseError(String),
    ClientError(String),
    ChannelError(String),
    ClipboardError(ClipboardFault),
    IOError(String),
    UnknownError(String),
}

/// The mathematical value of a [`UniClipError`].
pub enum ErrorView {
    DisconnectedError,
    TimeoutError,
    SystemClockError,
    MessageTooLargeError,
    ConnectionError(Seq<char>),
    PacketParseError(Seq<char>),
    ClientError(Seq<char>),
    ChannelError(Seq<char>),
    ClipboardError(ClipboardFaultView),
    IOError(Seq<char>),
    UnknownError(Seq<char>),
}

impl View for UniClipError {
    type V = ErrorView;

    open spec fn view(&self) -> ErrorView {
        match *self {
            UniClipError::DisconnectedError => ErrorView::DisconnectedError,
            UniClipError::TimeoutError => ErrorView::TimeoutError,
            UniClipError::SystemClockError => ErrorView::SystemClockError,
            UniClipError::MessageTooLargeError => ErrorView::MessageTooLargeError,
            UniClipError::ConnectionError(msg) => ErrorView::ConnectionError(msg@),
            UniClipError::PacketParseError(msg) => ErrorView::PacketParseError(msg@),
            UniClipError::ClientError(msg) => ErrorView::ClientError(msg@),
            UniClipError::ChannelError(msg) => ErrorView::ChannelError(msg@),
            UniClipError::ClipboardError(fault) => ErrorView::ClipboardError(fault@),
            UniClipError::IOError(msg) => ErrorView::IOError(msg@),
            UniClipError::UnknownError(msg) => ErrorView::UnknownError(msg@),
        }
    }
}

/// What an error says to a person.
pub open spec fn error_text(e: ErrorView) -> Seq<char> {
    match e {
        ErrorView::DisconnectedError => "Client disconnected."@,
        ErrorView::TimeoutError => "Timed out while trying to reach the client."@,
        ErrorView::SystemClockError => "Could not use System Clock. Are these clocks synced?"@,
        ErrorView::MessageTooLargeError => "Trying to send a message that is too large."@,
        ErrorView::ConnectionError(msg) => "Broken connection. Details: "@ + msg,
        ErrorView::PacketParseError(msg) => "Failed to parse the packet. Details: "@ + msg,
        ErrorView::ClientError(msg) => "Error received from the client: "@ + msg,
        ErrorView::ChannelError(msg) => "Failed to send/recv from a channel: "@ + msg,
        ErrorView::ClipboardError(fault) =>
            "System clipboard is not available. Details: "@ + fault_text(fault),
        ErrorView::IOError(msg) => "IOError occured! Details: "@ + msg,
        ErrorView::UnknownError(msg) => "An unknown error occured! Details: "@ + msg,
    }
}

/// The name of an error's variant.
pub open spec fn error_type(e: ErrorView) -> Seq<char> {
    match e {
        ErrorView::DisconnectedError => "DisconnectedError"@,
        ErrorView::TimeoutError => "TimeoutError"@,
        ErrorView::SystemClockError => "SystemClockError"@,
        ErrorView::MessageTooLargeError => "MessageTooLargeError"@,
        ErrorView::ConnectionError(_) => "ConnectionError"@,
        ErrorView::PacketParseError(_) => "PacketParseError"@,
        ErrorView::ClientError(_) => "ClientError"@,
        ErrorView::ChannelError(_) => "ChannelError"@,
        ErrorView::ClipboardError(_) => "ClipboardError"@,
        ErrorView::IOError(_) => "IOError"@,
        ErrorView::UnknownError(_) => "UnknownError"@,
    }
}

/// The line that goes to the log for an error that came from `source`.
pub open spec fn report_line(source: Seq<char>, e: ErrorView) -> Seq<char> {
    "["@ + source + "] "@ + error_type(e) + ": "@ + error_text(e) + "\n"@
}

/// How urgent a log line is.
#[derive(Debug, Clone, Copy, PartialEq, Eq, Structural)]
pub enum Level {
    Info,
    Warn,
    Error,
}

/// A line for the log, and whether the task it speaks of is to be cancelled.
#[derive(Debug, PartialEq, Eq)]
pub struct Report {
    pub level: Level,
    pub line: String,
    pub cancel: bool,
}

/// The mathematical value of a [`Report`].
pub struct ReportView {
    pub level: Level,
    pub line: Seq<char>,
    pub cancel: bool,
}

impl View for Report {
    type V = ReportView;

    open spec fn view(&self) -> ReportView {
        ReportView { level: self.level, line: self.line@, cancel: self.cancel }
    }
}

/// What reporting an error without stopping for it amounts to.
pub open spec fn warning(source: Seq<char>, e: ErrorView) -> ReportView {
    ReportView { level: Level::Warn, line: report_line(source, e), cancel: false }
}

/// What stopping for an error amounts to.
pub open spec fn fatal(source: Seq<char>, e: ErrorView) -> ReportView {
    ReportView { level: Level::Error, line: report_line(source, e), cancel: true }
}

/// `prefix` followed by `rest`.
fn joined(prefix: &str, rest: &str) -> (text: String)
    ensures
        text@ == prefix@ + rest@,
{
    let mut text = prefix.to_owned();
    text.append(rest);
    text
}

impl UniClipError {
    /// What the error says to a person.
    pub fn to_string(&self) -> (text: String)
        ensures
            text@ == error_text(self@),
    {
        match self {
            UniClipError::DisconnectedError => "Client disconnected.".to_owned(),
            UniClipError::TimeoutError => "Timed out while trying to reach the client.".to_owned(),
            UniClipError::SystemClockError =>
                "Could not use System Clock. Are these clocks synced?".to_owned(),
            UniClipError::MessageTooLargeError =>
                "Trying to send a message that is too large.".to_owned(),
            UniClipError::ConnectionError(msg) => joined("Broken connection. Details: ", msg.as_str()),
            UniClipError::PacketParseError(msg) => joined(
                "Failed to parse the packet. Details: ",
                msg.as_str(),
            ),
            UniClipError::ClientError(msg) => joined("Error received from the client: ", msg.as_str()),
            UniClipError::ChannelError(msg) => joined(
                "Failed to send/recv from a channel: ",
                msg.as_str(),
            ),
            UniClipError::ClipboardError(fault) => {
                let details = describe_fault(fault);
                joined("System clipboard is not available. Details: ", details.as_str())
            },
            UniClipError::IOError(msg) => joined("IOError occured! Details: ", msg.as_str()),
            UniClipError::UnknownError(msg) => joined(
                "An unknown error occured! Details: ",
                msg.as_str(),
            ),
        }
    }

    /// The name of the error's variant.
    pub fn get_type(&self) -> (name: &str)
        ensures
            name@ == error_type(self@),
    {
        match self {
            UniClipError::DisconnectedError => "DisconnectedError",
            UniClipError::TimeoutError => "TimeoutError",
            UniClipError::SystemClockError => "SystemClockError",
            UniClipError::MessageTooLargeError => "MessageTooLargeError",
            UniClipError::ConnectionError(_) => "ConnectionError",
            UniClipError::PacketParseError(_) => "PacketParseError",
            UniClipError::ClientError(_) => "ClientError",
            UniClipError::ChannelError(_) => "ChannelError",
            UniClipError::ClipboardError(_) => "ClipboardError",
            UniClipError::IOError(_) => "IOError",
            UniClipError::UnknownError(_) => "UnknownError",
        }
    }

    /// The log line for this error, which came from `source`.
    fn line(&self, source: &String) -> (line: String)
        ensures
            line@ == report_line(source@, self@),
    {
        let mut line = "[".to_owned();
        line.append(source.as_str());
        line.append("] ");
        line.append(self.get_type());
        line.append(": ");
        let text = self.to_string();
        line.append(text.as_str());
        line.append("\n");
        line
    }

    /// Reports the error as a warning: work goes on.
    pub fn report(&self, source: &String) -> (report: Report)
        ensures
            report@ == warning(source@, self@),
    {
        Report { level: Level::Warn, line: self.line(source), cancel: false }
    }

    /// Reports the error as fatal: the task it came from is to be cancelled.
    pub fn panic(self, source: &String) -> (report: Report)
        ensures
            report@ == fatal(source@, self@),
    {
        Report { level: Level::Error, line: self.line(source), cancel: true }
    }
}

impl AsRef<UniClipError> for UniClipError {
    fn as_ref(&self) -> (r: &UniClipError)
        ensures
            *r == *self,
    {
        self
    }
}

impl AsMut<UniClipError> for UniClipError {
    fn as_mut(&mut self) -> (r: &mut UniClipError)
        ensures
            *r == *old(self),
            *final(self) == *final(r),
    {
        self
    }
}

/// What an error says ends with all of the details that it carries, and begins as it does
/// without any.
pub proof fn details_are_told_whole(details: Seq<char>)
    ensures
        ({
            let none = Seq::<char>::empty();
            &&& error_text(ErrorView::ConnectionError(details)) == error_text(
                ErrorView::ConnectionError(none),
            ) + details
            &&& error_text(ErrorView::PacketParseError(details)) == error_text(
                ErrorView::PacketParseError(none),
            ) + details
            &&& error_text(ErrorView::ClientError(details)) == error_text(
                ErrorView::ClientError(none),
            ) + details
            &&& error_text(ErrorView::ChannelError(details)) == error_text(
                ErrorView::ChannelError(none),
            ) + details
            &&& error_text(ErrorView::IOError(details)) == error_text(ErrorView::IOError(none))
                + details
            &&& error_text(ErrorView::UnknownError(details)) == error_text(
                ErrorView::UnknownError(none),
            ) + details
        }),
{
    let none = Seq::<char>::empty();
    assert("Broken connection. Details: "@ + none =~= "Broken connection. Details: "@);
    assert("Failed to parse the packet. Details: "@ + none
        =~= "Failed to parse the packet. Details: "@);
    assert("Error received from the client: "@ + none =~= "Error received from the client: "@);
    assert("Failed to send/recv from a channel: "@ + none
        =~= "Failed to send/recv from a channel: "@);
    assert("IOError occured! Details: "@ + none =~= "IOError occured! Details: "@);
    assert("An unknown error occured! Details: "@ + none
        =~= "An unknown error occured! Details: "@);
}

/// What trouble with the clipboard says ends with all that the clipboard says of it.
pub proof fn faults_are_told_whole(fault: ClipboardFaultView, description: Seq<char>)
    ensures
        error_text(ErrorView::ClipboardError(fault))
            == "System clipboard is not available. Details: "@ + fault_text(fault),
        fault_text(ClipboardFaultView::Unknown { description })
            == "Unknown error while interacting with the clipboard: "@ + description,
{
}

/// The name of an error does not depend on its details.
pub proof fn names_are_those_of_variants(
    a: Seq<char>,
    b: Seq<char>,
    f: ClipboardFaultView,
    g: ClipboardFaultView,
)
    ensures
        error_type(ErrorView::ConnectionError(a)) == error_type(ErrorView::ConnectionError(b)),
        error_type(ErrorView::PacketParseError(a)) == error_type(ErrorView::PacketParseError(b)),
        error_type(ErrorView::ClientError(a)) == error_type(ErrorView::ClientError(b)),
        error_type(ErrorView::ChannelError(a)) == error_type(ErrorView::ChannelError(b)),
        error_type(ErrorView::IOError(a)) == error_type(ErrorView::IOError(b)),
        error_type(ErrorView::UnknownError(a)) == error_type(ErrorView::UnknownError(b)),
        error_type(ErrorView::ClipboardError(f)) == error_type(ErrorView::ClipboardError(g)),
{
}

/// A report of an error names where it came from, which error it is and what it says, in one
/// line. Only a fatal one is logged as an error and cancels.
pub proof fn reports_name_source_and_error(source: Seq<char>, e: ErrorView)
    ensures
        ({
            let line = "["@ + source + "] "@ + error_type(e) + ": "@ + error_text(e) + "\n"@;
            &&& warning(source, e).line == line
            &&& fatal(source, e).line == line
            &&& warning(source, e).level == Level::Warn && !warning(source, e).cancel
            &&& fatal(source, e).level == Level::Error && fatal(source, e).cancel
        }),
{
}

} // verus!
