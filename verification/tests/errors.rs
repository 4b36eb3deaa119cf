use uniclip::error::{ClipboardFault, Level, Report, UniClipError};

fn text(s: &str) -> String {
    String::from(s)
}

#[test]
fn get_type_names_the_variant() {
    assert_eq!(UniClipError::DisconnectedError.get_type(), "DisconnectedError");
    assert_eq!(UniClipError::TimeoutError.get_type(), "TimeoutError");
    assert_eq!(UniClipError::SystemClockError.get_type(), "SystemClockError");
    assert_eq!(UniClipError::MessageTooLargeError.get_type(), "MessageTooLargeError");
    assert_eq!(UniClipError::ConnectionError(text("a")).get_type(), "ConnectionError");
    assert_eq!(UniClipError::PacketParseError(text("a")).get_type(), "PacketParseError");
    assert_eq!(UniClipError::ClientError(text("a")).get_type(), "ClientError");
    assert_eq!(UniClipError::ChannelError(text("a")).get_type(), "ChannelError");
    assert_eq!(
        UniClipError::ClipboardError(ClipboardFault::ContentNotAvailable).get_type(),
        "ClipboardError"
    );
    assert_eq!(UniClipError::IOError(text("a")).get_type(), "IOError");
    assert_eq!(UniClipError::UnknownError(text("a")).get_type(), "UnknownError");
}

#[test]
fn errors_read_as_sentences() {
    assert_eq!(UniClipError::DisconnectedError.to_string(), "Client disconnected.");
    assert_eq!(
        UniClipError::TimeoutError.to_string(),
        "Timed out while trying to reach the client."
    );
    assert_eq!(
        UniClipError::SystemClockError.to_string(),
        "Could not use System Clock. Are these clocks synced?"
    );
    assert_eq!(
        UniClipError::MessageTooLargeError.to_string(),
        "Trying to send a message that is too large."
    );
    assert_eq!(
        UniClipError::ConnectionError(text("x")).to_string(),
        "Broken connection. Details: x"
    );
    assert_eq!(
        UniClipError::PacketParseError(text("x")).to_string(),
        "Failed to parse the packet. Details: x"
    );
    assert_eq!(
        UniClipError::ClientError(text("x")).to_string(),
        "Error received from the client: x"
    );
    assert_eq!(
        UniClipError::ChannelError(text("x")).to_string(),
        "Failed to send/recv from a channel: x"
    );
    assert_eq!(UniClipError::IOError(text("x")).to_string(), "IOError occured! Details: x");
    assert_eq!(
        UniClipError::UnknownError(text("x")).to_string(),
        "An unknown error occured! Details: x"
    );
}

#[test]
fn clipboard_errors_say_what_arboard_says() {
    let cases = vec![
        (ClipboardFault::ContentNotAvailable, arboard::Error::ContentNotAvailable),
        (ClipboardFault::ClipboardNotSupported, arboard::Error::ClipboardNotSupported),
        (ClipboardFault::ClipboardOccupied, arboard::Error::ClipboardOccupied),
        (ClipboardFault::ConversionFailure, arboard::Error::ConversionFailure),
        (
            ClipboardFault::Unknown { description: text("odd") },
            arboard::Error::Unknown { description: text("odd") },
        ),
    ];
    for (fault, outside) in cases {
        assert_eq!(
            UniClipError::ClipboardError(fault).to_string(),
            format!("System clipboard is not available. Details: {}", outside)
        );
    }
    assert_eq!(
        UniClipError::ClipboardError(ClipboardFault::Unknown { description: text("odd") })
            .to_string(),
        "System clipboard is not available. Details: \
         Unknown error while interacting with the clipboard: odd"
    );
    assert_eq!(
        UniClipError::ClipboardError(ClipboardFault::ContentNotAvailable).to_string(),
        "System clipboard is not available. Details: The clipboard contents were not available \
         in the requested format or the clipboard is empty."
    );
}

#[test]
fn report_warns_and_panic_cancels() {
    let e = UniClipError::IOError(text("disk"));
    assert_eq!(
        e.report(&text("LOCAL")),
        Report {
            level: Level::Warn,
            line: text("[LOCAL] IOError: IOError occured! Details: disk\n"),
            cancel: false,
        }
    );
    assert_eq!(
        e.panic(&text("10.0.0.1:1")),
        Report {
            level: Level::Error,
            line: text("[10.0.0.1:1] IOError: IOError occured! Details: disk\n"),
            cancel: true,
        }
    );
}

#[test]
fn error_is_its_own_reference() {
    let mut e = UniClipError::TimeoutError;
    assert_eq!(e.as_ref(), &UniClipError::TimeoutError);
    *e.as_mut() = UniClipError::DisconnectedError;
    assert_eq!(e, UniClipError::DisconnectedError);
}
