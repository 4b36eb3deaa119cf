//! The settings of the program. Each is unset until the command line has been read, is
//! set once, and is read only after that.
use vstd::prelude::*;

verus! {

/// Allowed time difference between client and server, in seconds, unless told otherwise.
pub const DEFAULT_ALLOWED_TIME_DIFF: u64 = 30;

/// Interval to send keep alive packets, in seconds, unless told otherwise.
pub const DEFAULT_KEEP_ALIVE: u64 = 30;

/// Maximum message size in MB, unless told otherwise.
pub const DEFAULT_MAX_MESSAGE_SIZE: u64 = 50;

/// Interval to sync the clipboard between client and server, in seconds, unless told
/// otherwise.
pub const DEFAULT_SYNC_INTERVAL: u64 = 60;

/// Timeout for network requests, in seconds, unless told otherwise.
pub const DEFAULT_TIMEOUT_SEC: u64 = 3;

/// Interval to poll the system clipboard, in milliseconds, unless told otherwise.
pub const DEFAULT_CLIPBOARD_POLL_FREQ_MS: u64 = 500;

/// The number of bytes in a megabyte.
pub const BYTES_PER_MB: u64 = 1048576;

/// What the command line says.
#[derive(Debug, PartialEq, Eq)]
pub struct Args {
    /// Whether to start the server.
    pub server_mode: bool,
    /// Server or bind address.
    pub connection_string: String,
    pub allowed_time_diff: u64,
    pub keep_alive: u64,
    /// Maximum message size in MB.
    pub max_message_size: u64,
    pub sync_interval: u64,
    pub timeout_sec: u64,
    pub clipboard_poll_freq_ms: u64,
    /// Whether to start without the local contents and wait for those of the other side.
    pub sync_on_start: bool,
}

/// The settings, each `None` until it is set.
#[derive(Debug, Clone, Copy, PartialEq, Eq)]
pub struct Options {
    pub allowed_time_diff: Option<u64>,
    pub keep_alive: Option<u64>,
    /// In bytes.
    pub max_buffer_size: Option<u64>,
    pub sync_interval: Option<u64>,
    pub timeout_sec: Option<u64>,
    pub clipboard_poll_freq_ms: Option<u64>,
    pub sync_on_start: Option<bool>,
}

impl Options {
    /// No setting has been made.
    pub open spec fn unset(self) -> bool {
        &&& self.allowed_time_diff is None
        &&& self.keep_alive is None
        &&& self.max_buffer_size is None
        &&& self.sync_interval is None
        &&& self.timeout_sec is None
        &&& self.clipboard_poll_freq_ms is None
        &&& self.sync_on_start is None
    }

    /// Every setting has been made.
    pub open spec fn ready(self) -> bool {
        &&& self.allowed_time_diff is Some
        &&& self.keep_alive is Some
        &&& self.max_buffer_size is Some
        &&& self.sync_interval is Some
        &&& self.timeout_sec is Some
        &&& self.clipboard_poll_freq_ms is Some
        &&& self.sync_on_start is Some
    }

    /// Settings of which none has been made.
    pub fn new() -> (options: Self)
        ensures
            options.unset(),
    {
        Options {
            allowed_time_diff: None,
            keep_alive: None,
            max_buffer_size: None,
            sync_interval: None,
            timeout_sec: None,
            clipboard_poll_freq_ms: None,
            sync_on_start: None,
        }
    }
}

/// The value of a setting that has been made.
pub fn get_option<T: Clone>(option: &Option<T>) -> (value: T)
    requires
        option is Some,
    ensures
        cloned::<T>(option->0, value),
{
    option.as_ref().unwrap().clone()
}

/// Makes every setting from the command line, and hands back whether to run as a server
/// and the address to use. Settings are made once: none may have been made before.
pub fn set_options(options: &mut Options, args: Args) -> (mode: (bool, String))
    requires
        old(options).unset(),
        args.max_message_size * BYTES_PER_MB <= u64::MAX,
    ensures
        final(options).ready(),
        final(options).allowed_time_diff == Some(args.allowed_time_diff),
        final(options).keep_alive == Some(args.keep_alive),
        final(options).max_buffer_size == Some((args.max_message_size * BYTES_PER_MB) as u64),
        final(options).sync_interval == Some(args.sync_interval),
        final(options).timeout_sec == Some(args.timeout_sec),
        final(options).clipboard_poll_freq_ms == Some(args.clipboard_poll_freq_ms),
        final(options).sync_on_start == Some(args.sync_on_start),
        mode.0 == args.server_mode,
        mode.1@ == args.connection_string@,
{
    options.allowed_time_diff = Some(args.allowed_time_diff);
    options.keep_alive = Some(args.keep_alive);
    options.max_buffer_size = Some(args.max_message_size * BYTES_PER_MB);
    options.sync_interval = Some(args.sync_interval);
    options.timeout_sec = Some(args.timeout_sec);
    options.clipboard_poll_freq_ms = Some(args.clipboard_poll_freq_ms);
    options.sync_on_start = Some(args.sync_on_start);
    (args.server_mode, args.connection_string)
}

} // verus!
