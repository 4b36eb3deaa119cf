use uniclip::options::{
    get_option, set_options, Args, Options, BYTES_PER_MB, DEFAULT_ALLOWED_TIME_DIFF,
    DEFAULT_CLIPBOARD_POLL_FREQ_MS, DEFAULT_KEEP_ALIVE, DEFAULT_MAX_MESSAGE_SIZE,
    DEFAULT_SYNC_INTERVAL, DEFAULT_TIMEOUT_SEC,
};

#[test]
fn options_are_set_from_the_command_line() {
    let mut options = Options::new();
    assert_eq!(options.timeout_sec, None);
    let (server, addr) = set_options(
        &mut options,
        Args {
            server_mode: true,
            connection_string: String::from("0.0.0.0:1234"),
            allowed_time_diff: 31,
            keep_alive: 32,
            max_message_size: 3,
            sync_interval: 33,
            timeout_sec: 34,
            clipboard_poll_freq_ms: 35,
            sync_on_start: true,
        },
    );
    assert!(server);
    assert_eq!(addr, "0.0.0.0:1234");
    assert_eq!(get_option(&options.allowed_time_diff), 31);
    assert_eq!(get_option(&options.keep_alive), 32);
    assert_eq!(get_option(&options.max_buffer_size), 3 * 1024 * 1024);
    assert_eq!(get_option(&options.sync_interval), 33);
    assert_eq!(get_option(&options.timeout_sec), 34);
    assert_eq!(get_option(&options.clipboard_poll_freq_ms), 35);
    assert_eq!(get_option(&options.sync_on_start), true);
}

#[test]
fn default_settings() {
    assert_eq!(DEFAULT_ALLOWED_TIME_DIFF, 30);
    assert_eq!(DEFAULT_KEEP_ALIVE, 30);
    assert_eq!(DEFAULT_MAX_MESSAGE_SIZE, 50);
    assert_eq!(DEFAULT_SYNC_INTERVAL, 60);
    assert_eq!(DEFAULT_TIMEOUT_SEC, 3);
    assert_eq!(DEFAULT_CLIPBOARD_POLL_FREQ_MS, 500);
    assert_eq!(BYTES_PER_MB, 1024 * 1024);
}
