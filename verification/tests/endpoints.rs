use uniclip::endpoint::{ConnectOutcome, Launch, NetFault, Serve, ServeEvent};
use uniclip::error::{Level, Report};
use uniclip::options::Options;
use uniclip::proto::Connection;
use uniclip::session::{Next, Point, Session, Task};

fn options() -> Options {
    Options {
        allowed_time_diff: Some(30),
        keep_alive: Some(30),
        max_buffer_size: Some(1000),
        sync_interval: Some(60),
        timeout_sec: Some(3),
        clipboard_poll_freq_ms: Some(500),
        sync_on_start: Some(false),
    }
}

fn reason() -> String {
    String::from("reason")
}

fn fatal(line: &str) -> Report {
    Report { level: Level::Error, line: String::from(line), cancel: true }
}

fn connect(outcome: ConnectOutcome) -> Launch {
    Connection::spawn_connect(&String::from("host:9"), outcome, &options())
}

#[test]
fn connected_side_runs_a_session() {
    let (session, output) = Session::connected(&options());
    assert_eq!(connect(ConnectOutcome::Connected), Launch::Run(session, output));
}

#[test]
fn unreachable_side_is_named() {
    let refused = "[LOCAL] ConnectionError: \
                   Broken connection. Details: Could not connect to host:9.\n";
    for fault in [
        NetFault::ConnectionRefused,
        NetFault::ConnectionReset,
        NetFault::ConnectionAborted,
        NetFault::HostUnreachable,
        NetFault::NetworkUnreachable,
        NetFault::NotConnected,
    ] {
        let launch = connect(ConnectOutcome::Failed(fault, reason()));
        assert_eq!(launch, Launch::Stop(fatal(refused)));
    }
}

#[test]
fn connecting_fails_otherwise() {
    for fault in [NetFault::WouldBlock, NetFault::Other] {
        assert_eq!(
            connect(ConnectOutcome::Failed(fault, reason())),
            Launch::Stop(fatal("[LOCAL] IOError: IOError occured! Details: reason\n"))
        );
    }
    assert_eq!(
        connect(ConnectOutcome::Elapsed),
        Launch::Stop(fatal(
            "[LOCAL] TimeoutError: Timed out while trying to reach the client.\n"
        ))
    );
}

#[test]
fn server_accepts_and_runs_sessions() {
    assert_eq!(Connection::spawn_serve(ServeEvent::Bound), Serve::Accept);
    let Serve::Run(session, output) = Connection::spawn_serve(ServeEvent::Accepted) else {
        panic!("a session runs");
    };
    assert_eq!(session.conn, Connection::new());
    assert_eq!(session.point, Point::StartKeepAlive(Task::Opening));
    assert_eq!(output.next, Next::Proceed);
}

#[test]
fn server_survives_passing_faults() {
    for fault in [NetFault::WouldBlock, NetFault::ConnectionAborted, NetFault::ConnectionReset] {
        assert_eq!(
            Connection::spawn_serve(ServeEvent::AcceptFailed(fault, reason())),
            Serve::Skip(Report {
                level: Level::Warn,
                line: String::from(
                    "[LOCAL] ConnectionError: Broken connection. Details: reason\n"
                ),
                cancel: false,
            })
        );
    }
}

#[test]
fn server_stops_for_other_faults() {
    let stop = "[LOCAL] IOError: IOError occured! Details: reason\n";
    assert_eq!(
        Connection::spawn_serve(ServeEvent::BindFailed(reason())),
        Serve::Stop(fatal(stop))
    );
    for fault in [
        NetFault::ConnectionRefused,
        NetFault::HostUnreachable,
        NetFault::NetworkUnreachable,
        NetFault::NotConnected,
        NetFault::Other,
    ] {
        assert_eq!(
            Connection::spawn_serve(ServeEvent::AcceptFailed(fault, reason())),
            Serve::Stop(fatal(stop))
        );
    }
}
