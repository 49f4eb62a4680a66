use pg_connect::{
    settle_attempt, Action, ConnectError, Dialer, ErrorKind, Event, Host, IpAddr,
    KeepaliveConfig, SocketAddr, Target, TcpAddr,
};
use std::io;
use std::time::Duration;

fn v4(a: u8, b: u8, c: u8, d: u8, port: u16) -> TcpAddr {
    TcpAddr {
        ip: IpAddr::V4(u32::from_be_bytes([a, b, c, d])),
        port,
    }
}

fn refused(msg: &str) -> ConnectError {
    ConnectError::connect(io::Error::new(io::ErrorKind::ConnectionRefused, msg))
}

fn keepalive() -> KeepaliveConfig {
    KeepaliveConfig {
        idle: Duration::from_secs(120),
        interval: Duration::from_secs(10),
        retries: 3,
    }
}

fn expect_connect(action: Action) -> Target {
    match action {
        Action::Connect(t) => t,
        other => panic!("expected a connect attempt, got {:?}", other),
    }
}

fn expect_error(action: Action) -> ConnectError {
    match action {
        Action::Finish(Err(e)) => e,
        other => panic!("expected an error, got {:?}", other),
    }
}

#[test]
fn second_address_succeeds_after_refusal() {
    let a = v4(10, 0, 0, 1, 5432);
    let b = v4(10, 0, 0, 2, 5432);
    let (mut dialer, action) = Dialer::resolved(Ok(vec![a, b]), None);
    assert!(matches!(expect_connect(action), Target::Tcp(t) if t == a));
    let action = dialer.advance(Event::Failed(refused("connection refused")));
    assert!(matches!(expect_connect(action), Target::Tcp(t) if t == b));
    let action = dialer.advance(Event::Connected);
    assert!(matches!(action, Action::SetNodelay));
    let action = dialer.advance(Event::Tuned);
    assert!(matches!(action, Action::Finish(Ok(1))));
    assert!(dialer.is_done());
}

#[test]
fn failed_lookup_is_resolution_error() {
    let e = io::Error::new(io::ErrorKind::NotFound, "no such host");
    let (dialer, action) = Dialer::resolved(Err(e), None);
    let err = expect_error(action);
    assert_eq!(err.kind, ErrorKind::Resolution);
    assert_eq!(err.cause.unwrap().to_string(), "no such host");
    assert!(dialer.is_done());
}

#[test]
fn empty_lookup_is_no_addresses() {
    let (dialer, action) = Dialer::resolved(Ok(vec![]), Some(keepalive()));
    let err = expect_error(action);
    assert_eq!(err.kind, ErrorKind::NoAddresses);
    assert!(err.cause.is_none());
    assert!(dialer.is_done());
}

#[test]
fn all_failures_report_the_last() {
    let addrs = vec![v4(10, 0, 0, 1, 1), v4(10, 0, 0, 2, 2), v4(10, 0, 0, 3, 3)];
    let (mut dialer, action) = Dialer::resolved(Ok(addrs.clone()), None);
    assert!(matches!(expect_connect(action), Target::Tcp(t) if t == addrs[0]));
    let action = dialer.advance(Event::Failed(refused("first")));
    assert!(matches!(expect_connect(action), Target::Tcp(t) if t == addrs[1]));
    let action = dialer.advance(Event::Failed(ConnectError::timeout()));
    assert!(matches!(expect_connect(action), Target::Tcp(t) if t == addrs[2]));
    let err = expect_error(dialer.advance(Event::Failed(refused("last"))));
    assert_eq!(err.kind, ErrorKind::Connect);
    assert_eq!(err.cause.unwrap().to_string(), "last");
    assert!(dialer.is_done());
}

#[test]
fn last_failure_may_be_a_timeout() {
    let (mut dialer, action) = Dialer::resolved(Ok(vec![v4(127, 0, 0, 1, 5432)]), None);
    expect_connect(action);
    let err = expect_error(dialer.advance(Event::Failed(ConnectError::timeout())));
    assert_eq!(err.kind, ErrorKind::Timeout);
    assert!(err.cause.is_none());
}

#[test]
fn first_success_skips_later_candidates_and_applies_keepalive() {
    let addrs = vec![v4(10, 0, 0, 1, 1), v4(10, 0, 0, 2, 2), v4(10, 0, 0, 3, 3)];
    let (mut dialer, action) = Dialer::resolved(Ok(addrs), Some(keepalive()));
    expect_connect(action);
    expect_connect(dialer.advance(Event::Failed(refused("down"))));
    assert!(matches!(dialer.advance(Event::Connected), Action::SetNodelay));
    match dialer.advance(Event::Tuned) {
        Action::SetKeepalive(c) => {
            assert_eq!(c.idle, Duration::from_secs(120));
            assert_eq!(c.interval, Duration::from_secs(10));
            assert_eq!(c.retries, 3);
        }
        other => panic!("expected keepalive, got {:?}", other),
    }
    assert!(matches!(dialer.advance(Event::Tuned), Action::Finish(Ok(1))));
    assert!(dialer.is_done());
}

#[test]
fn nodelay_failure_ends_the_dial() {
    let (mut dialer, action) = Dialer::resolved(Ok(vec![v4(10, 0, 0, 1, 1), v4(10, 0, 0, 2, 2)]), None);
    expect_connect(action);
    assert!(matches!(dialer.advance(Event::Connected), Action::SetNodelay));
    let e = io::Error::new(io::ErrorKind::InvalidInput, "nodelay refused");
    let err = expect_error(dialer.advance(Event::TuneFailed(e)));
    assert_eq!(err.kind, ErrorKind::Connect);
    assert_eq!(err.cause.unwrap().to_string(), "nodelay refused");
    assert!(dialer.is_done());
}

#[test]
fn keepalive_failure_ends_the_dial() {
    let (mut dialer, action) = Dialer::resolved(Ok(vec![v4(10, 0, 0, 1, 1)]), Some(keepalive()));
    expect_connect(action);
    dialer.advance(Event::Connected);
    assert!(matches!(dialer.advance(Event::Tuned), Action::SetKeepalive(_)));
    let e = io::Error::new(io::ErrorKind::Other, "keepalive refused");
    let err = expect_error(dialer.advance(Event::TuneFailed(e)));
    assert_eq!(err.kind, ErrorKind::Connect);
}

#[test]
fn local_dial_has_one_candidate_and_no_tuning() {
    let (mut dialer, action) = Dialer::local("/var/run/postgresql", 5432);
    match expect_connect(action) {
        Target::Unix(p) => assert_eq!(p, "/var/run/postgresql/.s.PGSQL.5432"),
        other => panic!("expected a local socket, got {:?}", other),
    }
    assert!(matches!(dialer.advance(Event::Connected), Action::Finish(Ok(0))));
}

#[test]
fn local_dial_failure_is_reported() {
    let (mut dialer, action) = Dialer::local("/tmp", 5432);
    expect_connect(action);
    let err = expect_error(dialer.advance(Event::Failed(refused("no server"))));
    assert_eq!(err.kind, ErrorKind::Connect);
}

#[test]
fn direct_tcp_address() {
    let host = Host::Tcp("db.example.com".to_string());
    let a = TcpAddr {
        ip: IpAddr::V6 { addr: 1, flowinfo: 0, scope_id: 0 },
        port: 5432,
    };
    let (mut dialer, action) = Dialer::direct(&host, 5432, SocketAddr::Tcp(a), None);
    assert!(matches!(expect_connect(action), Target::Tcp(t) if t == a));
    assert!(matches!(dialer.advance(Event::Connected), Action::SetNodelay));
}

#[test]
fn direct_local_address_uses_host_directory() {
    let host = Host::Unix("/run/pg".to_string());
    let (_, action) = Dialer::direct(&host, 6000, SocketAddr::Unix, None);
    match expect_connect(action) {
        Target::Unix(p) => assert_eq!(p, "/run/pg/.s.PGSQL.6000"),
        other => panic!("expected a local socket, got {:?}", other),
    }
}

#[test]
fn elapsed_deadline_is_timeout() {
    let r = settle_attempt::<u8>(None);
    let err = r.unwrap_err();
    assert_eq!(err.kind, ErrorKind::Timeout);
    assert!(err.cause.is_none());
}

#[test]
fn failed_attempt_is_connect_error() {
    let e = io::Error::new(io::ErrorKind::ConnectionRefused, "refused");
    let err = settle_attempt::<u8>(Some(Err(e))).unwrap_err();
    assert_eq!(err.kind, ErrorKind::Connect);
    assert_eq!(err.cause.unwrap().kind(), io::ErrorKind::ConnectionRefused);
}

#[test]
fn finished_attempt_hands_back_stream() {
    assert_eq!(settle_attempt(Some(Ok(7u8))).unwrap(), 7);
}

#[test]
fn error_constructors_set_kind() {
    let e = ConnectError::resolution(io::Error::new(io::ErrorKind::Other, "x"));
    assert_eq!(e.kind, ErrorKind::Resolution);
    assert_eq!(ConnectError::no_addresses().kind, ErrorKind::NoAddresses);
}
