use std::time::Duration;
use vstd::prelude::*;

verus! {

/// An I/O error of the operating system, carried as the cause of a failure.
#[verifier::external_type_specification]
#[verifier::external_body]
pub struct ExIoError(std::io::Error);

/// Where to connect: a named TCP host, or the directory that holds the
/// socket of a local server.
pub enum Host {
    Tcp(String),
    Unix(String),
}

/// An IP address as plain numbers: an IPv4 address in network order read as
/// one integer, or an IPv6 address with its flow label and scope.
#[derive(Clone, Copy, Debug, PartialEq, Eq, Structural)]
pub enum IpAddr {
    V4(u32),
    V6 { addr: u128, flowinfo: u32, scope_id: u32 },
}

/// A dialable TCP endpoint.
#[derive(Clone, Copy, Debug, PartialEq, Eq, Structural)]
pub struct TcpAddr {
    pub ip: IpAddr,
    pub port: u16,
}

/// An address that is already resolved: a TCP endpoint, or the local socket
/// of the host's directory.
#[derive(Clone, Copy, Debug, PartialEq, Eq, Structural)]
pub enum SocketAddr {
    Tcp(TcpAddr),
    Unix,
}

/// The parameters of TCP keepalive probes.
#[derive(Clone, Copy, Debug)]
pub struct KeepaliveConfig {
    /// Idle time before the first probe.
    pub idle: Duration,
    /// Time between probes.
    pub interval: Duration,
    /// Probes without answer before the connection is dropped.
    pub retries: u32,
}

/// What went wrong in a dial.
#[derive(Clone, Copy, Debug, PartialEq, Eq, Structural)]
pub enum ErrorKind {
    /// The name lookup failed.
    Resolution,
    /// A connect attempt, or tuning the connected socket, failed.
    Connect,
    /// A connect attempt did not finish before its deadline.
    Timeout,
    /// The name lookup succeeded but gave no address.
    NoAddresses,
}

/// A failed dial: its kind, and the I/O error that caused it where there is one.
#[derive(Debug)]
pub struct ConnectError {
    pub kind: ErrorKind,
    pub cause: Option<std::io::Error>,
}

pub open spec fn resolution_error(e: std::io::Error) -> ConnectError {
    ConnectError { kind: ErrorKind::Resolution, cause: Some(e) }
}

pub open spec fn connect_error(e: std::io::Error) -> ConnectError {
    ConnectError { kind: ErrorKind::Connect, cause: Some(e) }
}

pub open spec fn timeout_error() -> ConnectError {
    ConnectError { kind: ErrorKind::Timeout, cause: None }
}

pub open spec fn no_addresses_error() -> ConnectError {
    ConnectError { kind: ErrorKind::NoAddresses, cause: None }
}

impl ConnectError {
    pub fn resolution(e: std::io::Error) -> (r: ConnectError)
        ensures
            r == resolution_error(e),
    {
        ConnectError { kind: ErrorKind::Resolution, cause: Some(e) }
    }

    pub fn connect(e: std::io::Error) -> (r: ConnectError)
        ensures
            r == connect_error(e),
    {
        ConnectError { kind: ErrorKind::Connect, cause: Some(e) }
    }

    pub fn timeout() -> (r: ConnectError)
        ensures
            r == timeout_error(),
    {
        ConnectError { kind: ErrorKind::Timeout, cause: None }
    }

    pub fn no_addresses() -> (r: ConnectError)
        ensures
            r == no_addresses_error(),
    {
        ConnectError { kind: ErrorKind::NoAddresses, cause: None }
    }
}

/// The outcome of one connect attempt, from what the race between the attempt
/// and its deadline gave: `None` when the deadline came first, else what the
/// attempt returned. An I/O failure becomes a `Connect` error, an expired
/// deadline a `Timeout` error; a connected stream is handed back unchanged.
pub fn settle_attempt<T>(finished: Option<Result<T, std::io::Error>>) -> (r: Result<T, ConnectError>)
    ensures
        finished is None ==> r == Err::<T, ConnectError>(timeout_error()),
        finished matches Some(Ok(t)) ==> r == Ok::<T, ConnectError>(t),
        finished matches Some(Err(e)) ==> r == Err::<T, ConnectError>(connect_error(e)),
{
    match finished {
        None => Err(ConnectError::timeout()),
        Some(Ok(t)) => Ok(t),
        Some(Err(e)) => Err(ConnectError::connect(e)),
    }
}

} // verus!
