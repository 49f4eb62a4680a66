//! Establishing a transport connection to a PostgreSQL server over TCP or a
//! Unix-domain socket: the host and address model, the socket path of a local
//! server, and the decisions of a dial (which candidate to try next, when to
//! tune the socket, which error to report).
pub mod dial;
pub mod laws;
pub mod model;
pub mod path;

pub use path::{socket_file_name, socket_path};
pub use model::{
    settle_attempt, ConnectError, ErrorKind, Host, IpAddr, KeepaliveConfig, SocketAddr, TcpAddr,
};
pub use dial::{Action, DialState, Dialer, Event, Stage, Target};
pub use laws::{first_success_wins, last_failure_is_reported, no_addresses_stands_apart};
