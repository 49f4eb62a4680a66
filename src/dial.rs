use crate::model::{
    connect_error, no_addresses_error, resolution_error, ConnectError, Host, KeepaliveConfig,
    SocketAddr, TcpAddr,
};
use crate::path::{socket_path, socket_path_spec};
use vstd::prelude::*;

verus! {

/// One candidate of a dial: a TCP endpoint, or the path of a local socket.
#[derive(Debug)]
pub enum Target {
    Tcp(TcpAddr),
    Unix(String),
}

impl Target {
    /// A copy of this target.
    pub fn duplicate(&self) -> (r: Target)
        ensures
            r == *self,
    {
        match self {
            Target::Tcp(a) => Target::Tcp(*a),
            Target::Unix(p) => Target::Unix(p.clone()),
        }
    }
}

/// Where a dial stands.
#[derive(Clone, Copy, Debug, PartialEq, Eq, Structural)]
pub enum Stage {
    /// Waiting for the attempt on the candidate with this index.
    Connecting(usize),
    /// The candidate with this index connected; waiting for send coalescing
    /// to be switched off on it.
    SettingNodelay(usize),
    /// The candidate with this index connected; waiting for its keepalive
    /// parameters to be applied.
    SettingKeepalive(usize),
    /// The dial has reported its result.
    Done,
}

/// What the driver of a dial learned from the work it was asked to do.
#[derive(Debug)]
pub enum Event {
    /// The attempt on the current candidate connected.
    Connected,
    /// The attempt on the current candidate failed.
    Failed(ConnectError),
    /// The socket option asked for was applied.
    Tuned,
    /// The socket option asked for could not be applied.
    TuneFailed(std::io::Error),
}

/// The work that a dial asks of its driver next.
#[derive(Debug)]
pub enum Action {
    /// Try to connect to this candidate, within the deadline if one is set.
    Connect(Target),
    /// Switch off send coalescing on the connected TCP socket.
    SetNodelay,
    /// Apply these keepalive parameters to the connected TCP socket.
    SetKeepalive(KeepaliveConfig),
    /// The dial is over: the index of the candidate whose socket is handed to
    /// the caller, or the error.
    Finish(Result<usize, ConnectError>),
}

/// The decisions of one dial over a fixed list of candidates, tried one after
/// another in their order.
#[derive(Debug)]
pub struct Dialer {
    targets: Vec<Target>,
    keepalive: Option<KeepaliveConfig>,
    stage: Stage,
}

/// The abstract state of a dial.
pub struct DialState {
    pub targets: Seq<Target>,
    pub keepalive: Option<KeepaliveConfig>,
    pub stage: Stage,
}

impl View for Dialer {
    type V = DialState;

    closed spec fn view(&self) -> DialState {
        DialState { targets: self.targets@, keepalive: self.keepalive, stage: self.stage }
    }
}

impl DialState {
    /// The stage refers to a candidate that exists; tuning happens on TCP
    /// candidates only, and keepalive only when it is configured.
    pub open spec fn wf(self) -> bool {
        match self.stage {
            Stage::Connecting(i) => i < self.targets.len(),
            Stage::SettingNodelay(i) => i < self.targets.len() && self.targets[i as int] is Tcp,
            Stage::SettingKeepalive(i) => {
                &&& i < self.targets.len()
                &&& self.targets[i as int] is Tcp
                &&& self.keepalive is Some
            },
            Stage::Done => true,
        }
    }

    /// Whether `ev` answers the work that this state asked for.
    pub open spec fn accepts(self, ev: Event) -> bool {
        match self.stage {
            Stage::Connecting(_) => ev is Connected || ev is Failed,
            Stage::SettingNodelay(_) | Stage::SettingKeepalive(_) => ev is Tuned || ev is TuneFailed,
            Stage::Done => false,
        }
    }

    pub open spec fn at(self, stage: Stage) -> DialState {
        DialState { stage, ..self }
    }
}

/// How a dial over `targets` starts: with an attempt on the first one, or,
/// where there is none, with a `NoAddresses` error.
pub open spec fn begin(targets: Seq<Target>, keepalive: Option<KeepaliveConfig>) -> (DialState, Action) {
    let s = DialState { targets, keepalive, stage: Stage::Done };
    if targets.len() == 0 {
        (s, Action::Finish(Err(no_addresses_error())))
    } else {
        (s.at(Stage::Connecting(0)), Action::Connect(targets[0]))
    }
}

/// The next state and action of a dial in state `s` on the event `ev`. A
/// failed candidate hands over to the next one, and the last one's failure
/// is the dial's error. A connected TCP candidate has send coalescing
/// switched off, then its keepalive applied where configured; a failure of
/// either ends the dial with a `Connect` error. A connected local socket is
/// handed over as it is.
pub open spec fn step(s: DialState, ev: Event) -> (DialState, Action) {
    match s.stage {
        Stage::Connecting(i) => match ev {
            Event::Connected => match s.targets[i as int] {
                Target::Tcp(_) => (s.at(Stage::SettingNodelay(i)), Action::SetNodelay),
                Target::Unix(_) => (s.at(Stage::Done), Action::Finish(Ok(i as usize))),
            },
            Event::Failed(e) => if i + 1 < s.targets.len() {
                (s.at(Stage::Connecting((i + 1) as usize)), Action::Connect(s.targets[i + 1]))
            } else {
                (s.at(Stage::Done), Action::Finish(Err(e)))
            },
            _ => arbitrary(),
        },
        Stage::SettingNodelay(i) => match ev {
            Event::Tuned => match s.keepalive {
                Some(c) => (s.at(Stage::SettingKeepalive(i)), Action::SetKeepalive(c)),
                None => (s.at(Stage::Done), Action::Finish(Ok(i as usize))),
            },
            Event::TuneFailed(e) => (s.at(Stage::Done), Action::Finish(Err(connect_error(e)))),
            _ => arbitrary(),
        },
        Stage::SettingKeepalive(i) => match ev {
            Event::Tuned => (s.at(Stage::Done), Action::Finish(Ok(i as usize))),
            Event::TuneFailed(e) => (s.at(Stage::Done), Action::Finish(Err(connect_error(e)))),
            _ => arbitrary(),
        },
        Stage::Done => arbitrary(),
    }
}

pub open spec fn tcp_targets(addrs: Seq<TcpAddr>) -> Seq<Target> {
    addrs.map_values(|a: TcpAddr| Target::Tcp(a))
}

/// `targets` is the one candidate of a local server: its socket under `dir`.
pub open spec fn is_local_target(targets: Seq<Target>, dir: Seq<char>, port: u16) -> bool {
    &&& targets.len() == 1
    &&& targets[0] matches Target::Unix(p)
    &&& p@ == socket_path_spec(dir, port)
}

impl Dialer {
    /// Starts a dial over `targets` with the given keepalive parameters.
    pub fn new(targets: Vec<Target>, keepalive: Option<KeepaliveConfig>) -> (r: (Dialer, Action))
        ensures
            r.0@.wf(),
            (r.0@, r.1) == begin(targets@, keepalive),
    {
        if targets.len() == 0 {
            let d = Dialer { targets, keepalive, stage: Stage::Done };
            (d, Action::Finish(Err(ConnectError::no_addresses())))
        } else {
            let first = targets[0].duplicate();
            let d = Dialer { targets, keepalive, stage: Stage::Connecting(0) };
            (d, Action::Connect(first))
        }
    }

    /// Starts a dial over what a name lookup gave: its failure ends the dial
    /// at once with a `Resolution` error, and no candidate is tried; else
    /// the resolved addresses are tried in the order of the lookup.
    pub fn resolved(lookup: Result<Vec<TcpAddr>, std::io::Error>, keepalive: Option<KeepaliveConfig>) -> (r: (Dialer, Action))
        ensures
            r.0@.wf(),
            lookup matches Ok(addrs) ==> (r.0@, r.1) == begin(tcp_targets(addrs@), keepalive),
            lookup matches Err(e) ==> r.0@.stage == Stage::Done
                && r.1 == Action::Finish(Err(resolution_error(e))),
    {
        match lookup {
            Ok(addrs) => {
                let mut targets: Vec<Target> = Vec::new();
                let mut i: usize = 0;
                while i < addrs.len()
                    invariant
                        i <= addrs.len(),
                        targets@ == tcp_targets(addrs@.subrange(0, i as int)),
                    decreases addrs.len() - i,
                {
                    targets.push(Target::Tcp(addrs[i]));
                    i = i + 1;
                    assert(targets@ =~= tcp_targets(addrs@.subrange(0, i as int)));
                }
                assert(addrs@.subrange(0, addrs.len() as int) =~= addrs@);
                Dialer::new(targets, keepalive)
            },
            Err(e) => {
                let d = Dialer { targets: Vec::new(), keepalive, stage: Stage::Done };
                (d, Action::Finish(Err(ConnectError::resolution(e))))
            },
        }
    }

    /// Starts a dial to the local server whose socket lies in `dir`: its one
    /// candidate is the path `<dir>/.s.PGSQL.<port>`.
    pub fn local(dir: &str, port: u16) -> (r: (Dialer, Action))
        ensures
            r.0@.wf(),
            is_local_target(r.0@.targets, dir@, port),
            (r.0@, r.1) == begin(r.0@.targets, None),
    {
        let path = socket_path(dir, port);
        let mut targets: Vec<Target> = Vec::new();
        targets.push(Target::Unix(path));
        Dialer::new(targets, None)
    }

    /// Starts a dial to one address that is already resolved. A TCP address
    /// is its one candidate; a local one stands for the socket in the
    /// directory of `host`, which must then be a local host.
    pub fn direct(host: &Host, port: u16, addr: SocketAddr, keepalive: Option<KeepaliveConfig>) -> (r: (Dialer, Action))
        requires
            addr is Unix ==> host is Unix,
        ensures
            r.0@.wf(),
            addr matches SocketAddr::Tcp(a) ==> (r.0@, r.1) == begin(seq![Target::Tcp(a)], keepalive),
            addr is Unix ==> (host matches Host::Unix(dir) && is_local_target(r.0@.targets, dir@, port)
                && (r.0@, r.1) == begin(r.0@.targets, None)),
    {
        match addr {
            SocketAddr::Tcp(a) => {
                let mut targets: Vec<Target> = Vec::new();
                targets.push(Target::Tcp(a));
                assert(targets@ =~= seq![Target::Tcp(a)]);
                Dialer::new(targets, keepalive)
            },
            SocketAddr::Unix => match host {
                Host::Unix(dir) => Dialer::local(dir.as_str(), port),
                Host::Tcp(_) => {
                    proof {
                        assert(false);
                    }
                    Dialer::new(Vec::new(), None)
                },
            },
        }
    }

    /// Whether the dial has reported its result.
    pub fn is_done(&self) -> (r: bool)
        ensures
            r == (self@.stage == Stage::Done),
    {
        match self.stage {
            Stage::Done => true,
            _ => false,
        }
    }

    /// Takes in what the last action gave and says what to do next.
    pub fn advance(&mut self, ev: Event) -> (r: Action)
        requires
            old(self)@.wf(),
            old(self)@.accepts(ev),
        ensures
            final(self)@.wf(),
            (final(self)@, r) == step(old(self)@, ev),
    {
        match self.stage {
            Stage::Connecting(i) => match ev {
                Event::Connected => match &self.targets[i] {
                    Target::Tcp(_) => {
                        self.stage = Stage::SettingNodelay(i);
                        Action::SetNodelay
                    },
                    Target::Unix(_) => {
                        self.stage = Stage::Done;
                        Action::Finish(Ok(i))
                    },
                },
                Event::Failed(e) => if i < self.targets.len() - 1 {
                    self.stage = Stage::Connecting(i + 1);
                    Action::Connect(self.targets[i + 1].duplicate())
                } else {
                    self.stage = Stage::Done;
                    Action::Finish(Err(e))
                },
                _ => {
                    proof {
                        assert(false);
                    }
                    Action::SetNodelay
                },
            },
            Stage::SettingNodelay(i) => match ev {
                Event::Tuned => match self.keepalive {
                    Some(c) => {
                        self.stage = Stage::SettingKeepalive(i);
                        Action::SetKeepalive(c)
                    },
                    None => {
                        self.stage = Stage::Done;
                        Action::Finish(Ok(i))
                    },
                },
                Event::TuneFailed(e) => {
                    self.stage = Stage::Done;
                    Action::Finish(Err(ConnectError::connect(e)))
                },
                _ => {
                    proof {
                        assert(false);
                    }
                    Action::SetNodelay
                },
            },
            Stage::SettingKeepalive(i) => match ev {
                Event::Tuned => {
                    self.stage = Stage::Done;
                    Action::Finish(Ok(i))
                },
                Event::TuneFailed(e) => {
                    self.stage = Stage::Done;
                    Action::Finish(Err(ConnectError::connect(e)))
                },
                _ => {
                    proof {
                        assert(false);
                    }
                    Action::SetNodelay
                },
            },
            Stage::Done => {
                proof {
                    assert(false);
                }
                Action::SetNodelay
            },
        }
    }
}

} // verus!
