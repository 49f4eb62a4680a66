use crate::dial::{begin, step, tcp_targets, Action, DialState, Event, Stage, Target};
use crate::model::{
    connect_error, no_addresses_error, timeout_error, ConnectError, ErrorKind, KeepaliveConfig,
    TcpAddr,
};
use vstd::prelude::*;

verus! {

/// The actions that a dial in state `s` asks for on the events `evs`, one
/// for each event.
pub open spec fn run(s: DialState, evs: Seq<Event>) -> Seq<Action>
    decreases evs.len(),
{
    if evs.len() == 0 {
        seq![]
    } else {
        let (next, a) = step(s, evs[0]);
        seq![a] + run(next, evs.drop_first())
    }
}

/// Every action of a dial over `targets` that is given the events `evs`:
/// the one it starts with, then one for each event.
pub open spec fn trace(targets: Seq<Target>, keepalive: Option<KeepaliveConfig>, evs: Seq<Event>) -> Seq<Action> {
    let (s, a) = begin(targets, keepalive);
    seq![a] + run(s, evs)
}

/// One failed attempt for each error, in order.
pub open spec fn failures(errs: Seq<ConnectError>) -> Seq<Event> {
    errs.map_values(|e: ConnectError| Event::Failed(e))
}

/// One connect attempt for each target, in order.
pub open spec fn attempts(targets: Seq<Target>) -> Seq<Action> {
    targets.map_values(|t: Target| Action::Connect(t))
}

/// The answers of a driver that applies every socket option asked for.
pub open spec fn tuning_events(keepalive: Option<KeepaliveConfig>) -> Seq<Event> {
    match keepalive {
        Some(_) => seq![Event::Tuned, Event::Tuned],
        None => seq![Event::Tuned],
    }
}

/// The tuning of a connected TCP socket: send coalescing off, then the
/// keepalive parameters where there are some.
pub open spec fn tuning_actions(keepalive: Option<KeepaliveConfig>) -> Seq<Action> {
    match keepalive {
        Some(c) => seq![Action::SetNodelay, Action::SetKeepalive(c)],
        None => seq![Action::SetNodelay],
    }
}

proof fn lemma_run_one(s: DialState, ev: Event)
    ensures
        run(s, seq![ev]) == seq![step(s, ev).1],
{
    assert(seq![ev].drop_first() =~= seq![]);
    assert(run(step(s, ev).0, seq![]) == Seq::<Action>::empty());
    assert(run(s, seq![ev]) =~= seq![step(s, ev).1]);
}

/// Failures move a dial on to the next candidates, one at a time, as long
/// as there is one after each.
proof fn lemma_failures_move_on(s: DialState, i: int, errs: Seq<ConnectError>, rest: Seq<Event>)
    requires
        0 <= i,
        s.stage == Stage::Connecting(i as usize),
        i + errs.len() < s.targets.len(),
        s.targets.len() <= usize::MAX,
    ensures
        run(s, failures(errs) + rest) == attempts(s.targets.subrange(i + 1, i + 1 + errs.len()))
            + run(s.at(Stage::Connecting((i + errs.len()) as usize)), rest),
    decreases errs.len(),
{
    let evs = failures(errs) + rest;
    if errs.len() == 0 {
        assert(evs =~= rest);
        assert(attempts(s.targets.subrange(i + 1, i + 1)) =~= seq![]);
        assert(s.at(Stage::Connecting(i as usize)) == s);
    } else {
        let s1 = s.at(Stage::Connecting((i + 1) as usize));
        assert(evs[0] == Event::Failed(errs[0]));
        assert(step(s, evs[0]) == (s1, Action::Connect(s.targets[i + 1])));
        assert(evs.drop_first() =~= failures(errs.drop_first()) + rest);
        lemma_failures_move_on(s1, i + 1, errs.drop_first(), rest);
        assert(s1.at(Stage::Connecting((i + errs.len()) as usize)) == s.at(
            Stage::Connecting((i + errs.len()) as usize),
        ));
        assert(attempts(s.targets.subrange(i + 1, i + 1 + errs.len())) =~= seq![
            Action::Connect(s.targets[i + 1]),
        ] + attempts(s.targets.subrange(i + 2, i + 1 + errs.len())));
    }
}

/// When the candidates before index `errs.len()` fail and that one connects,
/// the dial tries exactly the candidates up to it, in order, tunes its socket,
/// and hands it over: no later candidate is tried.
pub proof fn first_success_wins(addrs: Seq<TcpAddr>, keepalive: Option<KeepaliveConfig>, errs: Seq<ConnectError>)
    requires
        errs.len() < addrs.len(),
        addrs.len() <= usize::MAX,
    ensures
        trace(tcp_targets(addrs), keepalive, failures(errs) + seq![Event::Connected] + tuning_events(keepalive))
            == attempts(tcp_targets(addrs).take(errs.len() + 1int)) + tuning_actions(keepalive)
            + seq![Action::Finish(Ok(errs.len() as usize))],
{
    let t = tcp_targets(addrs);
    let k = errs.len() as int;
    let (s0, a0) = begin(t, keepalive);
    let rest = seq![Event::Connected] + tuning_events(keepalive);
    assert(failures(errs) + seq![Event::Connected] + tuning_events(keepalive) =~= failures(errs) + rest);
    lemma_failures_move_on(s0, 0, errs, rest);
    let sk = s0.at(Stage::Connecting(k as usize));
    assert(t[k as int] is Tcp);
    let s1 = sk.at(Stage::SettingNodelay(k as usize));
    assert(step(sk, rest[0]) == (s1, Action::SetNodelay));
    let r1 = rest.drop_first();
    assert(run(sk, rest) == seq![Action::SetNodelay] + run(s1, r1));
    match keepalive {
        Some(c) => {
            let s2 = s1.at(Stage::SettingKeepalive(k as usize));
            assert(r1 =~= seq![Event::Tuned, Event::Tuned]);
            assert(step(s1, r1[0]) == (s2, Action::SetKeepalive(c)));
            let r2 = r1.drop_first();
            assert(r2 =~= seq![Event::Tuned]);
            lemma_run_one(s2, Event::Tuned);
            assert(run(s2, r2) =~= seq![Action::Finish(Ok(k as usize))]);
            assert(run(s1, r1) =~= seq![Action::SetKeepalive(c), Action::Finish(Ok(k as usize))]);
            assert(run(sk, rest) =~= tuning_actions(keepalive) + seq![Action::Finish(Ok(k as usize))]);
        },
        None => {
            assert(r1 =~= seq![Event::Tuned]);
            lemma_run_one(s1, Event::Tuned);
            assert(run(s1, r1) =~= seq![Action::Finish(Ok(k as usize))]);
            assert(run(sk, rest) =~= tuning_actions(keepalive) + seq![Action::Finish(Ok(k as usize))]);
        },
    }
    assert(seq![a0] + attempts(t.subrange(1, 1 + k)) =~= attempts(t.take(k + 1)));
    assert(run(s0, failures(errs) + rest) =~= attempts(t.subrange(1, 1 + k)) + run(sk, rest));
    assert(trace(t, keepalive, failures(errs) + rest) =~= attempts(t.take(k + 1)) + tuning_actions(
        keepalive,
    ) + seq![Action::Finish(Ok(k as usize))]);
}

/// When every candidate fails, the dial tries them all, in order, and its
/// error is the failure of the last one.
pub proof fn last_failure_is_reported(targets: Seq<Target>, keepalive: Option<KeepaliveConfig>, errs: Seq<ConnectError>)
    requires
        targets.len() > 0,
        errs.len() == targets.len(),
        targets.len() <= usize::MAX,
    ensures
        trace(targets, keepalive, failures(errs)) == attempts(targets) + seq![Action::Finish(Err(errs.last()))],
{
    let n = targets.len() as int;
    let (s0, a0) = begin(targets, keepalive);
    let front = errs.take(n - 1);
    let rest = seq![Event::Failed(errs.last())];
    assert(failures(errs) =~= failures(front) + rest);
    lemma_failures_move_on(s0, 0, front, rest);
    let sl = s0.at(Stage::Connecting((n - 1) as usize));
    assert(step(sl, rest[0]) == (sl.at(Stage::Done), Action::Finish(Err(errs.last()))));
    lemma_run_one(sl, Event::Failed(errs.last()));
    assert(run(sl, rest) =~= seq![Action::Finish(Err(errs.last()))]);
    assert(seq![a0] + attempts(targets.subrange(1, n)) =~= attempts(targets));
    assert(trace(targets, keepalive, failures(errs)) =~= attempts(targets) + seq![
        Action::Finish(Err(errs.last())),
    ]);
}

/// A dial without any candidate tries nothing and ends at once with a
/// `NoAddresses` error, which has no cause and differs from every error
/// that a failed attempt gives.
pub proof fn no_addresses_stands_apart(keepalive: Option<KeepaliveConfig>)
    ensures
        trace(seq![], keepalive, seq![]) == seq![Action::Finish(Err(no_addresses_error()))],
        no_addresses_error().kind == ErrorKind::NoAddresses,
        no_addresses_error().cause is None,
        no_addresses_error() != timeout_error(),
        forall|e: std::io::Error| no_addresses_error() != #[trigger] connect_error(e),
{
    assert(trace(seq![], keepalive, seq![]) =~= seq![Action::Finish(Err(no_addresses_error()))]);
}

} // verus!
