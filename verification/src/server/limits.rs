//! How many connections a server keeps open, and for how long it keeps idle ones.
use std::time::Duration;
use vstd::prelude::*;

verus! {

/// Something that concerns how many connections are open.
#[derive(Clone, Copy, Debug, PartialEq, Eq, Structural)]
pub enum SocketEvent {
    /// The server would accept another connection.
    Free,
    /// Another connection was accepted.
    Accepted,
    /// A connection ended.
    Ended,
}

/// What is to be done about an event.
#[derive(Clone, Copy, Debug, PartialEq, Eq, Structural)]
pub enum SocketAction {
    /// Accept another connection.
    Accept,
    /// Accept none before a connection has ended.
    Wait,
    /// Serve the connection that was accepted.
    Serve,
    /// Drop the connection that was accepted.
    Refuse,
    /// Go on accepting connections.
    Resume,
}

/// How many connections are open after an event, and what is to be done about it.
pub open spec fn socket_step(max_sockets: nat, open: nat, event: SocketEvent) -> (
    nat,
    SocketAction,
) {
    match event {
        SocketEvent::Free => (
            open,
            if open < max_sockets {
                SocketAction::Accept
            } else {
                SocketAction::Wait
            },
        ),
        SocketEvent::Accepted => if open < max_sockets {
            (open + 1, SocketAction::Serve)
        } else {
            (open, SocketAction::Refuse)
        },
        SocketEvent::Ended => (
            if open > 0 {
                (open - 1) as nat
            } else {
                0
            },
            SocketAction::Resume,
        ),
    }
}

/// How many connections are open after some events, where none was before.
pub open spec fn open_after(max_sockets: nat, events: Seq<SocketEvent>) -> nat
    decreases events.len(),
{
    if events.len() == 0 {
        0
    } else {
        socket_step(max_sockets, open_after(max_sockets, events.drop_last()), events.last()).0
    }
}

/// Keeps count of the open connections: how many there are after an event, and what is to be done
/// about it.
pub fn count_sockets(max_sockets: usize, open: usize, event: SocketEvent) -> (out: (
    usize,
    SocketAction,
))
    requires
        open <= max_sockets,
    ensures
        out.0 <= max_sockets,
        (out.0 as nat, out.1) == socket_step(max_sockets as nat, open as nat, event),
{
    match event {
        SocketEvent::Free => if open < max_sockets {
            (open, SocketAction::Accept)
        } else {
            (open, SocketAction::Wait)
        },
        SocketEvent::Accepted => if open < max_sockets {
            (open + 1, SocketAction::Serve)
        } else {
            (open, SocketAction::Refuse)
        },
        SocketEvent::Ended => if open > 0 {
            (open - 1, SocketAction::Resume)
        } else {
            (0, SocketAction::Resume)
        },
    }
}

/// There are never more connections open than the server was set to keep, and a connection that was
/// accepted on the server's say is served.
pub proof fn sockets_are_bounded(max_sockets: nat, events: Seq<SocketEvent>)
    ensures
        open_after(max_sockets, events) <= max_sockets,
        socket_step(max_sockets, open_after(max_sockets, events), SocketEvent::Free).1
            == SocketAction::Accept ==> socket_step(
            max_sockets,
            open_after(max_sockets, events),
            SocketEvent::Accepted,
        ).1 == SocketAction::Serve,
    decreases events.len(),
{
    if events.len() > 0 {
        sockets_are_bounded(max_sockets, events.drop_last());
    }
}

/// Something that concerns how long a connection has been idle.
#[derive(Clone, Copy, Debug, PartialEq, Eq, Structural)]
pub enum IdleEvent {
    /// The connection was taken on and has to wait. `idle` says whether it waits for a message to
    /// begin, and `begun` whether one began meanwhile.
    Waits {
        idle: bool,
        begun: bool,
    },
    /// The timer ran out.
    Fired,
}

/// What is to be done about a connection's timer.
#[derive(Debug)]
pub enum IdleAction {
    /// Leave it as it is.
    Keep,
    /// Stop it, if it runs.
    Stop,
    /// Start it anew, for this length of time.
    Start(Duration),
    /// Close the connection.
    Close,
}

/// Whether a connection's timer runs after an event, and what is to be done about it: it runs while
/// the connection is idle, from when it became so, and closes it when it runs out.
pub open spec fn idle_step(timeout: Option<Duration>, running: bool, event: IdleEvent) -> (
    bool,
    IdleAction,
) {
    match (event, timeout) {
        (IdleEvent::Fired, _) => (
            false,
            if running {
                IdleAction::Close
            } else {
                IdleAction::Keep
            },
        ),
        (IdleEvent::Waits { idle, begun }, Some(timeout)) if idle => (
            true,
            if running && !begun {
                IdleAction::Keep
            } else {
                IdleAction::Start(timeout)
            },
        ),
        (IdleEvent::Waits { .. }, _) => (false, IdleAction::Stop),
    }
}

/// Whether a connection's timer runs after some events, where it did not run before.
pub open spec fn runs_after(timeout: Option<Duration>, events: Seq<IdleEvent>) -> bool
    decreases events.len(),
{
    if events.len() == 0 {
        false
    } else {
        idle_step(timeout, runs_after(timeout, events.drop_last()), events.last()).0
    }
}

/// What is to be done about the `i`th of some events.
pub open spec fn action_at(timeout: Option<Duration>, events: Seq<IdleEvent>, i: int) -> IdleAction {
    idle_step(timeout, runs_after(timeout, events.take(i)), events[i]).1
}

/// Keeps a connection's timer: whether it runs after an event, and what is to be done about it.
pub fn keep_idle(timeout: Option<Duration>, running: bool, event: IdleEvent) -> (out: (
    bool,
    IdleAction,
))
    ensures
        out == idle_step(timeout, running, event),
{
    match event {
        IdleEvent::Fired => if running {
            (false, IdleAction::Close)
        } else {
            (false, IdleAction::Keep)
        },
        IdleEvent::Waits { idle, begun } => match timeout {
            Some(timeout) if idle => if running && !begun {
                (true, IdleAction::Keep)
            } else {
                (true, IdleAction::Start(timeout))
            },
            _ => (false, IdleAction::Stop),
        },
    }
}

/// A connection that is idle has its timer running, if it is not to be kept for ever, and one that
/// is not idle has not.
pub proof fn timer_runs_while_idle(timeout: Option<Duration>, events: Seq<IdleEvent>)
    requires
        events.len() > 0,
    ensures
        runs_after(timeout, events) == (timeout is Some && (events.last() matches IdleEvent::Waits {
            idle,
            ..
        } && idle)),
{
}

/// A timer that runs was started, for the length of time that was set, and since then the
/// connection has been idle and no message has begun.
proof fn running_was_started(timeout: Option<Duration>, events: Seq<IdleEvent>) -> (start: int)
    requires
        runs_after(timeout, events),
    ensures
        timeout is Some,
        0 <= start < events.len(),
        action_at(timeout, events, start) == IdleAction::Start(timeout->0),
        forall|k: int|
            start < k < events.len() ==> #[trigger] events[k] == (IdleEvent::Waits {
                idle: true,
                begun: false,
            }),
    decreases events.len(),
{
    let before = events.drop_last();
    let last = events.len() - 1;
    if action_at(timeout, events, last) == IdleAction::Start(timeout->0) {
        last
    } else {
        let start = running_was_started(timeout, before);
        assert forall|k: int| start < k < events.len() implies #[trigger] events[k] == (
        IdleEvent::Waits { idle: true, begun: false }) by {
            if k < last {
                assert(events[k] == before[k]);
            }
        }
        start
    }
}

/// A connection is closed only when its timer ran out, and then it has been idle, without a message
/// beginning, ever since the timer was started for the length of time that was set.
pub proof fn closed_only_after_the_timeout(
    timeout: Option<Duration>,
    events: Seq<IdleEvent>,
    i: int,
)
    requires
        0 <= i < events.len(),
        action_at(timeout, events, i) is Close,
    ensures
        events[i] is Fired,
        timeout is Some,
        exists|start: int|
            {
                &&& 0 <= start < i
                &&& #[trigger] action_at(timeout, events, start) == IdleAction::Start(timeout->0)
                &&& forall|k: int|
                    start < k < i ==> #[trigger] events[k] == (IdleEvent::Waits {
                        idle: true,
                        begun: false,
                    })
            },
{
    let start = running_was_started(timeout, events.take(i));
    assert(action_at(timeout, events, start) == IdleAction::Start(timeout->0));
    assert forall|k: int| start < k < i implies #[trigger] events[k] == (IdleEvent::Waits {
        idle: true,
        begun: false,
    }) by {
        assert(events.take(i)[k] == events[k]);
    }
}

/// When the timer of an idle connection runs out, the connection is closed.
pub proof fn idle_is_closed_when_fired(timeout: Option<Duration>, events: Seq<IdleEvent>, i: int)
    requires
        0 < i < events.len(),
        timeout is Some,
        events[i - 1] matches IdleEvent::Waits { idle, .. } && idle,
        events[i] is Fired,
    ensures
        action_at(timeout, events, i) is Close,
{
}

} // verus!
