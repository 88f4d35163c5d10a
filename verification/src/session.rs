//! The resilient session lifecycle.
//!
//! A `Session` owns one transport connection and tracks where it stands in
//! the lifecycle `Disconnected -> Connected -> Reconnecting -> Connected`,
//! with `ShuttingDown` terminal. The loops that drive the transport feed the
//! session plain events (connection gained, stream lost, a reconnect
//! attempt's outcome, a shutdown request) and obey the directives it hands
//! back; every transition is specified by the single step function `step`,
//! so the laws of the lifecycle are proved once, over arbitrary event
//! traces.

use vstd::prelude::*;

verus! {

/// Where the session stands in its lifecycle.
#[derive(Clone, Copy, Debug, PartialEq, Eq, Structural)]
pub enum ConnState {
    Disconnected,
    Connected,
    Reconnecting,
    ShuttingDown,
}

/// What the receive loop must do after reporting a lost stream or a failed
/// subscribe.
#[derive(Clone, Copy, Debug, PartialEq, Eq, Structural)]
pub enum LossAction {
    /// Begin a reconnect episode: attempt, wait, attempt, until it succeeds
    /// or shutdown is requested.
    BeginReconnect,
    /// Shutdown is in progress: leave the loop without another attempt.
    Stop,
}

/// One session event, as the loops observe them.
#[derive(Clone, Copy, Debug, PartialEq, Eq, Structural)]
pub enum SessionEvent {
    ConnectSucceeded,
    SubscribeSucceeded,
    SubscribeFailed,
    ConnectionLost,
    ReconnectSucceeded,
    ReconnectFailed,
    ShutdownRequested,
}

/// The state a session owns: lifecycle position, the cooperative shutdown
/// flag, the attempt counter of the current reconnect episode, and whether
/// the role's subscription is active on the current connection.
#[derive(Clone, Copy, Debug, PartialEq, Eq, Structural)]
pub struct Session {
    pub state: ConnState,
    pub shutdown_requested: bool,
    pub attempts: u64,
    pub subscribed: bool,
}

/// The session every process starts from: not yet connected, shutdown not
/// requested, no attempts made.
pub open spec fn initial_session() -> Session {
    Session { state: ConnState::Disconnected, shutdown_requested: false, attempts: 0, subscribed: false }
}

/// A reconnect episode is active exactly while the session is
/// `Reconnecting`.
pub open spec fn episode_active(s: Session) -> bool {
    s.state == ConnState::Reconnecting
}

/// The top-of-iteration check of the reconnect loop: another attempt may
/// start only inside an episode and only while shutdown has not been
/// requested.
pub open spec fn may_attempt_reconnect(s: Session) -> bool {
    episode_active(s) && !s.shutdown_requested
}

/// The guard every loop tests at its iteration boundary: run on until
/// shutdown is requested.
pub open spec fn loop_may_continue(s: Session) -> bool {
    !s.shutdown_requested
}

/// Well-formedness of a session: the shutdown flag and the terminal state
/// coincide, and a subscription is only ever active on a live connection.
pub open spec fn session_wf(s: Session) -> bool {
    &&& (s.shutdown_requested <==> s.state == ConnState::ShuttingDown)
    &&& (s.subscribed ==> s.state == ConnState::Connected)
}

/// The one transition function of the lifecycle. `ShuttingDown` is
/// absorbing: once shutdown is requested no event moves the session again,
/// which is what suppresses reconnects during teardown. Events that do not
/// fit the current state (a reconnect outcome outside an episode, a
/// connect outside startup) leave the session unchanged.
pub open spec fn step(s: Session, e: SessionEvent) -> Session {
    if s.state == ConnState::ShuttingDown {
        s
    } else {
        match e {
            SessionEvent::ConnectSucceeded => if s.state == ConnState::Disconnected {
                Session { state: ConnState::Connected, attempts: 0, subscribed: false, ..s }
            } else {
                s
            },
            SessionEvent::SubscribeSucceeded => if s.state == ConnState::Connected {
                Session { subscribed: true, ..s }
            } else {
                s
            },
            SessionEvent::SubscribeFailed => if s.state == ConnState::Connected {
                Session { state: ConnState::Reconnecting, attempts: 0, subscribed: false, ..s }
            } else {
                s
            },
            SessionEvent::ConnectionLost => if s.state == ConnState::Connected {
                Session { state: ConnState::Reconnecting, attempts: 0, subscribed: false, ..s }
            } else {
                s
            },
            SessionEvent::ReconnectSucceeded => if s.state == ConnState::Reconnecting {
                Session { state: ConnState::Connected, subscribed: false, ..s }
            } else {
                s
            },
            SessionEvent::ReconnectFailed => if s.state == ConnState::Reconnecting {
                Session {
                    attempts: if s.attempts < u64::MAX { (s.attempts + 1) as u64 } else { s.attempts },
                    ..s
                }
            } else {
                s
            },
            SessionEvent::ShutdownRequested => Session {
                state: ConnState::ShuttingDown,
                shutdown_requested: true,
                subscribed: false,
                ..s
            },
        }
    }
}

/// The session reached by feeding `evs` to `s`, first event first.
pub open spec fn run(s: Session, evs: Seq<SessionEvent>) -> Session
    decreases evs.len(),
{
    if evs.len() == 0 {
        s
    } else {
        run(step(s, evs[0]), evs.subrange(1, evs.len() as int))
    }
}

impl Session {
    /// A fresh session, before the startup connect.
    pub fn new() -> (s: Session)
        ensures
            s == initial_session(),
            session_wf(s),
    {
        Session {
            state: ConnState::Disconnected,
            shutdown_requested: false,
            attempts: 0,
            subscribed: false,
        }
    }

    /// Records that the startup connect succeeded.
    pub fn on_connect_succeeded(&mut self)
        requires
            session_wf(*old(self)),
            old(self).state == ConnState::Disconnected,
        ensures
            *final(self) == step(*old(self), SessionEvent::ConnectSucceeded),
            final(self).state == ConnState::Connected,
            !final(self).subscribed,
            session_wf(*final(self)),
    {
        self.state = ConnState::Connected;
        self.attempts = 0;
        self.subscribed = false;
    }

    /// Records that the role's subscription is active on the current
    /// connection; only then may the receive loop start consuming.
    pub fn on_subscribe_succeeded(&mut self)
        requires
            session_wf(*old(self)),
            old(self).state == ConnState::Connected,
        ensures
            *final(self) == step(*old(self), SessionEvent::SubscribeSucceeded),
            final(self).subscribed,
            session_wf(*final(self)),
    {
        self.subscribed = true;
    }

    /// Records a failed subscribe: fatal for this connection episode, so it
    /// forces a reconnect episode unless shutdown is already in progress.
    pub fn on_subscribe_failed(&mut self) -> (r: LossAction)
        requires
            session_wf(*old(self)),
            old(self).state == ConnState::Connected || old(self).state == ConnState::ShuttingDown,
        ensures
            *final(self) == step(*old(self), SessionEvent::SubscribeFailed),
            old(self).shutdown_requested ==> r == LossAction::Stop && *final(self) == *old(self),
            !old(self).shutdown_requested ==> r == LossAction::BeginReconnect
                && final(self).state == ConnState::Reconnecting
                && final(self).attempts == 0,
            session_wf(*final(self)),
    {
        if self.shutdown_requested {
            LossAction::Stop
        } else {
            self.state = ConnState::Reconnecting;
            self.attempts = 0;
            self.subscribed = false;
            LossAction::BeginReconnect
        }
    }

    /// Records that the inbound stream ended or failed. During shutdown that
    /// is the expected closing of the stream and the loop must stop; at any
    /// other time on a live connection it opens a reconnect episode with a
    /// fresh attempt counter.
    pub fn on_connection_lost(&mut self) -> (r: LossAction)
        requires
            session_wf(*old(self)),
            old(self).state == ConnState::Connected || old(self).state == ConnState::ShuttingDown,
        ensures
            *final(self) == step(*old(self), SessionEvent::ConnectionLost),
            old(self).shutdown_requested ==> r == LossAction::Stop && *final(self) == *old(self),
            !old(self).shutdown_requested ==> r == LossAction::BeginReconnect
                && final(self).state == ConnState::Reconnecting
                && final(self).attempts == 0,
            session_wf(*final(self)),
    {
        if self.shutdown_requested {
            LossAction::Stop
        } else {
            self.state = ConnState::Reconnecting;
            self.attempts = 0;
            self.subscribed = false;
            LossAction::BeginReconnect
        }
    }

    /// The top-of-iteration check of the reconnect loop: true exactly when
    /// an episode is active and shutdown has not been requested. After
    /// `shutdown` this returns false, so the loop exits within one delay
    /// interval without a further network attempt.
    pub fn reconnect_should_attempt(&self) -> (r: bool)
        ensures
            r == may_attempt_reconnect(*self),
    {
        match self.state {
            ConnState::Reconnecting => !self.shutdown_requested,
            _ => false,
        }
    }

    /// Records a successful reconnect attempt: the episode ends and the
    /// caller must re-establish the subscription before receiving again.
    pub fn on_reconnect_succeeded(&mut self)
        requires
            session_wf(*old(self)),
            old(self).state == ConnState::Reconnecting,
        ensures
            *final(self) == step(*old(self), SessionEvent::ReconnectSucceeded),
            final(self).state == ConnState::Connected,
            !final(self).subscribed,
            session_wf(*final(self)),
    {
        self.state = ConnState::Connected;
        self.subscribed = false;
    }

    /// Records a failed reconnect attempt and hands back the attempt number
    /// for the diagnostic log line; the episode stays active.
    pub fn on_reconnect_failed(&mut self) -> (n: u64)
        requires
            session_wf(*old(self)),
            old(self).state == ConnState::Reconnecting,
        ensures
            *final(self) == step(*old(self), SessionEvent::ReconnectFailed),
            final(self).state == ConnState::Reconnecting,
            n == final(self).attempts,
            final(self).attempts >= old(self).attempts,
            old(self).attempts < u64::MAX ==> final(self).attempts == old(self).attempts + 1,
            session_wf(*final(self)),
    {
        if self.attempts < u64::MAX {
            self.attempts = self.attempts + 1;
        }
        self.attempts
    }

    /// Requests shutdown: cooperative, safe in every state, also while a
    /// reconnect episode is in flight. From here on every directive of the
    /// session tells its loop to stop.
    pub fn shutdown(&mut self)
        requires
            session_wf(*old(self)),
        ensures
            *final(self) == step(*old(self), SessionEvent::ShutdownRequested),
            final(self).shutdown_requested,
            final(self).state == ConnState::ShuttingDown,
            !may_attempt_reconnect(*final(self)),
            session_wf(*final(self)),
    {
        self.state = ConnState::ShuttingDown;
        self.shutdown_requested = true;
        self.subscribed = false;
    }

    /// The guard of the receive and send loops: run on until shutdown is
    /// requested.
    pub fn should_run(&self) -> (r: bool)
        ensures
            r == loop_may_continue(*self),
    {
        !self.shutdown_requested
    }

    /// True exactly when the receive loop may consume from the stream: the
    /// connection is live and the subscription has been confirmed on it.
    pub fn can_receive(&self) -> (r: bool)
        ensures
            r == (self.state == ConnState::Connected && self.subscribed),
    {
        match self.state {
            ConnState::Connected => self.subscribed,
            _ => false,
        }
    }
}

/// Law: the session never has more than one reconnect episode in flight.
/// At every reachable point at most one episode is active; an active episode
/// either continues (its counter never reset), completes into `Connected`,
/// or is shut down — no event begins a second one while it runs; and a new
/// episode can begin only from a live, non-shutdown connection, with a
/// fresh counter.
pub proof fn lemma_single_reconnect_episode(s: Session, e: SessionEvent)
    requires
        session_wf(s),
    ensures
        session_wf(step(s, e)),
        episode_active(s) ==> !(!episode_active(s) && episode_active(step(s, e))),
        episode_active(s) ==> (episode_active(step(s, e)) && step(s, e).attempts >= s.attempts)
            || step(s, e).state == ConnState::Connected
            || step(s, e).state == ConnState::ShuttingDown,
        !episode_active(s) && episode_active(step(s, e)) ==> s.state == ConnState::Connected
            && !s.shutdown_requested
            && step(s, e).attempts == 0,
{
}

/// Law: over every event trace from a well-formed session, the session
/// stays well formed and at no point is more than one reconnect episode
/// active (the lifecycle is a single state, so episodes can only follow one
/// another, never overlap).
pub proof fn lemma_run_wf(s: Session, evs: Seq<SessionEvent>)
    requires
        session_wf(s),
    ensures
        session_wf(run(s, evs)),
    decreases evs.len(),
{
    if evs.len() > 0 {
        lemma_single_reconnect_episode(s, evs[0]);
        lemma_run_wf(step(s, evs[0]), evs.subrange(1, evs.len() as int));
    }
}

/// Law: shutdown is absorbing. Once `shutdown_requested` holds, no event
/// trace whatsoever changes the session again: no further reconnect attempt
/// may start, and every loop guard answers "stop", so the receive and send
/// loops terminate at their next iteration boundary — within one poll
/// interval of observing the flag.
pub proof fn lemma_shutdown_suppresses_reconnect(s: Session, evs: Seq<SessionEvent>)
    requires
        session_wf(s),
        s.shutdown_requested,
    ensures
        run(s, evs) == s,
        !may_attempt_reconnect(run(s, evs)),
        !loop_may_continue(run(s, evs)),
    decreases evs.len(),
{
    if evs.len() > 0 {
        lemma_shutdown_suppresses_reconnect(step(s, evs[0]), evs.subrange(1, evs.len() as int));
    }
}

} // verus!
