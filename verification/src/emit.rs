//! The emit policy of the initiator's send loop.
//!
//! On every tick the loop asks the session what to do: stop when shutdown
//! is in progress, skip the tick (and poll again shortly) while the
//! connection is down, and otherwise publish one greeting chosen from a
//! fixed small set on the request namespace, with the greeting as the
//! correlation token in the topic. A failed publish is the loop's caller's
//! affair: it logs and keeps ticking.

use crate::message::OutboundMessage;
use crate::message::QOS;
use crate::session::ConnState;
use crate::session::Session;
use vstd::prelude::*;
use vstd::string::StringExecFns;

verus! {

/// How many greetings the fixed set holds.
pub const GREETING_COUNT: u64 = 6;

/// The greeting at position `i` of the fixed set.
pub open spec fn greeting_seq(i: int) -> Seq<char> {
    if i == 0 {
        "Hello"@
    } else if i == 1 {
        "Hi"@
    } else if i == 2 {
        "Hey"@
    } else if i == 3 {
        "Greetings"@
    } else if i == 4 {
        "Salutations"@
    } else {
        "Howdy"@
    }
}

/// What the send loop must do on one tick.
pub enum EmitAction {
    /// Publish this message, then wait one full emit period.
    Publish(OutboundMessage),
    /// Not connected: publish nothing and poll again after one short
    /// interval instead of a full period.
    SkipTick,
    /// Shutdown is in progress: leave the loop.
    Stop,
}

/// The greeting at position `i`.
pub fn greeting(i: u64) -> (r: &'static str)
    requires
        i < GREETING_COUNT,
    ensures
        r@ == greeting_seq(i as int),
{
    if i == 0 {
        "Hello"
    } else if i == 1 {
        "Hi"
    } else if i == 2 {
        "Hey"
    } else if i == 3 {
        "Greetings"
    } else if i == 4 {
        "Salutations"
    } else {
        "Howdy"
    }
}

/// The decision of one tick, for a given greeting choice: stop under
/// shutdown; skip while not connected; otherwise publish the greeting
/// `pick % GREETING_COUNT` on the request namespace, with an empty payload,
/// at the configured delivery guarantee. The send loop never begins a
/// reconnect: while the connection is down it only skips.
pub fn emit_decision(s: &Session, pick: u64) -> (r: EmitAction)
    ensures
        s.shutdown_requested ==> r == EmitAction::Stop,
        !s.shutdown_requested && s.state != ConnState::Connected ==> r == EmitAction::SkipTick,
        !s.shutdown_requested && s.state == ConnState::Connected ==> (r matches EmitAction::Publish(m)
            && m.topic@ == "ping/"@ + greeting_seq((pick % GREETING_COUNT) as int)
            && m.payload@ == Seq::<char>::empty()
            && m.qos == QOS),
{
    if s.shutdown_requested {
        return EmitAction::Stop;
    }
    match s.state {
        ConnState::Connected => {
            let g = greeting(pick % GREETING_COUNT);
            let mut topic = String::from_str("ping/");
            topic.append(g);
            let payload = String::new();
            proof {
                assert(payload@ =~= Seq::<char>::empty());
            }
            EmitAction::Publish(OutboundMessage { topic, payload, qos: QOS })
        },
        _ => EmitAction::SkipTick,
    }
}

/// Relies on rand::random: draws one value from the thread-local
/// generator; nothing is promised of it.
#[verifier::external_body]
fn random_u64() -> u64 {
    rand::random::<u64>()
}

/// One tick of the send loop with a freshly drawn greeting choice: stop
/// under shutdown, skip while not connected, and otherwise publish one of
/// the fixed greetings on the request namespace — whichever greeting the
/// draw picked.
pub fn emit_tick(s: &Session) -> (r: EmitAction)
    ensures
        s.shutdown_requested ==> r == EmitAction::Stop,
        !s.shutdown_requested && s.state != ConnState::Connected ==> r == EmitAction::SkipTick,
        !s.shutdown_requested && s.state == ConnState::Connected ==> (r matches EmitAction::Publish(m)
            && (exists|i: int| 0 <= i < GREETING_COUNT && m.topic@ == "ping/"@ + greeting_seq(i))
            && m.payload@ == Seq::<char>::empty()
            && m.qos == QOS),
{
    let pick = random_u64();
    emit_decision(s, pick)
}

} // verus!
