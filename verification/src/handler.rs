//! The correlation handlers of the two roles.
//!
//! The responder answers a request `<namespace>/<token>` with exactly one
//! reply on the fixed reply topic, carrying the token as payload. The
//! initiator only records the payload of a reply; it never publishes again,
//! since the reply is the terminal leg of the exchange. A malformed topic
//! is dropped with one log record and never aborts the process.

use crate::message::InboundMessage;
use crate::message::OutboundMessage;
use crate::message::QOS;
use crate::topic::token_of;
use crate::topic::parse_token;
use crate::topic::well_formed_topic;
use vstd::prelude::*;
use vstd::string::StringExecFns;

verus! {

/// What the receive loop must do with one inbound message.
pub enum Dispatch {
    /// Publish this reply (responder role).
    Reply(OutboundMessage),
    /// Write this log record (initiator role).
    Record(String),
    /// The message was malformed: write one drop record and go on.
    DropMalformed,
}

/// The payload the responder answers a request topic with: the correlation
/// token for a well-formed topic, nothing for a malformed one.
pub open spec fn responder_reply(topic: Seq<char>) -> Option<Seq<char>> {
    if well_formed_topic(topic) {
        Some(token_of(topic))
    } else {
        None
    }
}

/// Responder: echo the correlation token of the request back as the payload
/// of one reply on the reply topic, at the configured delivery guarantee;
/// drop a malformed request with one log record.
pub fn handle_responder(msg: &InboundMessage) -> (r: Dispatch)
    ensures
        well_formed_topic(msg.topic@) ==> (r matches Dispatch::Reply(out)
            && out.topic@ == "pong"@
            && Some(out.payload@) == responder_reply(msg.topic@)
            && out.payload@ == token_of(msg.topic@)
            && out.qos == QOS),
        !well_formed_topic(msg.topic@) ==> r == Dispatch::DropMalformed,
{
    match parse_token(msg.topic.as_str()) {
        Some(tok) => Dispatch::Reply(OutboundMessage {
            topic: String::from_str("pong"),
            payload: tok,
            qos: QOS,
        }),
        None => Dispatch::DropMalformed,
    }
}

/// Initiator: record the payload of the reply; the exchange ends here, so
/// no message is ever published in answer to a reply.
pub fn handle_initiator(msg: &InboundMessage) -> (r: Dispatch)
    ensures
        r matches Dispatch::Record(p) && p@ == msg.payload@,
{
    Dispatch::Record(msg.payload.clone())
}

/// Law: for every well-formed inbound topic carrying correlation token
/// `tok`, the responder owes exactly one reply, and its payload is `tok`;
/// for every malformed topic it owes none.
pub proof fn lemma_one_reply_per_token(topic: Seq<char>, tok: Seq<char>)
    requires
        well_formed_topic(topic),
        token_of(topic) == tok,
    ensures
        responder_reply(topic) == Some(tok),
{
}

/// Law: a malformed topic is never answered; it is dropped.
pub proof fn lemma_malformed_never_answered(topic: Seq<char>)
    requires
        !well_formed_topic(topic),
    ensures
        responder_reply(topic) is None,
{
}

} // verus!
