//! Resilient publish/subscribe session core.
//!
//! Two agents, an initiator and a responder, exchange correlated
//! request/response messages over a topic-based transport. This crate holds
//! the verified core of that exchange: the session lifecycle state machine
//! that survives transport disconnects, the topic grammar that carries the
//! correlation token, the role handlers that turn an inbound message into a
//! reply or a log record, and the emit policy of the initiator's send loop.
//! The transport itself, timers and signal handling live outside the crate
//! and feed plain events into these functions.

pub mod emit;
pub mod handler;
pub mod level;
pub mod message;
pub mod retry;
pub mod session;
pub mod topic;
