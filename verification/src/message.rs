//! Messages as the core sees them: plain topic text and payload text.

use vstd::prelude::*;

verus! {

/// The delivery guarantee level asked of the transport for every publish
/// and subscribe of this exchange.
pub const QOS: i32 = 1;

/// One delivery pulled from the inbound stream.
pub struct InboundMessage {
    pub topic: String,
    pub payload: String,
}

/// One message to hand to the transport for publishing.
pub struct OutboundMessage {
    pub topic: String,
    pub payload: String,
    pub qos: i32,
}

} // verus!
