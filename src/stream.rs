//! What a stream driver reports back to a call or a subscription.
use vstd::prelude::*;
use crate::wire::KaspadResponse;

verus! {

/// One outcome of the outside work that a call or a subscription asked for.
#[derive(Clone, Debug, PartialEq, Eq)]
pub enum StreamEvent {
    /// A new stream to the node is open.
    Opened,
    /// Opening the stream failed, with the transport's description.
    OpenFailed(String),
    /// The envelope was handed to the stream.
    Sent,
    SendFailed(String),
    /// The stream yielded an envelope.
    Received(KaspadResponse),
    /// The stream yielded a transport-level error.
    TransportFailed(String),
    /// The stream ended.
    Ended,
    /// The consumer accepted the last notification.
    Delivered,
    /// The consumer went away.
    ConsumerClosed,
}

} // verus!
