use vstd::prelude::*;
use crate::json::Json;
use crate::types::Trade;

verus! {

/// What a connector's read loop observed on its websocket connection.
#[derive(Debug)]
pub enum WsEvent {
    /// A text frame, with the JSON document it holds (`None` where the text is
    /// not valid JSON).
    Text { text: String, document: Option<Json> },
    Ping,
    Pong,
    Close,
    /// Any other frame (binary, raw).
    OtherFrame,
    /// The connection reported an error.
    TransportError,
    /// The stream of frames ended.
    StreamEnded,
    /// No frame of any kind arrived within the connector's liveness timeout.
    LivenessTimeout,
}

/// Why a session ended with an error.
#[derive(Debug)]
pub enum SessionError {
    Transport,
    LivenessTimeout,
    /// A message that the connector requires to be well formed was not.
    MalformedMessage,
    /// The exchange refused the subscription; the text of its answer.
    SubscriptionRejected(String),
}

/// What the read loop does after an event.
#[derive(Debug)]
pub enum SessionStep {
    /// Read on.
    Continue,
    /// Hand these trades downstream, in order, then read on.
    Publish(Vec<Trade>),
    /// The exchange confirmed the subscription: the session has started
    /// successfully. Read on.
    Subscribed,
    /// The session ended without error; the reconnect loop takes over.
    EndedCleanly,
    /// The session ended with an error; the reconnect loop takes over.
    Failed(SessionError),
}

} // verus!
