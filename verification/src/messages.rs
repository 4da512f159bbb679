//! The message taxonomy that the accounting subsystem classifies.
//!
//! The node runtime owns the full message types, payloads included; which
//! bucket a message falls into depends on its kind alone, so the counters
//! work over these closed kind enums. Keeping each classification an
//! exhaustive match over a closed sum type makes adding a new kind a
//! compile-time obligation to assign it a bucket.

use vstd::prelude::*;

verus! {

/// A user-data operation request.
#[derive(Clone, Copy)]
pub enum Request {
    /// Churn-driven data refresh between group members.
    Refresh,
    Get,
    Put,
    Post,
    Delete,
    GetAccountInfo,
}

/// The response to a user-data operation: each of the five operation kinds
/// crossed with success or failure.
#[derive(Clone, Copy)]
pub enum Response {
    GetSuccess,
    GetFailure,
    PutSuccess,
    PutFailure,
    PostSuccess,
    PostFailure,
    DeleteSuccess,
    DeleteFailure,
    GetAccountInfoSuccess,
    GetAccountInfoFailure,
}

/// The content kind of an internal routing-protocol message.
#[derive(Clone, Copy)]
pub enum MessageContent {
    /// Node-name resolution request.
    GetNodeName,
    /// Announcement that a close node is expected to join.
    ExpectCloseNode,
    /// Close-group query.
    GetCloseGroup,
    /// Connection-info exchange.
    ConnectionInfo,
    /// Response to a close-group query.
    GetCloseGroupResponse,
    /// Response to a node-name resolution request.
    GetNodeNameResponse,
    /// Acknowledgment of a routed message.
    Ack,
    /// Group-message-hash announcement.
    GroupMessageHash,
    /// One fragment of a larger user message split across multiple
    /// transmissions; the reassembled message is classified as a request
    /// or response, so this kind is never counted on its own.
    UserMessagePart,
}

/// An internal routing-protocol message; the counters read only its content
/// kind.
#[derive(Clone, Copy)]
pub struct RoutingMessage {
    pub content: MessageContent,
}

/// A direct (non-routed) peer control message kind.
#[derive(Clone, Copy)]
pub enum DirectMessage {
    /// Peer-identity announcement.
    NodeIdentify,
    /// New-node announcement.
    NewNode,
    /// Notice that a connection is no longer needed.
    ConnectionUnneeded,
    /// Any other direct message kind: counted in the catch-all bucket.
    Other,
}

} // verus!
