//! The messages that peers exchange: the handshake and the envelopes that
//! carry a request or a response.

use crate::types::{Epoch, Hash256, Slot};
use vstd::prelude::*;

verus! {

/// The handshake that two peers exchange when they connect: the network a
/// node is on and how far its chain has come.
#[derive(Debug, Clone, Copy, PartialEq, Eq)]
pub struct HelloMessage {
    /// The network the node believes it is on.
    pub network_id: u8,
    /// The root of the node's latest finalized block.
    pub latest_finalized_root: Hash256,
    /// The epoch of the node's latest finalized block.
    pub latest_finalized_epoch: Epoch,
    /// The root of the node's chain head.
    pub best_root: Hash256,
    /// The slot of the node's chain head.
    pub best_slot: Slot,
}

/// The kinds of call that an envelope can carry.
#[derive(Debug, Clone, Copy, PartialEq, Eq)]
pub enum RPCMethod {
    /// The handshake.
    Hello,
    /// A method that this node does not know.
    Unknown,
}

/// What a request asks for.
#[derive(Debug, Clone, Copy, PartialEq, Eq)]
pub enum RPCRequest {
    /// The handshake of the peer that asks.
    Hello(HelloMessage),
    /// A request of a kind that this node does not handle.
    Unknown,
}

/// What a response answers.
#[derive(Debug, Clone, Copy, PartialEq, Eq)]
pub enum RPCResponse {
    /// The handshake of the peer that answers.
    Hello(HelloMessage),
    /// A response of a kind that this node does not handle.
    Unknown,
}

/// An envelope: a request, or the response to one. A response carries the
/// id of the request that it answers.
#[derive(Debug, Clone, Copy, PartialEq, Eq)]
pub enum RPCEvent {
    Request { id: u64, method_id: RPCMethod, body: RPCRequest },
    Response { id: u64, method_id: RPCMethod, result: RPCResponse },
}

} // verus!
