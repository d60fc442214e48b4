//! What is known of each connected peer that has completed a handshake.

use crate::rpc::HelloMessage;
use crate::types::{Epoch, Hash256, PeerId, Slot};
use std::collections::HashMap;
use vstd::prelude::*;

verus! {

broadcast use vstd::std_specs::hash::group_hash_axioms;

/// Keeps track of syncing information for known connected peers.
#[derive(Debug, Clone, Copy, PartialEq, Eq)]
pub struct PeerSyncInfo {
    /// The root of the peer's latest finalized block.
    pub latest_finalized_root: Hash256,
    /// The epoch of the peer's latest finalized block.
    pub latest_finalized_epoch: Epoch,
    /// The root of the peer's chain head.
    pub best_root: Hash256,
    /// The slot of the peer's chain head.
    pub best_slot: Slot,
}

impl PeerSyncInfo {
    /// What a handshake tells of the peer that sent it: every field of the
    /// handshake but the network.
    pub open spec fn of(hello_message: HelloMessage) -> PeerSyncInfo {
        PeerSyncInfo {
            latest_finalized_root: hello_message.latest_finalized_root,
            latest_finalized_epoch: hello_message.latest_finalized_epoch,
            best_root: hello_message.best_root,
            best_slot: hello_message.best_slot,
        }
    }

    /// What `hello_message` tells of the peer that sent it.
    pub fn from_hello(hello_message: &HelloMessage) -> (info: PeerSyncInfo)
        ensures
            info == PeerSyncInfo::of(*hello_message),
    {
        PeerSyncInfo {
            latest_finalized_root: hello_message.latest_finalized_root,
            latest_finalized_epoch: hello_message.latest_finalized_epoch,
            best_root: hello_message.best_root,
            best_slot: hello_message.best_slot,
        }
    }
}

/// A mapping of peers to what their last accepted handshake told.
pub struct PeerRegistry {
    peers: HashMap<PeerId, PeerSyncInfo>,
}

impl View for PeerRegistry {
    type V = Map<PeerId, PeerSyncInfo>;

    closed spec fn view(&self) -> Map<PeerId, PeerSyncInfo> {
        self.peers@
    }
}

impl PeerRegistry {
    /// A registry that knows no peer.
    pub fn new() -> (registry: PeerRegistry)
        ensures
            registry@ == Map::<PeerId, PeerSyncInfo>::empty(),
    {
        PeerRegistry { peers: HashMap::new() }
    }

    /// Records `info` for `peer_id`, in place of what was recorded before.
    pub fn upsert(&mut self, peer_id: PeerId, info: PeerSyncInfo)
        ensures
            final(self)@ == old(self)@.insert(peer_id, info),
    {
        self.peers.insert(peer_id, info);
    }

    /// Drops what is recorded for `peer_id`, if anything is.
    pub fn remove(&mut self, peer_id: PeerId)
        ensures
            final(self)@ == old(self)@.remove(peer_id),
    {
        self.peers.remove(&peer_id);
    }

    /// What is recorded for `peer_id`.
    pub fn get(&self, peer_id: PeerId) -> (info: Option<PeerSyncInfo>)
        ensures
            info == if self@.contains_key(peer_id) {
                Some(self@[peer_id])
            } else {
                None
            },
    {
        match self.peers.get(&peer_id) {
            Some(info) => Some(*info),
            None => None,
        }
    }

    /// The number of peers of which something is recorded.
    pub fn len(&self) -> (count: usize)
        ensures
            count == self@.len(),
            self@.dom().finite(),
    {
        self.peers.len()
    }
}

} // verus!
