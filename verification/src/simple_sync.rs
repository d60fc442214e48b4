//! The syncing protocol: which handshakes are accepted, what is recorded of
//! the peers that sent them, and when the node starts to download blocks.

use crate::peer_registry::{PeerRegistry, PeerSyncInfo};
use crate::rpc::HelloMessage;
use crate::types::{Epoch, Hash256, PeerId, Slot};
use vstd::prelude::*;

verus! {

/// The number of slots that we can import blocks ahead of us, before going into full Sync mode.
pub const SLOT_IMPORT_TOLERANCE: u64 = 100;

/// What the node reads off its chain: the network it is on, its latest
/// finalized block and the slot of its head.
#[derive(Debug, Clone, Copy, PartialEq, Eq)]
pub struct ChainSnapshot {
    /// The network the chain belongs to.
    pub network_id: u8,
    /// The root of the latest finalized block.
    pub finalized_root: Hash256,
    /// The epoch of the latest finalized block.
    pub finalized_epoch: Epoch,
    /// The slot of the chain head.
    pub head_slot: Slot,
}

/// The current syncing state.
#[derive(Debug, Clone, Copy, PartialEq, Eq)]
pub enum SyncState {
    /// No peer is known to be far ahead.
    Idle,
    /// A peer was seen far enough ahead to download blocks from.
    Downloading,
    /// Syncing was halted from outside.
    Stopped,
}

/// What a [`SimpleSync`] holds.
pub struct SyncView {
    /// The chain as it was last read.
    pub chain: ChainSnapshot,
    /// What is recorded of each peer.
    pub known_peers: Map<PeerId, PeerSyncInfo>,
    /// The current syncing state.
    pub state: SyncState,
}

impl SyncView {
    /// The view of a node that has just read `chain` and met no peer.
    pub open spec fn start(chain: ChainSnapshot) -> SyncView {
        SyncView { chain, known_peers: Map::empty(), state: SyncState::Idle }
    }

    /// The handshake that the node offers: its network, its finalized block
    /// and the slot of its head. The root of the head is left zero.
    pub open spec fn hello(self) -> HelloMessage {
        HelloMessage {
            network_id: self.chain.network_id,
            latest_finalized_root: self.chain.finalized_root,
            latest_finalized_epoch: self.chain.finalized_epoch,
            best_root: Hash256::spec_zero(),
            best_slot: self.chain.head_slot,
        }
    }

    /// A handshake is accepted exactly if it names the node's own network.
    pub open spec fn accepts(self, hello_message: HelloMessage) -> bool {
        hello_message.network_id == self.chain.network_id
    }

    /// Whether the head that a handshake claims is more than the tolerance
    /// ahead of the node's own.
    pub open spec fn is_far_ahead(self, hello_message: HelloMessage) -> bool {
        hello_message.best_slot as int > self.chain.head_slot as int + SLOT_IMPORT_TOLERANCE as int
    }

    /// The syncing state after an accepted handshake: an idle node starts to
    /// download when the peer is far ahead; any other state stays.
    pub open spec fn state_after(self, hello_message: HelloMessage) -> SyncState {
        if self.state == SyncState::Idle && self.is_far_ahead(hello_message) {
            SyncState::Downloading
        } else {
            self.state
        }
    }

    /// The view after `peer_id` sent `hello_message`. A handshake that is
    /// not accepted changes nothing. An accepted one is recorded for the
    /// peer, in place of what was recorded before.
    pub open spec fn validate_peer(self, peer_id: PeerId, hello_message: HelloMessage) -> SyncView {
        if self.accepts(hello_message) {
            SyncView {
                chain: self.chain,
                known_peers: self.known_peers.insert(peer_id, PeerSyncInfo::of(hello_message)),
                state: self.state_after(hello_message),
            }
        } else {
            self
        }
    }

    /// The view after `peer_id` went away.
    pub open spec fn remove_peer(self, peer_id: PeerId) -> SyncView {
        SyncView {
            chain: self.chain,
            known_peers: self.known_peers.remove(peer_id),
            state: self.state,
        }
    }

    /// The view after the chain was read again.
    pub open spec fn update_chain(self, chain: ChainSnapshot) -> SyncView {
        SyncView { chain, known_peers: self.known_peers, state: self.state }
    }

    /// The view with the syncing state set to `state`.
    pub open spec fn with_state(self, state: SyncState) -> SyncView {
        SyncView { chain: self.chain, known_peers: self.known_peers, state }
    }
}

/// A handshake from another network is refused, and nothing changes: not what
/// is recorded of the peers, nor the syncing state.
pub proof fn lemma_foreign_network_is_refused(
    sync: SyncView,
    peer_id: PeerId,
    hello_message: HelloMessage,
)
    requires
        hello_message.network_id != sync.chain.network_id,
    ensures
        !sync.accepts(hello_message),
        sync.validate_peer(peer_id, hello_message) == sync,
        sync.validate_peer(peer_id, hello_message).known_peers.len() == sync.known_peers.len(),
        sync.validate_peer(peer_id, hello_message).state == sync.state,
{
}

/// A handshake from the node's own network is accepted, and afterwards the
/// record of the peer holds the fields of the handshake, each as it was
/// sent. The records of the other peers stay.
pub proof fn lemma_own_network_is_accepted(
    sync: SyncView,
    peer_id: PeerId,
    hello_message: HelloMessage,
)
    requires
        hello_message.network_id == sync.chain.network_id,
    ensures
        sync.accepts(hello_message),
        sync.validate_peer(peer_id, hello_message).known_peers.contains_key(peer_id),
        sync.validate_peer(peer_id, hello_message).known_peers[peer_id].latest_finalized_root
            == hello_message.latest_finalized_root,
        sync.validate_peer(peer_id, hello_message).known_peers[peer_id].latest_finalized_epoch
            == hello_message.latest_finalized_epoch,
        sync.validate_peer(peer_id, hello_message).known_peers[peer_id].best_root
            == hello_message.best_root,
        sync.validate_peer(peer_id, hello_message).known_peers[peer_id].best_slot
            == hello_message.best_slot,
        forall|other: PeerId|
            other != peer_id ==> (sync.validate_peer(
                peer_id,
                hello_message,
            ).known_peers.contains_key(other) <==> sync.known_peers.contains_key(other)),
        forall|other: PeerId|
            other != peer_id && sync.known_peers.contains_key(other) ==> sync.validate_peer(
                peer_id,
                hello_message,
            ).known_peers[other] == sync.known_peers[other],
{
}

/// An accepted handshake moves an idle node to downloading exactly if the
/// head it claims is more than the tolerance ahead of the node's own. A node
/// that is downloading or stopped stays so, whatever the handshake.
pub proof fn lemma_download_starts_past_tolerance(
    sync: SyncView,
    peer_id: PeerId,
    hello_message: HelloMessage,
)
    requires
        sync.accepts(hello_message),
    ensures
        sync.state == SyncState::Idle && hello_message.best_slot > sync.chain.head_slot
            + SLOT_IMPORT_TOLERANCE ==> sync.validate_peer(peer_id, hello_message).state
            == SyncState::Downloading,
        sync.state == SyncState::Idle && hello_message.best_slot <= sync.chain.head_slot
            + SLOT_IMPORT_TOLERANCE ==> sync.validate_peer(peer_id, hello_message).state
            == SyncState::Idle,
        sync.state != SyncState::Idle ==> sync.validate_peer(peer_id, hello_message).state
            == sync.state,
{
}

/// No handshake takes a node out of downloading or out of stopped.
pub proof fn lemma_handshake_only_starts_download(
    sync: SyncView,
    peer_id: PeerId,
    hello_message: HelloMessage,
)
    ensures
        sync.validate_peer(peer_id, hello_message).state == sync.state || (sync.state
            == SyncState::Idle && sync.validate_peer(peer_id, hello_message).state
            == SyncState::Downloading),
{
}

/// The handshake that a node offers is accepted by every node of the same
/// network, which then holds of the first exactly what the handshake says.
/// Where the two have the same head, it starts no download.
pub proof fn lemma_own_hello_is_accepted(ours: SyncView, theirs: SyncView, peer_id: PeerId)
    requires
        ours.chain.network_id == theirs.chain.network_id,
    ensures
        theirs.accepts(ours.hello()),
        theirs.validate_peer(peer_id, ours.hello()).known_peers.contains_key(peer_id),
        theirs.validate_peer(peer_id, ours.hello()).known_peers[peer_id] == PeerSyncInfo::of(
            ours.hello(),
        ),
        theirs.validate_peer(peer_id, ours.hello()).known_peers[peer_id].latest_finalized_root
            == ours.chain.finalized_root,
        theirs.validate_peer(peer_id, ours.hello()).known_peers[peer_id].latest_finalized_epoch
            == ours.chain.finalized_epoch,
        theirs.validate_peer(peer_id, ours.hello()).known_peers[peer_id].best_slot
            == ours.chain.head_slot,
        ours.chain.head_slot == theirs.chain.head_slot ==> theirs.validate_peer(
            peer_id,
            ours.hello(),
        ).state == theirs.state,
{
}

/// Simple Syncing protocol.
pub struct SimpleSync {
    /// The chain as it was last read.
    chain: ChainSnapshot,
    /// A mapping of Peers to their respective PeerSyncInfo.
    known_peers: PeerRegistry,
    /// The current state of the syncing protocol.
    state: SyncState,
}

impl View for SimpleSync {
    type V = SyncView;

    closed spec fn view(&self) -> SyncView {
        SyncView { chain: self.chain, known_peers: self.known_peers@, state: self.state }
    }
}

impl SimpleSync {
    /// A node that has just read `chain`: idle, and knowing no peer.
    pub fn new(chain: ChainSnapshot) -> (sync: SimpleSync)
        ensures
            sync@ == SyncView::start(chain),
    {
        SimpleSync { chain, known_peers: PeerRegistry::new(), state: SyncState::Idle }
    }

    /// Takes note of the chain as it was read again.
    pub fn update_chain(&mut self, chain: ChainSnapshot)
        ensures
            final(self)@ == old(self)@.update_chain(chain),
    {
        self.chain = chain;
    }

    /// The current state of the syncing protocol.
    pub fn state(&self) -> (state: SyncState)
        ensures
            state == self@.state,
    {
        self.state
    }

    /// The chain as it was last read.
    pub fn chain(&self) -> (chain: ChainSnapshot)
        ensures
            chain == self@.chain,
    {
        self.chain
    }

    /// What is recorded of `peer_id`.
    pub fn peer_info(&self, peer_id: PeerId) -> (info: Option<PeerSyncInfo>)
        ensures
            info == if self@.known_peers.contains_key(peer_id) {
                Some(self@.known_peers[peer_id])
            } else {
                None
            },
    {
        self.known_peers.get(peer_id)
    }

    /// The number of peers of which something is recorded.
    pub fn peer_count(&self) -> (count: usize)
        ensures
            count == self@.known_peers.len(),
    {
        self.known_peers.len()
    }

    /// Generates our current state in the form of a HELLO RPC message.
    pub fn generate_hello(&self) -> (hello_message: HelloMessage)
        ensures
            hello_message == self@.hello(),
    {
        HelloMessage {
            network_id: self.chain.network_id,
            latest_finalized_root: self.chain.finalized_root,
            latest_finalized_epoch: self.chain.finalized_epoch,
            best_root: Hash256::zero(),
            best_slot: self.chain.head_slot,
        }
    }

    /// Judges the handshake that `peer_id` sent. A handshake from another
    /// network is refused and changes nothing. Any other is accepted: what it
    /// tells is recorded for the peer, and an idle node starts to download
    /// when the peer's head is more than the tolerance ahead of its own. The
    /// finalized root that the peer claims is recorded as given; it is not
    /// held against the node's own chain.
    pub fn validate_peer(&mut self, peer_id: PeerId, hello_message: HelloMessage) -> (valid: bool)
        ensures
            valid == old(self)@.accepts(hello_message),
            final(self)@ == old(self)@.validate_peer(peer_id, hello_message),
    {
        if hello_message.network_id != self.chain.network_id {
            return false;
        }
        self.known_peers.upsert(peer_id, PeerSyncInfo::from_hello(&hello_message));
        let far_ahead = hello_message.best_slot > self.chain.head_slot && hello_message.best_slot
            - self.chain.head_slot > SLOT_IMPORT_TOLERANCE;
        match self.state {
            SyncState::Idle => {
                if far_ahead {
                    self.state = SyncState::Downloading;
                }
            },
            SyncState::Downloading => {},
            SyncState::Stopped => {},
        }
        true
    }

    /// Drops what is recorded of `peer_id`, if anything is.
    pub fn remove_peer(&mut self, peer_id: PeerId)
        ensures
            final(self)@ == old(self)@.remove_peer(peer_id),
    {
        self.known_peers.remove(peer_id);
    }

    /// Halts syncing, whatever the state was.
    pub fn stop(&mut self)
        ensures
            final(self)@ == old(self)@.with_state(SyncState::Stopped),
    {
        self.state = SyncState::Stopped;
    }

    /// Takes note that the download has come to its end: a downloading node
    /// is idle again. In any other state nothing changes.
    pub fn download_finished(&mut self)
        ensures
            final(self)@ == if old(self)@.state == SyncState::Downloading {
                old(self)@.with_state(SyncState::Idle)
            } else {
                old(self)@
            },
    {
        match self.state {
            SyncState::Downloading => {
                self.state = SyncState::Idle;
            },
            SyncState::Idle => {},
            SyncState::Stopped => {},
        }
    }

    /// Lets a stopped node sync again: it is idle. In any other state
    /// nothing changes.
    pub fn resume(&mut self)
        ensures
            final(self)@ == if old(self)@.state == SyncState::Stopped {
                old(self)@.with_state(SyncState::Idle)
            } else {
                old(self)@
            },
    {
        match self.state {
            SyncState::Stopped => {
                self.state = SyncState::Idle;
            },
            SyncState::Idle => {},
            SyncState::Downloading => {},
        }
    }
}

} // verus!
