//! The single point through which every event from the network passes. It
//! owns the request tracker and the syncing protocol, routes each event to
//! the one that handles it, and says what is to be sent in return.

use crate::peer_registry::PeerSyncInfo;
use crate::request_log::{
    is_live, is_other_request, is_to_other_peer, lemma_forget_peer_takes_its_requests,
    lemma_issue_is_fresh, lemma_reap_takes_the_expired, lemma_resolve_takes_one, PendingRequest,
    RequestLog,
};
use crate::request_tracker::{RequestTracker, REQUEST_TIMEOUT};
use crate::rpc::{HelloMessage, RPCEvent, RPCMethod, RPCRequest, RPCResponse};
use crate::seq_filter::{lemma_filter_keeps_all, lemma_filter_members, lemma_filter_push};
use crate::simple_sync::{ChainSnapshot, SimpleSync, SyncState, SyncView};
use crate::types::PeerId;
use vstd::prelude::*;

verus! {

/// Types of messages the handler can receive.
#[derive(Debug, Clone, Copy, PartialEq, Eq)]
pub enum HandlerMessage {
    /// We have initiated a connection to a new peer.
    PeerDialed(PeerId),
    /// Peer has disconnected,
    PeerDisconnected(PeerId),
    /// An RPC response/request has been received.
    RPC(PeerId, RPCEvent),
    /// A block has been imported.
    BlockImported(),
    /// The timer has fired: requests that have waited too long are given up.
    Sweep,
}

/// Type of outgoing messages that can be sent through the network service.
#[derive(Debug, Clone, Copy, PartialEq, Eq)]
pub enum OutgoingMessage {
    /// Send an RPC request/response.
    RPC(RPCEvent),
}

/// Types of messages that the network service can receive.
#[derive(Debug, Clone, Copy, PartialEq, Eq)]
pub enum NetworkMessage {
    /// Send a message to a peer.
    Send(PeerId, OutgoingMessage),
}

/// The envelope that carries `hello_message` under `id`, as a request or as
/// a response.
pub open spec fn hello_event(id: u64, is_request: bool, hello_message: HelloMessage) -> RPCEvent {
    if is_request {
        RPCEvent::Request {
            id,
            method_id: RPCMethod::Hello,
            body: RPCRequest::Hello(hello_message),
        }
    } else {
        RPCEvent::Response {
            id,
            method_id: RPCMethod::Hello,
            result: RPCResponse::Hello(hello_message),
        }
    }
}

/// The order to send `rpc_event` to `peer_id`.
pub open spec fn rpc_to(peer_id: PeerId, rpc_event: RPCEvent) -> NetworkMessage {
    NetworkMessage::Send(peer_id, OutgoingMessage::RPC(rpc_event))
}

/// What a [`MessageHandler`] holds.
pub struct HandlerView {
    /// The syncing protocol.
    pub sync: SyncView,
    /// The requests that were sent.
    pub tracker: RequestLog,
}

impl HandlerView {
    /// The view of a handler that has just read `chain` and seen no event.
    pub open spec fn start(chain: ChainSnapshot) -> HandlerView {
        HandlerView { sync: SyncView::start(chain), tracker: RequestLog::empty() }
    }

    /// The log of requests is well-formed.
    pub open spec fn wf(self) -> bool {
        self.tracker.wf()
    }

    /// Whether the handler can take `message`: dialing a peer needs an id
    /// that the peer's counter can still give.
    pub open spec fn can_handle(self, message: HandlerMessage) -> bool {
        message matches HandlerMessage::PeerDialed(peer_id) ==> self.tracker.next_unused(peer_id)
            < u64::MAX
    }

    /// The view after the handshake of `peer_id` was judged.
    pub open spec fn validate_hello(self, peer_id: PeerId, message: HelloMessage) -> HandlerView {
        HandlerView { sync: self.sync.validate_peer(peer_id, message), tracker: self.tracker }
    }

    /// The view after a request from `peer_id` came in. A handshake is
    /// judged; a request of any other kind changes nothing.
    pub open spec fn handle_rpc_request(
        self,
        peer_id: PeerId,
        id: u64,
        request: RPCRequest,
    ) -> HandlerView {
        match request {
            RPCRequest::Hello(hello_message) => self.validate_hello(peer_id, hello_message),
            RPCRequest::Unknown => self,
        }
    }

    /// What is sent when a request from `peer_id` came in: to a handshake,
    /// the node's own handshake under the id of the request; to any other
    /// request, nothing.
    pub open spec fn reply_to_rpc_request(
        self,
        peer_id: PeerId,
        id: u64,
        request: RPCRequest,
    ) -> Option<NetworkMessage> {
        match request {
            RPCRequest::Hello(_) => Some(rpc_to(peer_id, hello_event(id, false, self.sync.hello()))),
            RPCRequest::Unknown => None,
        }
    }

    /// The view after a response from `peer_id` came in. A response to no
    /// unanswered request changes nothing. Any other takes its request off
    /// the unanswered ones, and a handshake is then judged.
    pub open spec fn handle_rpc_response(
        self,
        peer_id: PeerId,
        id: u64,
        response: RPCResponse,
    ) -> HandlerView {
        if !self.tracker.is_pending(peer_id, id) {
            self
        } else {
            let resolved = HandlerView {
                sync: self.sync,
                tracker: self.tracker.resolve(peer_id, id),
            };
            match response {
                RPCResponse::Hello(hello_message) => resolved.validate_hello(
                    peer_id,
                    hello_message,
                ),
                RPCResponse::Unknown => resolved,
            }
        }
    }

    /// The view after `rpc_message` from `peer_id` came in.
    pub open spec fn handle_rpc_message(self, peer_id: PeerId, rpc_message: RPCEvent) -> HandlerView {
        match rpc_message {
            RPCEvent::Request { id, body, .. } => self.handle_rpc_request(peer_id, id, body),
            RPCEvent::Response { id, result, .. } => self.handle_rpc_response(peer_id, id, result),
        }
    }

    /// What is sent when `rpc_message` from `peer_id` came in.
    pub open spec fn reply_to_rpc_message(
        self,
        peer_id: PeerId,
        rpc_message: RPCEvent,
    ) -> Option<NetworkMessage> {
        match rpc_message {
            RPCEvent::Request { id, body, .. } => self.reply_to_rpc_request(peer_id, id, body),
            RPCEvent::Response { .. } => None,
        }
    }

    /// The view after `message` was handled at time `now`.
    ///
    /// - A dialed peer is sent a request, which is recorded under the next
    ///   id of the peer.
    /// - A disconnected peer is forgotten: what was recorded of it, and its
    ///   unanswered requests.
    /// - A request or response is handled as its kind asks.
    /// - A sweep gives up the requests that have waited longer than
    ///   [`REQUEST_TIMEOUT`].
    /// - An imported block changes nothing.
    pub open spec fn handle_message(self, message: HandlerMessage, now: u64) -> HandlerView {
        match message {
            HandlerMessage::PeerDialed(peer_id) => HandlerView {
                sync: self.sync,
                tracker: self.tracker.issue(peer_id, now),
            },
            HandlerMessage::PeerDisconnected(peer_id) => HandlerView {
                sync: self.sync.remove_peer(peer_id),
                tracker: self.tracker.forget_peer(peer_id),
            },
            HandlerMessage::RPC(peer_id, rpc_event) => self.handle_rpc_message(peer_id, rpc_event),
            HandlerMessage::BlockImported() => self,
            HandlerMessage::Sweep => HandlerView {
                sync: self.sync,
                tracker: self.tracker.reap(now, REQUEST_TIMEOUT),
            },
        }
    }

    /// What is sent when `message` is handled: to a dialed peer, the node's
    /// handshake as a request under the next id of the peer; to a request or
    /// response, what its kind asks; else nothing.
    pub open spec fn reply_to(self, message: HandlerMessage) -> Option<NetworkMessage> {
        match message {
            HandlerMessage::PeerDialed(peer_id) => Some(
                rpc_to(
                    peer_id,
                    hello_event(self.tracker.next_unused(peer_id), true, self.sync.hello()),
                ),
            ),
            HandlerMessage::RPC(peer_id, rpc_event) => self.reply_to_rpc_message(
                peer_id,
                rpc_event,
            ),
            HandlerMessage::PeerDisconnected(_) => None,
            HandlerMessage::BlockImported() => None,
            HandlerMessage::Sweep => None,
        }
    }
}

/// The handshake that `message` carries, and the peer that sent it.
pub open spec fn handshake_in(message: HandlerMessage) -> Option<(PeerId, HelloMessage)> {
    match message {
        HandlerMessage::RPC(peer_id, RPCEvent::Request { body: RPCRequest::Hello(hello), .. }) => Some(
            (peer_id, hello),
        ),
        HandlerMessage::RPC(
            peer_id,
            RPCEvent::Response { result: RPCResponse::Hello(hello), .. },
        ) => Some((peer_id, hello)),
        _ => None,
    }
}

/// Handling a message keeps the log of requests well-formed.
pub proof fn lemma_handling_keeps_wf(handler: HandlerView, message: HandlerMessage, now: u64)
    requires
        handler.wf(),
        handler.can_handle(message),
    ensures
        handler.handle_message(message, now).wf(),
{
    match message {
        HandlerMessage::PeerDialed(peer_id) => {
            lemma_issue_is_fresh(handler.tracker, peer_id, now);
        },
        HandlerMessage::PeerDisconnected(peer_id) => {
            lemma_forget_peer_takes_its_requests(handler.tracker, peer_id);
        },
        HandlerMessage::RPC(peer_id, RPCEvent::Response { id, .. }) => {
            lemma_resolve_takes_one(handler.tracker, peer_id, id);
        },
        HandlerMessage::RPC(_, RPCEvent::Request { .. }) => {},
        HandlerMessage::BlockImported() => {},
        HandlerMessage::Sweep => {
            lemma_reap_takes_the_expired(handler.tracker, now, REQUEST_TIMEOUT);
        },
    }
}

/// Something is recorded of a peer only after a handshake of that peer was
/// accepted: a message after which a peer is newly recorded carries a
/// handshake from that peer, on the node's own network.
pub proof fn lemma_peers_enter_by_handshake(
    handler: HandlerView,
    message: HandlerMessage,
    now: u64,
    peer_id: PeerId,
)
    requires
        !handler.sync.known_peers.contains_key(peer_id),
        handler.handle_message(message, now).sync.known_peers.contains_key(peer_id),
    ensures
        handshake_in(message) matches Some((from, hello)) && from == peer_id
            && handler.sync.accepts(hello) && handler.handle_message(
            message,
            now,
        ).sync.known_peers[peer_id] == PeerSyncInfo::of(hello),
{
}

/// No message takes the node out of downloading or out of stopped, and the
/// only move that a message makes is from idle to downloading.
pub proof fn lemma_messages_only_start_download(
    handler: HandlerView,
    message: HandlerMessage,
    now: u64,
)
    ensures
        handler.handle_message(message, now).sync.state == handler.sync.state || (
        handler.sync.state == SyncState::Idle && handler.handle_message(message, now).sync.state
            == SyncState::Downloading),
{
}

/// A response to no unanswered request changes nothing and is not answered.
pub proof fn lemma_unsolicited_response_is_dropped(
    handler: HandlerView,
    peer_id: PeerId,
    id: u64,
    method_id: RPCMethod,
    result: RPCResponse,
    now: u64,
)
    requires
        !handler.tracker.is_pending(peer_id, id),
    ensures
        handler.handle_message(
            HandlerMessage::RPC(peer_id, RPCEvent::Response { id, method_id, result }),
            now,
        ) == handler,
        handler.reply_to(HandlerMessage::RPC(peer_id, RPCEvent::Response { id, method_id, result }))
            is None,
{
}

/// A request is unanswered only from the time it was sent: a request that is
/// unanswered after a message was unanswered before it, or the message is
/// the dialing of its peer and the request carries the id then given. And
/// the counter of a peer never goes back.
pub proof fn lemma_requests_enter_by_dialing(
    handler: HandlerView,
    message: HandlerMessage,
    now: u64,
    peer_id: PeerId,
    id: u64,
)
    requires
        handler.can_handle(message),
    ensures
        handler.handle_message(message, now).tracker.is_pending(peer_id, id)
            ==> handler.tracker.is_pending(peer_id, id) || (message == HandlerMessage::PeerDialed(
            peer_id,
        ) && id == handler.tracker.next_unused(peer_id)),
        handler.handle_message(message, now).tracker.next_unused(peer_id)
            >= handler.tracker.next_unused(peer_id),
{
    let after = handler.handle_message(message, now).tracker;
    if after.is_pending(peer_id, id) {
        let k = choose|k: int|
            0 <= k < after.pending.len() && (#[trigger] after.pending[k]).peer_id == peer_id
                && after.pending[k].id == id;
        match message {
            HandlerMessage::PeerDialed(dialed) => {
                if k < handler.tracker.pending.len() {
                    assert(handler.tracker.pending[k].peer_id == peer_id);
                }
            },
            HandlerMessage::PeerDisconnected(gone) => {
                lemma_filter_members(handler.tracker.pending, is_to_other_peer(gone));
                assert(handler.tracker.pending.contains(after.pending[k]));
                let i = choose|i: int|
                    0 <= i < handler.tracker.pending.len() && handler.tracker.pending[i]
                        == after.pending[k];
                assert(handler.tracker.pending[i].peer_id == peer_id);
            },
            HandlerMessage::RPC(from, RPCEvent::Response { id: answered, .. }) => {
                if handler.tracker.is_pending(from, answered) {
                    lemma_filter_members(
                        handler.tracker.pending,
                        is_other_request(from, answered),
                    );
                    assert(handler.tracker.pending.contains(after.pending[k]));
                    let i = choose|i: int|
                        0 <= i < handler.tracker.pending.len() && handler.tracker.pending[i]
                            == after.pending[k];
                    assert(handler.tracker.pending[i].peer_id == peer_id);
                }
            },
            HandlerMessage::RPC(_, RPCEvent::Request { .. }) => {},
            HandlerMessage::BlockImported() => {},
            HandlerMessage::Sweep => {
                lemma_filter_members(handler.tracker.pending, is_live(now, REQUEST_TIMEOUT));
                assert(handler.tracker.pending.contains(after.pending[k]));
                let i = choose|i: int|
                    0 <= i < handler.tracker.pending.len() && handler.tracker.pending[i]
                        == after.pending[k];
                assert(handler.tracker.pending[i].peer_id == peer_id);
            },
        }
    }
}

/// A dialed peer that answers with its handshake: the request goes out
/// under the next id of the peer, the response under that id takes it off the
/// unanswered ones again, the handshake is judged, and nothing else changes.
pub proof fn lemma_dial_and_answer(
    handler: HandlerView,
    peer_id: PeerId,
    hello_message: HelloMessage,
    dialed_at: u64,
    answered_at: u64,
)
    requires
        handler.wf(),
        handler.tracker.next_unused(peer_id) < u64::MAX,
    ensures
        ({
            let id = handler.tracker.next_unused(peer_id);
            let dialed = handler.handle_message(HandlerMessage::PeerDialed(peer_id), dialed_at);
            let answered = dialed.handle_message(
                HandlerMessage::RPC(
                    peer_id,
                    RPCEvent::Response {
                        id,
                        method_id: RPCMethod::Hello,
                        result: RPCResponse::Hello(hello_message),
                    },
                ),
                answered_at,
            );
            &&& handler.reply_to(HandlerMessage::PeerDialed(peer_id)) == Some(
                rpc_to(peer_id, hello_event(id, true, handler.sync.hello())),
            )
            &&& dialed.tracker.is_pending(peer_id, id)
            &&& !answered.tracker.is_pending(peer_id, id)
            &&& answered.tracker.pending == handler.tracker.pending
            &&& answered.tracker.next_unused(peer_id) == id + 1
            &&& answered.sync == handler.sync.validate_peer(peer_id, hello_message)
        }),
{
    let id = handler.tracker.next_unused(peer_id);
    let sent = PendingRequest { peer_id, id, sent_at: dialed_at };
    let keep = is_other_request(peer_id, id);
    let dialed = handler.handle_message(HandlerMessage::PeerDialed(peer_id), dialed_at);
    lemma_issue_is_fresh(handler.tracker, peer_id, dialed_at);
    lemma_filter_push(handler.tracker.pending, keep, sent);
    lemma_filter_keeps_all(handler.tracker.pending, keep);
    lemma_resolve_takes_one(dialed.tracker, peer_id, id);
}

/// Handles messages received from the network and client and organises syncing.
pub struct MessageHandler {
    /// The syncing framework.
    sync: SimpleSync,
    /// The requests that were sent to peers and are not answered yet.
    tracker: RequestTracker,
}

impl View for MessageHandler {
    type V = HandlerView;

    closed spec fn view(&self) -> HandlerView {
        HandlerView { sync: self.sync@, tracker: self.tracker@ }
    }
}

impl MessageHandler {
    /// A handler that has just read `chain` and seen no event.
    pub fn new(chain: ChainSnapshot) -> (handler: MessageHandler)
        ensures
            handler@ == HandlerView::start(chain),
            handler@.wf(),
    {
        MessageHandler { sync: SimpleSync::new(chain), tracker: RequestTracker::new() }
    }

    /// The syncing protocol.
    pub fn sync(&self) -> (sync: &SimpleSync)
        ensures
            sync@ == self@.sync,
    {
        &self.sync
    }

    /// The record of the requests that were sent.
    pub fn tracker(&self) -> (tracker: &RequestTracker)
        ensures
            tracker@ == self@.tracker,
    {
        &self.tracker
    }

    /// Takes note of the chain as it was read again.
    pub fn update_chain(&mut self, chain: ChainSnapshot)
        ensures
            final(self)@ == (HandlerView {
                sync: old(self)@.sync.update_chain(chain),
                tracker: old(self)@.tracker,
            }),
    {
        self.sync.update_chain(chain);
    }

    /// Whether the handler can take `message`.
    pub fn can_handle(&self, message: &HandlerMessage) -> (can: bool)
        ensures
            can == self@.can_handle(*message),
    {
        match message {
            HandlerMessage::PeerDialed(peer_id) => self.tracker.peek_next_id(*peer_id) < u64::MAX,
            HandlerMessage::PeerDisconnected(_) => true,
            HandlerMessage::RPC(_, _) => true,
            HandlerMessage::BlockImported() => true,
            HandlerMessage::Sweep => true,
        }
    }

    /// Handle all messages incoming from the network service, at time `now`.
    /// Returns what is to be sent in return, if anything is.
    pub fn handle_message(&mut self, message: HandlerMessage, now: u64) -> (reply: Option<
        NetworkMessage,
    >)
        requires
            old(self)@.can_handle(message),
        ensures
            final(self)@ == old(self)@.handle_message(message, now),
            reply == old(self)@.reply_to(message),
            old(self)@.wf() ==> final(self)@.wf(),
    {
        match message {
            // we have initiated a connection to a peer
            HandlerMessage::PeerDialed(peer_id) => {
                let id = self.generate_request_id(peer_id, now);
                Some(self.send_hello(peer_id, id, true))
            },
            HandlerMessage::PeerDisconnected(peer_id) => {
                self.sync.remove_peer(peer_id);
                self.tracker.forget_peer(peer_id);
                None
            },
            // we have received an RPC message request/response
            HandlerMessage::RPC(peer_id, rpc_event) => self.handle_rpc_message(peer_id, rpc_event),
            HandlerMessage::BlockImported() => None,
            HandlerMessage::Sweep => {
                self.sweep(now);
                None
            },
        }
    }

    /// Gives up the requests that have, at time `now`, waited longer than
    /// [`REQUEST_TIMEOUT`], and returns them in the order in which they were
    /// sent.
    pub fn sweep(&mut self, now: u64) -> (reaped: Vec<(PeerId, u64)>)
        ensures
            reaped@ == old(self)@.tracker.expired(now, REQUEST_TIMEOUT),
            final(self)@ == old(self)@.handle_message(HandlerMessage::Sweep, now),
            old(self)@.wf() ==> final(self)@.wf(),
    {
        self.tracker.reap(now, REQUEST_TIMEOUT)
    }

    /// Handle RPC messages
    pub fn handle_rpc_message(&mut self, peer_id: PeerId, rpc_message: RPCEvent) -> (reply: Option<
        NetworkMessage,
    >)
        ensures
            final(self)@ == old(self)@.handle_rpc_message(peer_id, rpc_message),
            reply == old(self)@.reply_to_rpc_message(peer_id, rpc_message),
            old(self)@.wf() ==> final(self)@.wf(),
    {
        match rpc_message {
            RPCEvent::Request { id, body, .. } => self.handle_rpc_request(peer_id, id, body),
            RPCEvent::Response { id, result, .. } => {
                self.handle_rpc_response(peer_id, id, result);
                None
            },
        }
    }

    /// A new RPC request has been received from the network.
    pub fn handle_rpc_request(&mut self, peer_id: PeerId, id: u64, request: RPCRequest) -> (reply:
        Option<NetworkMessage>)
        ensures
            final(self)@ == old(self)@.handle_rpc_request(peer_id, id, request),
            reply == old(self)@.reply_to_rpc_request(peer_id, id, request),
    {
        match request {
            RPCRequest::Hello(hello_message) => Some(
                self.handle_hello_request(peer_id, id, hello_message),
            ),
            RPCRequest::Unknown => None,
        }
    }

    /// An RPC response has been received from the network.
    // we match on id and ignore responses past the timeout.
    pub fn handle_rpc_response(&mut self, peer_id: PeerId, id: u64, response: RPCResponse) -> (known:
        bool)
        ensures
            known == old(self)@.tracker.is_pending(peer_id, id),
            final(self)@ == old(self)@.handle_rpc_response(peer_id, id, response),
            old(self)@.wf() ==> final(self)@.wf(),
    {
        // if response id is not related to a request, ignore (likely RPC timeout)
        if !self.tracker.resolve(peer_id, id) {
            return false;
        }
        match response {
            RPCResponse::Hello(hello_message) => {
                self.validate_hello(peer_id, hello_message);
            },
            RPCResponse::Unknown => {},
        }
        true
    }

    /// Handle a HELLO RPC request message.
    pub fn handle_hello_request(
        &mut self,
        peer_id: PeerId,
        id: u64,
        hello_message: HelloMessage,
    ) -> (reply: NetworkMessage)
        ensures
            final(self)@ == old(self)@.validate_hello(peer_id, hello_message),
            reply == rpc_to(peer_id, hello_event(id, false, old(self)@.sync.hello())),
    {
        // send back a HELLO message
        let reply = self.send_hello(peer_id, id, false);
        // validate the peer
        self.validate_hello(peer_id, hello_message);
        reply
    }

    /// Validate a HELLO RPC message.
    pub fn validate_hello(&mut self, peer_id: PeerId, message: HelloMessage) -> (valid: bool)
        ensures
            valid == old(self)@.sync.accepts(message),
            final(self)@ == old(self)@.validate_hello(peer_id, message),
    {
        self.sync.validate_peer(peer_id, message)
    }

    /// Generates a new request id for a peer.
    pub fn generate_request_id(&mut self, peer_id: PeerId, now: u64) -> (id: u64)
        requires
            old(self)@.tracker.next_unused(peer_id) < u64::MAX,
        ensures
            id == old(self)@.tracker.next_unused(peer_id),
            final(self)@ == (HandlerView {
                sync: old(self)@.sync,
                tracker: old(self)@.tracker.issue(peer_id, now),
            }),
            old(self)@.wf() ==> final(self)@.wf(),
    {
        self.tracker.next_id(peer_id, now)
    }

    /// The order to send a HELLO RPC request or response to a peer.
    pub fn send_hello(&self, peer_id: PeerId, id: u64, is_request: bool) -> (message:
        NetworkMessage)
        ensures
            message == rpc_to(peer_id, hello_event(id, is_request, self@.sync.hello())),
    {
        let rpc_event = if is_request {
            RPCEvent::Request {
                id,
                method_id: RPCMethod::Hello,
                body: RPCRequest::Hello(self.sync.generate_hello()),
            }
        } else {
            RPCEvent::Response {
                id,
                method_id: RPCMethod::Hello,
                result: RPCResponse::Hello(self.sync.generate_hello()),
            }
        };
        MessageHandler::send_rpc(peer_id, rpc_event)
    }

    /// The order to send an RPC request/response to a peer.
    pub fn send_rpc(peer_id: PeerId, rpc_event: RPCEvent) -> (message: NetworkMessage)
        ensures
            message == rpc_to(peer_id, rpc_event),
    {
        NetworkMessage::Send(peer_id, OutgoingMessage::RPC(rpc_event))
    }
}

} // verus!
