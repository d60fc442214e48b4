use beacon_sync::message_handler::{HandlerMessage, MessageHandler, NetworkMessage, OutgoingMessage};
use beacon_sync::peer_registry::PeerSyncInfo;
use beacon_sync::rpc::{HelloMessage, RPCEvent, RPCMethod, RPCRequest, RPCResponse};
use beacon_sync::simple_sync::{ChainSnapshot, SyncState};
use beacon_sync::types::Hash256;

fn hash(byte: u8) -> Hash256 {
    Hash256 { bytes: [byte; 32] }
}

fn chain(network_id: u8, head_slot: u64) -> ChainSnapshot {
    ChainSnapshot { network_id, finalized_root: hash(0xf1), finalized_epoch: 3, head_slot }
}

fn hello(network_id: u8, best_slot: u64) -> HelloMessage {
    HelloMessage {
        network_id,
        latest_finalized_root: hash(0xaa),
        latest_finalized_epoch: 5,
        best_root: hash(0xbb),
        best_slot,
    }
}

fn own_hello(network_id: u8, head_slot: u64) -> HelloMessage {
    HelloMessage {
        network_id,
        latest_finalized_root: hash(0xf1),
        latest_finalized_epoch: 3,
        best_root: Hash256::zero(),
        best_slot: head_slot,
    }
}

fn response(peer: u64, id: u64, hello: HelloMessage) -> HandlerMessage {
    HandlerMessage::RPC(peer, RPCEvent::Response { id, method_id: RPCMethod::Hello, result: RPCResponse::Hello(hello) })
}

fn request(peer: u64, id: u64, hello: HelloMessage) -> HandlerMessage {
    HandlerMessage::RPC(peer, RPCEvent::Request { id, method_id: RPCMethod::Hello, body: RPCRequest::Hello(hello) })
}

#[test]
fn a_dialed_peer_is_sent_a_hello_request() {
    let mut handler = MessageHandler::new(chain(1, 200));
    let sent = handler.handle_message(HandlerMessage::PeerDialed(42), 1000);
    assert_eq!(
        sent,
        Some(NetworkMessage::Send(
            42,
            OutgoingMessage::RPC(RPCEvent::Request {
                id: 0,
                method_id: RPCMethod::Hello,
                body: RPCRequest::Hello(own_hello(1, 200)),
            })
        ))
    );
    assert!(handler.tracker().is_pending(42, 0));
    assert_eq!(handler.tracker().pending_count(), 1);
    assert_eq!(handler.sync().peer_count(), 0);
}

#[test]
fn dialing_again_takes_the_next_id() {
    let mut handler = MessageHandler::new(chain(1, 200));
    handler.handle_message(HandlerMessage::PeerDialed(42), 1000);
    let sent = handler.handle_message(HandlerMessage::PeerDialed(42), 1001);
    assert_eq!(sent, Some(handler.send_hello(42, 1, true)));
    let sent = handler.handle_message(HandlerMessage::PeerDialed(43), 1001);
    assert_eq!(sent, Some(handler.send_hello(43, 0, true)));
}

#[test]
fn connect_and_handshake_end_to_end() {
    let mut handler = MessageHandler::new(chain(1, 200));
    let sent = handler.handle_message(HandlerMessage::PeerDialed(42), 1000);
    assert!(matches!(
        sent,
        Some(NetworkMessage::Send(42, OutgoingMessage::RPC(RPCEvent::Request { id: 0, .. })))
    ));
    assert!(handler.tracker().is_pending(42, 0));
    assert_eq!(handler.sync().state(), SyncState::Idle);

    let sent = handler.handle_message(response(42, 0, hello(1, 500)), 1002);
    assert_eq!(sent, None);
    assert_eq!(handler.sync().state(), SyncState::Downloading);
    assert!(!handler.tracker().is_pending(42, 0));
    assert_eq!(handler.tracker().pending_count(), 0);
    assert_eq!(handler.sync().peer_info(42), Some(PeerSyncInfo::from_hello(&hello(1, 500))));
}

#[test]
fn the_steps_of_the_handshake_one_by_one() {
    let mut handler = MessageHandler::new(chain(1, 200));
    assert_eq!(handler.generate_request_id(42, 1000), 0);
    assert!(handler.handle_rpc_response(42, 0, RPCResponse::Hello(hello(1, 500))));
    assert_eq!(handler.sync().state(), SyncState::Downloading);
    assert!(!handler.tracker().is_pending(42, 0));

    let mut handler = MessageHandler::new(chain(1, 200));
    assert!(handler.validate_hello(42, hello(1, 500)));
    assert!(!handler.validate_hello(43, hello(2, 500)));
    assert_eq!(handler.sync().peer_count(), 1);
}

#[test]
fn an_unsolicited_response_is_dropped() {
    let mut handler = MessageHandler::new(chain(1, 200));
    let sent = handler.handle_message(response(42, 0, hello(1, 500)), 1000);
    assert_eq!(sent, None);
    assert_eq!(handler.sync().state(), SyncState::Idle);
    assert_eq!(handler.sync().peer_count(), 0);

    handler.handle_message(HandlerMessage::PeerDialed(42), 1000);
    // the wrong id, and the wrong peer
    assert_eq!(handler.handle_message(response(42, 1, hello(1, 500)), 1001), None);
    assert_eq!(handler.handle_message(response(43, 0, hello(1, 500)), 1001), None);
    assert_eq!(handler.sync().peer_count(), 0);
    assert_eq!(handler.sync().state(), SyncState::Idle);
    assert!(handler.tracker().is_pending(42, 0));
    assert!(!handler.handle_rpc_response(42, 5, RPCResponse::Hello(hello(1, 500))));
}

#[test]
fn a_second_response_is_dropped() {
    let mut handler = MessageHandler::new(chain(1, 200));
    handler.handle_message(HandlerMessage::PeerDialed(42), 1000);
    handler.handle_message(response(42, 0, hello(1, 250)), 1001);
    assert_eq!(handler.sync().peer_info(42), Some(PeerSyncInfo::from_hello(&hello(1, 250))));
    handler.handle_message(response(42, 0, hello(1, 900)), 1002);
    assert_eq!(handler.sync().peer_info(42), Some(PeerSyncInfo::from_hello(&hello(1, 250))));
    assert_eq!(handler.sync().state(), SyncState::Idle);
}

#[test]
fn a_response_from_another_network_resolves_but_is_refused() {
    let mut handler = MessageHandler::new(chain(1, 200));
    handler.handle_message(HandlerMessage::PeerDialed(42), 1000);
    assert_eq!(handler.handle_message(response(42, 0, hello(2, 500)), 1001), None);
    assert!(!handler.tracker().is_pending(42, 0));
    assert_eq!(handler.sync().peer_count(), 0);
    assert_eq!(handler.sync().state(), SyncState::Idle);
}

#[test]
fn a_response_of_another_kind_resolves_its_request() {
    let mut handler = MessageHandler::new(chain(1, 200));
    handler.handle_message(HandlerMessage::PeerDialed(42), 1000);
    let other = HandlerMessage::RPC(
        42,
        RPCEvent::Response { id: 0, method_id: RPCMethod::Unknown, result: RPCResponse::Unknown },
    );
    assert_eq!(handler.handle_message(other, 1001), None);
    assert!(!handler.tracker().is_pending(42, 0));
    assert_eq!(handler.sync().peer_count(), 0);
}

#[test]
fn a_hello_request_is_answered_under_its_own_id() {
    let mut handler = MessageHandler::new(chain(1, 200));
    let sent = handler.handle_message(request(42, 17, hello(1, 250)), 1000);
    assert_eq!(
        sent,
        Some(NetworkMessage::Send(
            42,
            OutgoingMessage::RPC(RPCEvent::Response {
                id: 17,
                method_id: RPCMethod::Hello,
                result: RPCResponse::Hello(own_hello(1, 200)),
            })
        ))
    );
    assert_eq!(handler.sync().peer_info(42), Some(PeerSyncInfo::from_hello(&hello(1, 250))));
    // answering takes no id of ours
    assert_eq!(handler.tracker().peek_next_id(42), 0);
    assert_eq!(handler.tracker().pending_count(), 0);
}

#[test]
fn a_hello_request_from_another_network_is_answered_and_refused() {
    let mut handler = MessageHandler::new(chain(1, 200));
    let sent = handler.handle_message(request(42, 3, hello(2, 900)), 1000);
    assert_eq!(sent, Some(handler.send_hello(42, 3, false)));
    assert_eq!(handler.sync().peer_count(), 0);
    assert_eq!(handler.sync().state(), SyncState::Idle);
}

#[test]
fn a_request_of_another_kind_is_a_no_op() {
    let mut handler = MessageHandler::new(chain(1, 200));
    let other =
        HandlerMessage::RPC(42, RPCEvent::Request { id: 3, method_id: RPCMethod::Unknown, body: RPCRequest::Unknown });
    assert_eq!(handler.handle_message(other, 1000), None);
    assert_eq!(handler.sync().peer_count(), 0);
    assert_eq!(handler.tracker().pending_count(), 0);
}

#[test]
fn an_imported_block_is_a_no_op() {
    let mut handler = MessageHandler::new(chain(1, 200));
    handler.handle_message(HandlerMessage::PeerDialed(42), 1000);
    handler.handle_message(request(43, 0, hello(1, 250)), 1000);
    assert_eq!(handler.handle_message(HandlerMessage::BlockImported(), 1001), None);
    assert_eq!(handler.tracker().pending_count(), 1);
    assert_eq!(handler.sync().peer_count(), 1);
    assert_eq!(handler.sync().state(), SyncState::Idle);
}

#[test]
fn a_disconnected_peer_is_forgotten() {
    let mut handler = MessageHandler::new(chain(1, 200));
    handler.handle_message(HandlerMessage::PeerDialed(42), 1000);
    handler.handle_message(HandlerMessage::PeerDialed(42), 1001);
    handler.handle_message(response(42, 0, hello(1, 250)), 1002);
    handler.handle_message(HandlerMessage::PeerDialed(43), 1003);
    handler.handle_message(request(43, 9, hello(1, 260)), 1003);
    assert_eq!(handler.sync().peer_count(), 2);

    assert_eq!(handler.handle_message(HandlerMessage::PeerDisconnected(42), 1004), None);
    assert_eq!(handler.sync().peer_info(42), None);
    assert!(!handler.tracker().is_pending(42, 1));
    assert!(handler.tracker().is_pending(43, 0));
    assert_eq!(handler.sync().peer_info(43), Some(PeerSyncInfo::from_hello(&hello(1, 260))));
    // its late response finds nothing
    handler.handle_message(response(42, 1, hello(1, 900)), 1005);
    assert_eq!(handler.sync().peer_info(42), None);
    assert_eq!(handler.sync().state(), SyncState::Idle);
    // a peer that was never known
    assert_eq!(handler.handle_message(HandlerMessage::PeerDisconnected(99), 1006), None);
    assert_eq!(handler.sync().peer_count(), 1);
}

#[test]
fn a_sweep_gives_up_old_requests() {
    let mut handler = MessageHandler::new(chain(1, 200));
    handler.handle_message(HandlerMessage::PeerDialed(42), 1000);
    handler.handle_message(HandlerMessage::PeerDialed(43), 1020);
    assert_eq!(handler.handle_message(HandlerMessage::Sweep, 1030), None);
    assert_eq!(handler.tracker().pending_count(), 2);
    assert_eq!(handler.handle_message(HandlerMessage::Sweep, 1031), None);
    assert!(!handler.tracker().is_pending(42, 0));
    assert!(handler.tracker().is_pending(43, 0));
    // the response that comes after the sweep is dropped
    handler.handle_message(response(42, 0, hello(1, 900)), 1032);
    assert_eq!(handler.sync().peer_count(), 0);
    assert_eq!(handler.sync().state(), SyncState::Idle);
}

#[test]
fn every_message_can_be_handled_by_a_new_handler() {
    let handler = MessageHandler::new(chain(1, 200));
    assert!(handler.can_handle(&HandlerMessage::PeerDialed(1)));
    assert!(handler.can_handle(&HandlerMessage::PeerDisconnected(1)));
    assert!(handler.can_handle(&HandlerMessage::BlockImported()));
    assert!(handler.can_handle(&HandlerMessage::Sweep));
    assert!(handler.can_handle(&request(1, 0, hello(1, 1))));
    assert!(handler.can_handle(&response(1, 0, hello(1, 1))));
}

#[test]
fn the_hello_follows_the_chain() {
    let mut handler = MessageHandler::new(chain(1, 200));
    handler.update_chain(chain(1, 777));
    assert_eq!(handler.sync().chain(), chain(1, 777));
    assert_eq!(
        handler.send_hello(5, 2, true),
        MessageHandler::send_rpc(
            5,
            RPCEvent::Request { id: 2, method_id: RPCMethod::Hello, body: RPCRequest::Hello(own_hello(1, 777)) }
        )
    );
    // held against the new head, a head at 800 is not far ahead
    handler.handle_message(request(5, 0, hello(1, 800)), 10);
    assert_eq!(handler.sync().state(), SyncState::Idle);
}
