//! Peer synchronisation core of a beacon node: handshake validation, per-peer
//! chain progress, request correlation and the decision to start bulk sync.

pub mod attestation_data;
pub mod attestation_data_and_custody_bit;
pub mod eth1_data;
pub mod eth1_data_vote;
pub mod message_handler;
pub mod peer_registry;
pub mod request_log;
pub mod request_tracker;
pub mod rpc;
pub mod seq_filter;
pub mod simple_sync;
pub mod ssz;
pub mod test_random;
pub mod tree_hash;
pub mod types;
