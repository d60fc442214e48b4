use beacon_sync::peer_registry::{PeerRegistry, PeerSyncInfo};
use beacon_sync::rpc::HelloMessage;
use beacon_sync::simple_sync::{ChainSnapshot, SimpleSync, SyncState, SLOT_IMPORT_TOLERANCE};
use beacon_sync::types::Hash256;

fn hash(byte: u8) -> Hash256 {
    Hash256 { bytes: [byte; 32] }
}

fn chain(network_id: u8, head_slot: u64) -> ChainSnapshot {
    ChainSnapshot { network_id, finalized_root: hash(0xf1), finalized_epoch: 3, head_slot }
}

fn hello(network_id: u8, best_slot: u64) -> HelloMessage {
    HelloMessage {
        network_id,
        latest_finalized_root: hash(0xaa),
        latest_finalized_epoch: 5,
        best_root: hash(0xbb),
        best_slot,
    }
}

#[test]
fn tolerance_is_a_hundred_slots() {
    assert_eq!(SLOT_IMPORT_TOLERANCE, 100);
}

#[test]
fn zero_hash_is_all_zero() {
    assert_eq!(Hash256::zero(), Hash256 { bytes: [0; 32] });
}

#[test]
fn registry_upsert_get_remove() {
    let mut registry = PeerRegistry::new();
    assert_eq!(registry.len(), 0);
    assert_eq!(registry.get(1), None);
    let first = PeerSyncInfo::from_hello(&hello(1, 10));
    let second = PeerSyncInfo::from_hello(&hello(1, 20));
    registry.upsert(1, first);
    assert_eq!(registry.get(1), Some(first));
    assert_eq!(registry.len(), 1);
    registry.upsert(1, second);
    assert_eq!(registry.get(1), Some(second));
    assert_eq!(registry.len(), 1);
    registry.upsert(2, first);
    assert_eq!(registry.len(), 2);
    registry.remove(1);
    assert_eq!(registry.get(1), None);
    assert_eq!(registry.get(2), Some(first));
    // removing an absent peer is no error
    registry.remove(1);
    registry.remove(77);
    assert_eq!(registry.len(), 1);
}

#[test]
fn peer_info_holds_every_field_but_the_network() {
    let info = PeerSyncInfo::from_hello(&hello(9, 77));
    assert_eq!(
        info,
        PeerSyncInfo {
            latest_finalized_root: hash(0xaa),
            latest_finalized_epoch: 5,
            best_root: hash(0xbb),
            best_slot: 77,
        }
    );
}

#[test]
fn a_new_node_is_idle_and_knows_no_peer() {
    let sync = SimpleSync::new(chain(1, 200));
    assert_eq!(sync.state(), SyncState::Idle);
    assert_eq!(sync.peer_count(), 0);
    assert_eq!(sync.peer_info(1), None);
    assert_eq!(sync.chain(), chain(1, 200));
}

#[test]
fn generate_hello_packs_the_chain() {
    let sync = SimpleSync::new(chain(4, 200));
    assert_eq!(
        sync.generate_hello(),
        HelloMessage {
            network_id: 4,
            latest_finalized_root: hash(0xf1),
            latest_finalized_epoch: 3,
            best_root: Hash256::zero(),
            best_slot: 200,
        }
    );
}

#[test]
fn generate_hello_follows_the_chain() {
    let mut sync = SimpleSync::new(chain(4, 200));
    sync.update_chain(ChainSnapshot {
        network_id: 4,
        finalized_root: hash(0x22),
        finalized_epoch: 9,
        head_slot: 321,
    });
    let hello = sync.generate_hello();
    assert_eq!(hello.latest_finalized_root, hash(0x22));
    assert_eq!(hello.latest_finalized_epoch, 9);
    assert_eq!(hello.best_slot, 321);
    assert_eq!(sync.state(), SyncState::Idle);
}

#[test]
fn a_handshake_from_another_network_is_refused() {
    let mut sync = SimpleSync::new(chain(1, 200));
    assert!(sync.validate_peer(5, hello(1, 10)));
    assert!(!sync.validate_peer(6, hello(2, 100_000)));
    assert_eq!(sync.peer_count(), 1);
    assert_eq!(sync.peer_info(6), None);
    assert_eq!(sync.state(), SyncState::Idle);
    // nor does it touch what an earlier handshake of the same peer told
    assert!(!sync.validate_peer(5, hello(0, 100_000)));
    assert_eq!(sync.peer_info(5), Some(PeerSyncInfo::from_hello(&hello(1, 10))));
    assert_eq!(sync.peer_count(), 1);
    assert_eq!(sync.state(), SyncState::Idle);
}

#[test]
fn an_accepted_handshake_is_recorded_as_sent() {
    let mut sync = SimpleSync::new(chain(1, 200));
    assert!(sync.validate_peer(5, hello(1, 10)));
    assert_eq!(
        sync.peer_info(5),
        Some(PeerSyncInfo {
            latest_finalized_root: hash(0xaa),
            latest_finalized_epoch: 5,
            best_root: hash(0xbb),
            best_slot: 10,
        })
    );
    assert_eq!(sync.peer_count(), 1);
}

#[test]
fn a_later_handshake_replaces_the_record() {
    let mut sync = SimpleSync::new(chain(1, 200));
    assert!(sync.validate_peer(5, hello(1, 10)));
    let later = HelloMessage {
        network_id: 1,
        latest_finalized_root: hash(0x01),
        latest_finalized_epoch: 6,
        best_root: hash(0x02),
        best_slot: 11,
    };
    assert!(sync.validate_peer(5, later));
    assert_eq!(sync.peer_info(5), Some(PeerSyncInfo::from_hello(&later)));
    assert_eq!(sync.peer_count(), 1);
}

#[test]
fn a_finalized_epoch_behind_ours_is_accepted() {
    // our finalized epoch is 3
    let mut sync = SimpleSync::new(chain(1, 200));
    let mut behind = hello(1, 10);
    behind.latest_finalized_epoch = 2;
    assert!(sync.validate_peer(5, behind));
    let mut level = hello(1, 10);
    level.latest_finalized_epoch = 3;
    assert!(sync.validate_peer(6, level));
    assert_eq!(sync.peer_count(), 2);
}

#[test]
fn download_starts_past_the_tolerance() {
    let mut sync = SimpleSync::new(chain(1, 200));
    assert!(sync.validate_peer(5, hello(1, 300)));
    assert_eq!(sync.state(), SyncState::Idle);
    assert!(sync.validate_peer(6, hello(1, 301)));
    assert_eq!(sync.state(), SyncState::Downloading);
}

#[test]
fn download_does_not_start_at_the_tolerance() {
    let mut sync = SimpleSync::new(chain(1, 0));
    assert!(sync.validate_peer(5, hello(1, 100)));
    assert_eq!(sync.state(), SyncState::Idle);
    assert!(sync.validate_peer(5, hello(1, 0)));
    assert_eq!(sync.state(), SyncState::Idle);
}

#[test]
fn tolerance_near_the_last_slot() {
    let mut sync = SimpleSync::new(chain(1, u64::MAX - 50));
    assert!(sync.validate_peer(5, hello(1, u64::MAX)));
    assert_eq!(sync.state(), SyncState::Idle);
    let mut sync = SimpleSync::new(chain(1, u64::MAX - 101));
    assert!(sync.validate_peer(5, hello(1, u64::MAX - 1)));
    assert_eq!(sync.state(), SyncState::Idle);
    assert!(sync.validate_peer(5, hello(1, u64::MAX)));
    assert_eq!(sync.state(), SyncState::Downloading);
}

#[test]
fn the_trigger_is_not_looked_at_again() {
    let mut sync = SimpleSync::new(chain(1, 200));
    assert!(sync.validate_peer(5, hello(1, 250)));
    assert_eq!(sync.state(), SyncState::Idle);
    // the chain falls back, but no handshake comes in
    sync.update_chain(chain(1, 100));
    assert_eq!(sync.state(), SyncState::Idle);
    // the next handshake is held against the chain as it is now
    assert!(sync.validate_peer(5, hello(1, 250)));
    assert_eq!(sync.state(), SyncState::Downloading);
}

#[test]
fn a_downloading_node_stays_downloading() {
    let mut sync = SimpleSync::new(chain(1, 200));
    assert!(sync.validate_peer(5, hello(1, 1000)));
    assert_eq!(sync.state(), SyncState::Downloading);
    assert!(sync.validate_peer(6, hello(1, 200)));
    assert_eq!(sync.state(), SyncState::Downloading);
    assert!(!sync.validate_peer(7, hello(9, 200)));
    assert_eq!(sync.state(), SyncState::Downloading);
}

#[test]
fn a_stopped_node_stays_stopped() {
    let mut sync = SimpleSync::new(chain(1, 200));
    sync.stop();
    assert_eq!(sync.state(), SyncState::Stopped);
    assert!(sync.validate_peer(5, hello(1, 1000)));
    assert_eq!(sync.state(), SyncState::Stopped);
    assert_eq!(sync.peer_info(5), Some(PeerSyncInfo::from_hello(&hello(1, 1000))));
    sync.download_finished();
    assert_eq!(sync.state(), SyncState::Stopped);
    sync.resume();
    assert_eq!(sync.state(), SyncState::Idle);
}

#[test]
fn the_end_of_a_download_makes_idle() {
    let mut sync = SimpleSync::new(chain(1, 200));
    sync.download_finished();
    assert_eq!(sync.state(), SyncState::Idle);
    sync.resume();
    assert_eq!(sync.state(), SyncState::Idle);
    assert!(sync.validate_peer(5, hello(1, 1000)));
    sync.resume();
    assert_eq!(sync.state(), SyncState::Downloading);
    sync.download_finished();
    assert_eq!(sync.state(), SyncState::Idle);
    assert_eq!(sync.peer_count(), 1);
    sync.stop();
    assert_eq!(sync.state(), SyncState::Stopped);
}

#[test]
fn remove_peer_drops_the_record() {
    let mut sync = SimpleSync::new(chain(1, 200));
    assert!(sync.validate_peer(5, hello(1, 10)));
    assert!(sync.validate_peer(6, hello(1, 11)));
    sync.remove_peer(5);
    assert_eq!(sync.peer_info(5), None);
    assert_eq!(sync.peer_info(6), Some(PeerSyncInfo::from_hello(&hello(1, 11))));
    sync.remove_peer(5);
    assert_eq!(sync.peer_count(), 1);
}

#[test]
fn a_node_accepts_the_hello_of_its_like() {
    let ours = SimpleSync::new(chain(3, 640));
    let mut theirs = SimpleSync::new(chain(3, 640));
    let offered = ours.generate_hello();
    assert!(theirs.validate_peer(11, offered));
    assert_eq!(
        theirs.peer_info(11),
        Some(PeerSyncInfo {
            latest_finalized_root: offered.latest_finalized_root,
            latest_finalized_epoch: offered.latest_finalized_epoch,
            best_root: offered.best_root,
            best_slot: offered.best_slot,
        })
    );
    assert_eq!(theirs.state(), SyncState::Idle);
}
