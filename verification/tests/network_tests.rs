use network_p2p::dispatch::{DispatchTable, Route};
use network_p2p::message::{receive_message, NetworkMessage};
use network_p2p::peers::{PeerEvent, PeersManager};
use network_p2p::status::{transfer_status, NetStatus, Transfer};

fn message(module: &str, origin: u64) -> NetworkMessage {
    NetworkMessage {
        module: module.to_string(),
        msg_type: "block".to_string(),
        origin,
        msg: vec![1, 2, 3],
    }
}

#[test]
fn recorded_peer_is_known_and_counted() {
    let mut peers = PeersManager::new();
    let addr = "/dns4/127.0.0.1/tcp/40001".to_string();
    assert!(!peers.check_addr_exists(&addr));
    peers.add_peer(3, addr.clone());
    assert!(peers.check_addr_exists(&addr));
    assert_eq!(peers.peer_count(), 1);
    peers.add_peer(3, addr.clone());
    assert_eq!(peers.peer_count(), 1);
    peers.add_peer(4, "/dns4/127.0.0.1/tcp/40002".to_string());
    assert_eq!(peers.peer_count(), 2);
}

#[test]
fn removed_peer_is_forgotten() {
    let mut peers = PeersManager::new();
    let addr = "/dns4/127.0.0.1/tcp/40001".to_string();
    peers.add_peer(3, addr.clone());
    peers.remove_peer(3);
    assert!(!peers.check_addr_exists(&addr));
    assert_eq!(peers.peer_count(), 0);
    peers.remove_peer(7);
    assert_eq!(peers.peer_count(), 0);
}

#[test]
fn get_peers_lists_each_session() {
    let mut peers = PeersManager::new();
    peers.add_peer(1, "/dns4/a/tcp/1".to_string());
    peers.add_peer(2, "/dns4/b/tcp/2".to_string());
    let mut listed = peers.get_peers();
    listed.sort();
    assert_eq!(
        listed,
        vec![(1, "/dns4/a/tcp/1".to_string()), (2, "/dns4/b/tcp/2".to_string())]
    );
    let mut info = peers.peers_net_info();
    info.sort();
    assert_eq!(info, vec![("/dns4/a/tcp/1".to_string(), 1), ("/dns4/b/tcp/2".to_string(), 2)]);
}

#[test]
fn events_update_sessions() {
    let mut peers = PeersManager::new();
    let addr = "/dns4/a/tcp/1".to_string();
    peers.apply_event(PeerEvent::Opened { session_id: 1, address: addr.clone(), outbound: false });
    assert_eq!(peers.peer_count(), 0);
    peers.apply_event(PeerEvent::Opened { session_id: 2, address: addr.clone(), outbound: true });
    assert!(peers.check_addr_exists(&addr));
    peers.apply_event(PeerEvent::OtherError);
    assert_eq!(peers.peer_count(), 1);
    peers.apply_event(PeerEvent::Closed { session_id: 2 });
    assert_eq!(peers.peer_count(), 0);
    peers.apply_event(PeerEvent::RepeatedConnection { session_id: 5, address: addr.clone() });
    assert_eq!(peers.get_peers(), vec![(5, addr)]);
}

#[test]
fn next_dial_skips_connected() {
    let mut peers = PeersManager::new();
    peers.add_peer(1, "/dns4/b/tcp/2".to_string());
    let wanted = vec![
        "/dns4/a/tcp/1".to_string(),
        "/dns4/b/tcp/2".to_string(),
        "/dns4/c/tcp/3".to_string(),
    ];
    assert_eq!(peers.next_dial(&wanted, 0), Some(0));
    assert_eq!(peers.next_dial(&wanted, 1), Some(2));
    assert_eq!(peers.next_dial(&wanted, 3), None);
    assert_eq!(peers.next_dial(&wanted, 7), None);
    peers.add_peer(2, "/dns4/c/tcp/3".to_string());
    assert_eq!(peers.next_dial(&wanted, 1), None);
    assert_eq!(PeersManager::new().next_dial(&Vec::new(), 0), None);
}

#[test]
fn registered_port_is_returned() {
    let mut table = DispatchTable::new();
    let consensus = "consensus".to_string();
    assert_eq!(table.port_of(&consensus), "");
    table.register(consensus.clone(), "127.0.0.1".to_string(), "50001".to_string());
    table.register("controller".to_string(), "127.0.0.1".to_string(), "50004".to_string());
    assert_eq!(table.port_of(&consensus), "50001");
    table.register(consensus.clone(), "127.0.0.1".to_string(), "50011".to_string());
    assert_eq!(table.port_of(&consensus), "50011");
    assert_eq!(table.port_of(&"controller".to_string()), "50004");
}

#[test]
fn route_delivers_to_registered_port() {
    let mut table = DispatchTable::new();
    table.register("consensus".to_string(), "127.0.0.1".to_string(), "50001".to_string());
    match table.route(9, Some(message("consensus", 0))) {
        Route::Deliver { port, message } => {
            assert_eq!(port, "50001");
            assert_eq!(message.origin, 9);
            assert_eq!(message.module, "consensus");
            assert_eq!(message.msg_type, "block");
            assert_eq!(message.msg, vec![1, 2, 3]);
        }
        _ => panic!("message was not delivered"),
    }
}

#[test]
fn route_drops_unhandled_and_undecodable() {
    let mut table = DispatchTable::new();
    table.register("storage".to_string(), "127.0.0.1".to_string(), "".to_string());
    assert!(matches!(table.route(1, Some(message("consensus", 0))), Route::Unhandled));
    assert!(matches!(table.route(1, Some(message("storage", 0))), Route::Unhandled));
    assert!(matches!(table.route(1, None), Route::Undecodable));
}

#[test]
fn received_message_is_stamped() {
    let m = receive_message(42, Some(message("consensus", 7))).unwrap();
    assert_eq!(m.origin, 42);
    assert!(receive_message(42, None).is_none());
}

#[test]
fn transfer_statuses() {
    assert_eq!(transfer_status(Transfer::SendToSession, true), NetStatus::Success);
    assert_eq!(transfer_status(Transfer::SendToSession, false), NetStatus::SendMsgError);
    assert_eq!(transfer_status(Transfer::Broadcast, true), NetStatus::Success);
    assert_eq!(transfer_status(Transfer::Broadcast, false), NetStatus::BroadcastMsgError);
    assert_eq!(transfer_status(Transfer::Dial, true), NetStatus::Success);
    assert_eq!(transfer_status(Transfer::Dial, false), NetStatus::DialNodeFail);
}
