use netharness::channels::ORDERED_RELIABLE;
use netharness::channels::UNORDERED_RELIABLE;
use netharness::codec::encode_c2s;
use netharness::messages::C2SMsg;
use netharness::messages::S2CMsg;
use netharness::server::message_handler;
use netharness::server::shutdown_disconnect;
use netharness::server::PeerSend;
use netharness::server::ServerAction;
use netharness::shutdown::RequestShutdown;
use netharness::shutdown::ShutdownCoordinator;

#[test]
fn ping_is_answered_by_a_pong_to_that_peer_only() {
    let inbound = vec![(7u64, encode_c2s(&C2SMsg::Ping))];
    let actions = message_handler(&inbound);
    assert_eq!(actions, vec![ServerAction::SendPong { client: 7, channel: UNORDERED_RELIABLE }]);
}

#[test]
fn peer_goodbye_closes_that_peer() {
    let inbound = vec![(12u64, encode_c2s(&C2SMsg::Disconnect))];
    let actions = message_handler(&inbound);
    assert_eq!(actions, vec![ServerAction::CloseConnection { client: 12 }]);
}

#[test]
fn mixed_batch_keeps_arrival_order_and_drops_garbage() {
    let inbound = vec![
        (7u64, encode_c2s(&C2SMsg::Ping)),
        (12u64, vec![0u8, 0u8]),
        (12u64, encode_c2s(&C2SMsg::Ping)),
        (7u64, encode_c2s(&C2SMsg::Disconnect)),
    ];
    let actions = message_handler(&inbound);
    assert_eq!(
        actions,
        vec![
            ServerAction::SendPong { client: 7, channel: UNORDERED_RELIABLE },
            ServerAction::SendPong { client: 12, channel: UNORDERED_RELIABLE },
            ServerAction::CloseConnection { client: 7 },
        ]
    );
}

#[test]
fn empty_server_batch_asks_for_nothing() {
    assert_eq!(message_handler(&Vec::new()), Vec::new());
}

#[test]
fn scenario_operator_signal_broadcasts_goodbye_to_every_peer() {
    // Peers 7 and 12 are connected when the operator signal fires. The
    // coordinator runs its sequence; on the exit tick the broadcast plan
    // covers both peers, whatever becomes of each individual send (peer 7
    // may already be gone: the host tries it, tolerates the failure, and
    // still force-closes everyone).
    let mut c = ShutdownCoordinator::new();
    let mut plan = None;
    for reqs in [1usize, 0, 0] {
        let mut requests = Vec::new();
        for _ in 0..reqs {
            requests.push(RequestShutdown);
        }
        let out = c.tick(&requests);
        if out.exit {
            plan = shutdown_disconnect(true, &vec![7u64, 12u64]);
        }
    }
    let plan = plan.expect("the run must reach the exit tick");
    assert_eq!(
        plan.sends,
        vec![
            PeerSend { client: 7, msg: S2CMsg::Disconnect, channel: ORDERED_RELIABLE },
            PeerSend { client: 12, msg: S2CMsg::Disconnect, channel: ORDERED_RELIABLE },
        ]
    );
    assert!(c.exited);
}

#[test]
fn no_broadcast_before_the_exit_tick() {
    assert!(shutdown_disconnect(false, &vec![7u64, 12u64]).is_none());
}

#[test]
fn broadcast_to_no_peers_is_empty_but_still_happens() {
    let plan = shutdown_disconnect(true, &Vec::new()).unwrap();
    assert!(plan.sends.is_empty());
}
