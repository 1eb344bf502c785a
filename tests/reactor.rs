use udp_reactor::drain::{drain_step, DrainStep, RecvResult};
use udp_reactor::notify::{NotifyState, WakeAction};
use udp_reactor::pool::ExtraSockets;
use udp_reactor::route::{PeerAddress, RouteKey};
use udp_reactor::shutdown::{StopError, StopRegistry};
use udp_reactor::tokens::{classify_main, main_token, Dispatch, CONTROL_CAPACITY, NOTIFY_TOKEN};

fn peer_1_2_3_4() -> PeerAddress {
    PeerAddress::V4 { ipv4: 0x0102_0304, port: 9000 }
}

#[test]
fn route_key_holds_its_fields() {
    let k = RouteKey::new(false, 7, peer_1_2_3_4());
    assert!(!k.is_stream());
    assert_eq!(k.index(), 7);
    assert_eq!(k.addr(), peer_1_2_3_4());
    assert_eq!(k.addr().port(), 9000);
    let v6 = PeerAddress::V6 { ipv6: 1, port: 53 };
    assert_eq!(v6.port(), 53);
}

#[test]
fn constants() {
    assert_eq!(NOTIFY_TOKEN, 0);
    assert_eq!(CONTROL_CAPACITY, 64);
}

#[test]
fn main_tokens_are_index_plus_one() {
    assert_eq!(main_token(0), Some(1));
    assert_eq!(main_token(1), Some(2));
    assert_eq!(main_token(usize::MAX), None);
}

#[test]
fn main_classification() {
    assert_eq!(classify_main(0, 2), Dispatch::Notify);
    assert_eq!(classify_main(1, 2), Dispatch::Socket(0));
    assert_eq!(classify_main(2, 2), Dispatch::Socket(1));
    assert_eq!(classify_main(3, 2), Dispatch::Unknown);
    assert_eq!(classify_main(1, 0), Dispatch::Unknown);
}

#[test]
fn datagram_on_second_main_socket() {
    // Two main sockets; a datagram from 1.2.3.4:9000 arrives on socket 1.
    let payload: Vec<u8> = vec![0xde, 0xad, 0xbe, 0xef, 0x01];
    let token = main_token(1).unwrap();
    let index = match classify_main(token, 2) {
        Dispatch::Socket(i) => i,
        other => panic!("unexpected dispatch {:?}", other),
    };
    assert_eq!(index, 1);
    let mut buf = [0u8; 64];
    buf[..payload.len()].copy_from_slice(&payload);
    let step = drain_step(index, RecvResult::Received { len: payload.len(), addr: peer_1_2_3_4() });
    match step {
        DrainStep::Deliver { len, key } => {
            assert_eq!(&buf[..len], &payload[..]);
            assert_eq!(key, RouteKey { is_stream: false, index: 1, addr: peer_1_2_3_4() });
        }
        other => panic!("unexpected step {:?}", other),
    }
}

#[test]
fn drain_delivers_every_waiting_datagram() {
    let mut results: Vec<RecvResult> = Vec::new();
    for i in 0..5u16 {
        results.push(RecvResult::Received {
            len: 10 + i as usize,
            addr: PeerAddress::V4 { ipv4: 0x0a00_0001, port: 4000 + i },
        });
    }
    results.push(RecvResult::WouldBlock);
    results.push(RecvResult::Received { len: 1, addr: peer_1_2_3_4() });
    let mut delivered: Vec<(usize, RouteKey)> = Vec::new();
    for r in results {
        match drain_step(3, r) {
            DrainStep::Deliver { len, key } => delivered.push((len, key)),
            DrainStep::Retry => {}
            DrainStep::Done => break,
        }
    }
    assert_eq!(delivered.len(), 5);
    for (i, (len, key)) in delivered.iter().enumerate() {
        assert_eq!(*len, 10 + i);
        assert_eq!(key.index, 3);
        assert!(!key.is_stream);
        assert_eq!(key.addr.port(), 4000 + i as u16);
    }
}

#[test]
fn receive_error_does_not_end_drain() {
    assert_eq!(drain_step(0, RecvResult::Failed), DrainStep::Retry);
    assert_eq!(drain_step(0, RecvResult::WouldBlock), DrainStep::Done);
}

#[test]
fn cone_pool_then_two_sockets() {
    // Cone mode, two main sockets; Some([socketA, socketB]) arrives.
    let main_count = 2usize;
    let mut pool: ExtraSockets<&str> = ExtraSockets::new(main_count);
    assert!(pool.is_empty());
    let tokens = pool.assign_tokens(2).unwrap();
    assert_eq!(tokens, vec![2, 3]);
    pool.extend(vec!["socketA", "socketB"]);
    assert_eq!(pool.len(), 2);
    assert_eq!(pool.main_count(), 2);
    assert_eq!(pool.get(tokens[1]), Some(&"socketB"));
    assert_eq!(pool.classify(tokens[1]), Dispatch::Socket(main_count + 1));
    match drain_step(main_count + 1, RecvResult::Received { len: 3, addr: peer_1_2_3_4() }) {
        DrainStep::Deliver { key, .. } => assert_eq!(key.index, main_count + 1),
        other => panic!("unexpected step {:?}", other),
    }
}

#[test]
fn updates_are_additive() {
    let mut pool: ExtraSockets<char> = ExtraSockets::new(1);
    assert_eq!(pool.assign_tokens(2), Some(vec![1, 2]));
    pool.extend(vec!['a', 'b']);
    assert_eq!(pool.assign_tokens(1), Some(vec![3]));
    pool.extend(vec!['c']);
    assert_eq!(pool.len(), 3);
    assert_eq!(pool.get(1), Some(&'a'));
    assert_eq!(pool.get(2), Some(&'b'));
    assert_eq!(pool.get(3), Some(&'c'));
}

#[test]
fn cone_revert_hands_back_every_socket() {
    let mut pool: ExtraSockets<char> = ExtraSockets::new(4);
    pool.extend(vec!['a', 'b']);
    pool.extend(vec!['c']);
    let dropped = pool.revert_to_cone();
    assert_eq!(dropped, vec!['a', 'b', 'c']);
    assert!(pool.is_empty());
    assert_eq!(pool.get(4), None);
    assert_eq!(pool.classify(4), Dispatch::Unknown);
    assert_eq!(pool.assign_tokens(1), Some(vec![4]));
    let again = pool.revert_to_cone();
    assert!(again.is_empty());
}

#[test]
fn indices_disjoint_across_reactors() {
    let main_count = 3usize;
    let mut pool: ExtraSockets<u8> = ExtraSockets::new(main_count);
    pool.extend(vec![10, 11, 12, 13]);
    let mut seen: Vec<usize> = Vec::new();
    for t in 0..20usize {
        if let Dispatch::Socket(i) = classify_main(t, main_count) {
            assert!(i < main_count);
            seen.push(i);
        }
        if let Dispatch::Socket(j) = pool.classify(t) {
            assert!(main_count <= j && j < main_count + 4);
            seen.push(j);
        }
    }
    seen.sort();
    assert_eq!(seen, vec![0, 1, 2, 3, 4, 5, 6]);
    assert_eq!(pool.classify(NOTIFY_TOKEN), Dispatch::Notify);
}

#[test]
fn pool_token_limits() {
    let pool: ExtraSockets<u8> = ExtraSockets::new(0);
    assert_eq!(pool.assign_tokens(0), Some(vec![]));
    assert_eq!(pool.assign_tokens(1), None);
    let near_end: ExtraSockets<u8> = ExtraSockets::new(usize::MAX - 2);
    assert_eq!(near_end.assign_tokens(2), Some(vec![usize::MAX - 2, usize::MAX - 1]));
    assert_eq!(near_end.assign_tokens(3), None);
}

#[test]
fn wake_takes_update_once() {
    let mut n = NotifyState::new();
    assert_eq!(n.on_wake(), WakeAction::Ignore);
    n.request_add_socket();
    n.request_add_socket();
    assert!(n.is_add_socket());
    assert_eq!(n.on_wake(), WakeAction::DrainControl);
    assert!(!n.is_add_socket());
    assert_eq!(n.on_wake(), WakeAction::Ignore);
}

#[test]
fn stop_wins_over_pending_update() {
    let mut n = NotifyState::new();
    n.request_add_socket();
    n.request_stop();
    assert!(n.is_stop());
    assert_eq!(n.on_wake(), WakeAction::Exit);
    assert_eq!(n.on_wake(), WakeAction::Exit);
    assert!(n.is_add_socket());
}

#[test]
fn stop_all_hands_out_each_listener_once() {
    let mut reg: StopRegistry<u32> = StopRegistry::new();
    assert_eq!(reg.add_listener("main_udp".to_string(), 1), Ok(0));
    assert_eq!(reg.add_listener("sub_udp_listen".to_string(), 2), Ok(1));
    assert_eq!(reg.len(), 2);
    assert!(!reg.is_stopping());
    let first = reg.stop_all();
    let names: Vec<&str> = first.iter().map(|l| l.name.as_str()).collect();
    assert_eq!(names, vec!["main_udp", "sub_udp_listen"]);
    assert_eq!(first.iter().map(|l| l.callback).collect::<Vec<u32>>(), vec![1, 2]);
    assert!(reg.is_stopping());
    assert!(reg.stop_all().is_empty());
    assert_eq!(reg.add_listener("late".to_string(), 3), Err(StopError::Stopping));
    assert_eq!(reg.len(), 0);
}

#[test]
fn main_failure_stops_sub_reactor() {
    let mut sub = NotifyState::new();
    sub.request_add_socket();
    let mut reg: StopRegistry<&str> = StopRegistry::new();
    reg.add_listener("main_udp".to_string(), "main").unwrap();
    reg.add_listener("sub_udp_listen".to_string(), "sub").unwrap();
    // The main reactor fails and stops everything.
    for l in reg.stop_all() {
        if l.callback == "sub" {
            sub.request_stop();
        }
    }
    assert_eq!(sub.on_wake(), WakeAction::Exit);
}
