use metaphy_network::address::Address;
use metaphy_network::bridge::{request_dial, CommandQueue, EventQueue, RecvError, RequestError, SendError};
use metaphy_network::command::NetworkCommand;
use metaphy_network::event::{NetworkEvent, PingEvent};
use metaphy_network::address::PeerKey;

fn dial(n: u8) -> NetworkCommand {
    NetworkCommand::Dial(Address::new(vec![4, n]))
}

fn ping(n: u8) -> NetworkEvent {
    NetworkEvent::Ping(PingEvent { peer: PeerKey::new(vec![n]), rtt_micros: Some(n as u64) })
}

#[test]
fn capacity_sends_succeed_then_full() {
    for cap in [1usize, 2, 5, 32] {
        let mut q = CommandQueue::new(cap);
        for i in 0..cap {
            assert!(q.try_send(dial(i as u8)).is_ok());
        }
        match q.try_send(dial(99)) {
            Err(SendError::Full(NetworkCommand::Dial(a))) => assert_eq!(a.bytes, vec![4, 99]),
            _ => panic!("expected full"),
        }
    }
}

#[test]
fn receive_frees_a_slot() {
    let mut q = CommandQueue::new(1);
    assert!(q.try_send(dial(1)).is_ok());
    assert!(q.try_recv().is_ok());
    assert!(q.try_send(dial(2)).is_ok());
}

#[test]
fn events_come_out_in_order() {
    let mut q = EventQueue::new(8);
    for i in 0..5u8 {
        assert!(q.try_send(ping(i)).is_ok());
    }
    for i in 0..5u8 {
        match q.try_recv() {
            Ok(NetworkEvent::Ping(p)) => assert_eq!(p.peer.bytes, vec![i]),
            _ => panic!("expected ping {i}"),
        }
    }
    assert_eq!(q.try_recv().err(), Some(RecvError::Empty));
}

#[test]
fn closed_event_queue_reports_disconnected() {
    let mut q = EventQueue::new(4);
    assert!(q.try_send(ping(1)).is_ok());
    q.close();
    assert!(matches!(q.try_send(ping(2)), Err(SendError::Disconnected(_))));
    assert!(q.try_recv().is_ok());
    assert_eq!(q.try_recv().err(), Some(RecvError::Disconnected));
}

#[test]
fn request_dial_of_invalid_text_queues_nothing() {
    let mut q = CommandQueue::new(2);
    assert_eq!(request_dial(&mut q, "garbage"), Err(RequestError::InvalidAddress));
    assert_eq!(q.try_recv().err(), Some(RecvError::Empty));
}

#[test]
fn request_dial_reports_full_and_disconnected() {
    let mut q = CommandQueue::new(1);
    assert_eq!(request_dial(&mut q, "/ip4/1.2.3.4/tcp/1"), Ok(()));
    assert_eq!(request_dial(&mut q, "/ip4/1.2.3.4/tcp/2"), Err(RequestError::Full));
    match q.try_recv() {
        Ok(NetworkCommand::Dial(a)) => assert_eq!(a.bytes, vec![4, 1, 2, 3, 4, 6, 0, 1]),
        _ => panic!("expected the first dial"),
    }
    q.close();
    assert_eq!(request_dial(&mut q, "/ip4/1.2.3.4/tcp/3"), Err(RequestError::Disconnected));
}
