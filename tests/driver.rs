use metaphy_network::address::{Address, Endpoint, PeerKey};
use metaphy_network::command::NetworkCommand;
use metaphy_network::driver::{Action, Delivery, LoopInput, NodeDriver, Notice, SwarmSignal};
use metaphy_network::event::{MdnsEvent, Module, NetworkEvent, PingEvent};
use metaphy_network::policy::DialPolicy;

fn discovered(pairs: &[(u8, u8)]) -> NetworkEvent {
    NetworkEvent::Mdns(MdnsEvent::Discovered(
        pairs
            .iter()
            .map(|&(p, a)| Endpoint { peer: PeerKey::new(vec![p]), addr: Address::new(vec![4, a]) })
            .collect(),
    ))
}

fn ping() -> NetworkEvent {
    NetworkEvent::Ping(PingEvent { peer: PeerKey::new(vec![7]), rtt_micros: None })
}

#[test]
fn automatic_driver_dials_then_forwards_discovery() {
    let mut d = NodeDriver::new(DialPolicy::Automatic);
    let acts = d.step(LoopInput::Swarm(SwarmSignal::Behaviour(discovered(&[(1, 1), (1, 1), (2, 2)]))));
    assert_eq!(acts.len(), 3);
    assert!(matches!(&acts[0], Action::Execute(NetworkCommand::Dial(a)) if a.bytes == vec![4, 1]));
    assert!(matches!(&acts[1], Action::Execute(NetworkCommand::Dial(a)) if a.bytes == vec![4, 2]));
    assert!(matches!(&acts[2], Action::Forward(e) if e.module() == Module::Discovery));
}

#[test]
fn manual_driver_only_forwards_discovery() {
    let mut d = NodeDriver::new(DialPolicy::Manual);
    let acts = d.step(LoopInput::Swarm(SwarmSignal::Behaviour(discovered(&[(1, 1)]))));
    assert_eq!(acts.len(), 1);
    assert!(matches!(&acts[0], Action::Forward(_)));
}

#[test]
fn receiver_gone_stops_forwarding_but_keeps_running() {
    let mut d = NodeDriver::new(DialPolicy::Automatic);
    let acts = d.step(LoopInput::Delivery(Delivery::ReceiverGone));
    assert!(matches!(&acts[..], [Action::Report(Notice::EventsClosed)]));
    let acts = d.step(LoopInput::Swarm(SwarmSignal::Behaviour(ping())));
    assert!(matches!(&acts[..], [Action::Report(Notice::EventDropped)]));
    assert!(d.running);
    assert!(!d.forwarding);
    let acts = d.step(LoopInput::Command(Some(NetworkCommand::Dial(Address::new(vec![4, 3])))));
    assert!(matches!(&acts[..], [Action::Execute(_)]));
}

#[test]
fn dial_failure_becomes_one_event() {
    let mut d = NodeDriver::new(DialPolicy::Automatic);
    let acts = d.step(LoopInput::Swarm(SwarmSignal::OutgoingConnectionError {
        peer: None,
        addresses: vec![Address::new(vec![4, 9])],
    }));
    assert_eq!(acts.len(), 1);
    match &acts[0] {
        Action::Forward(NetworkEvent::DialFailed { addresses, .. }) => assert_eq!(addresses[0].bytes, vec![4, 9]),
        _ => panic!("expected a dial failure"),
    }
    let acts = d.step(LoopInput::Swarm(SwarmSignal::Behaviour(ping())));
    assert!(matches!(&acts[..], [Action::Forward(_)]));
}

#[test]
fn closed_commands_are_reported_once_and_loop_goes_on() {
    let mut d = NodeDriver::new(DialPolicy::Manual);
    let acts = d.step(LoopInput::Command(None));
    assert!(matches!(&acts[..], [Action::Report(Notice::CommandsClosed)]));
    assert!(!d.commands_open);
    assert!(d.running);
}

#[test]
fn shutdown_halts_and_silences() {
    let mut d = NodeDriver::new(DialPolicy::Automatic);
    let acts = d.step(LoopInput::Shutdown);
    assert!(matches!(&acts[..], [Action::Halt]));
    assert!(d.step(LoopInput::Swarm(SwarmSignal::Behaviour(ping()))).is_empty());
    assert!(d.step(LoopInput::Command(Some(NetworkCommand::Dial(Address::new(vec![4, 1]))))).is_empty());
}

#[test]
fn other_signals_are_reported() {
    let mut d = NodeDriver::new(DialPolicy::Automatic);
    let acts = d.step(LoopInput::Swarm(SwarmSignal::ConnectionEstablished(PeerKey::new(vec![5]))));
    assert!(matches!(&acts[..], [Action::Report(Notice::Connected(p))] if p.bytes == vec![5]));
    let acts = d.step(LoopInput::Swarm(SwarmSignal::Other));
    assert!(matches!(&acts[..], [Action::Report(Notice::Unhandled)]));
    assert!(d.step(LoopInput::Delivery(Delivery::Delivered)).is_empty());
}

#[test]
fn discovery_report_is_offered_and_others_are_not() {
    match discovered(&[(3, 30), (4, 40)]).into_discovered() {
        Some(found) => {
            assert_eq!(found.len(), 2);
            assert_eq!(found[1].peer.bytes, vec![4]);
            assert_eq!(found[1].addr.bytes, vec![4, 40]);
        }
        None => panic!("discovery not offered"),
    }
    assert!(ping().into_discovered().is_none());
}

#[test]
fn events_name_their_module() {
    assert_eq!(ping().module(), Module::Liveness);
    let failed = NetworkEvent::DialFailed { peer: None, addresses: Vec::new() };
    assert_eq!(failed.module(), Module::Dialer);
}
