use vstd::prelude::*;
use crate::address::{Address, PeerKey};
use crate::command::NetworkCommand;
use crate::event::{MdnsEvent, NetworkEvent};
use crate::bridge::{after_close, send_result, QueueState, SendError};
use crate::policy::{dials_for, plan_dials, planned_pairs, DialPolicy};

verus! {

/// What the swarm reported to the event loop.
#[derive(Debug)]
pub enum SwarmSignal {
    /// An event of one of the protocol modules.
    Behaviour(NetworkEvent),
    ConnectionEstablished(PeerKey),
    /// An outbound connection attempt failed; the addresses that were tried.
    OutgoingConnectionError { peer: Option<PeerKey>, addresses: Vec<Address> },
    NewListenAddr(Address),
    /// Anything else the swarm reports.
    Other,
}

/// How handing an event to the host went.
#[derive(Debug, Clone, Copy, PartialEq, Eq, Structural)]
pub enum Delivery {
    Delivered,
    /// The host's receiving side is gone.
    ReceiverGone,
}

/// One thing that became ready for the event loop.
#[derive(Debug)]
pub enum LoopInput {
    Swarm(SwarmSignal),
    /// The next command, or `None` once every command sender is gone.
    Command(Option<NetworkCommand>),
    /// The outcome of the last `Forward`.
    Delivery(Delivery),
    /// The node is being torn down.
    Shutdown,
}

/// Something worth reporting that is not an event for the host.
#[derive(Debug)]
pub enum Notice {
    Connected(PeerKey),
    Listening(Address),
    Unhandled,
    /// Every command sender is gone; the node goes on as an event source.
    CommandsClosed,
    /// The host stopped receiving events; no more are forwarded.
    EventsClosed,
    /// An event came after the host stopped receiving and was not forwarded.
    EventDropped,
}

/// What the event loop does next.
#[derive(Debug)]
pub enum Action {
    /// Hand an event to the host, waiting for room in the event queue.
    Forward(NetworkEvent),
    /// Carry out a command against the swarm.
    Execute(NetworkCommand),
    Report(Notice),
    /// Stop the loop; queued commands are discarded.
    Halt,
}

/// The decisions of one node's event loop.
#[derive(Debug, Clone, Copy, PartialEq, Eq, Structural)]
pub struct NodeDriver {
    pub policy: DialPolicy,
    /// Whether events are still handed to the host.
    pub forwarding: bool,
    /// Whether commands may still arrive.
    pub commands_open: bool,
    pub running: bool,
}

/// The driver after one input.
pub open spec fn next_state(s: NodeDriver, input: LoopInput) -> NodeDriver {
    if !s.running {
        s
    } else {
        match input {
            LoopInput::Shutdown => NodeDriver { running: false, ..s },
            LoopInput::Delivery(Delivery::ReceiverGone) => NodeDriver { forwarding: false, ..s },
            LoopInput::Command(None) => NodeDriver { commands_open: false, ..s },
            _ => s,
        }
    }
}

/// What becomes of an event for the host: forwarded while forwarding,
/// otherwise reported as dropped.
pub open spec fn deliver(s: NodeDriver, e: NetworkEvent) -> Action {
    if s.forwarding {
        Action::Forward(e)
    } else {
        Action::Report(Notice::EventDropped)
    }
}

/// Whether `acts` are the actions the driver in state `s` takes for `input`.
pub open spec fn reaction(s: NodeDriver, input: LoopInput, acts: Seq<Action>) -> bool {
    if !s.running {
        acts.len() == 0
    } else {
        match input {
            LoopInput::Shutdown => acts == seq![Action::Halt],
            LoopInput::Swarm(SwarmSignal::Behaviour(e)) => {
                let planned = planned_pairs(s.policy, e.discovered());
                &&& acts.len() == planned.len() + 1
                &&& forall|i: int| 0 <= i < planned.len() ==> (#[trigger] acts[i] matches Action::Execute(c)
                    && c.target() == planned[i].1)
                &&& acts.last() == deliver(s, e)
            },
            LoopInput::Swarm(SwarmSignal::OutgoingConnectionError { peer, addresses }) => acts == seq![
                deliver(s, NetworkEvent::DialFailed { peer, addresses }),
            ],
            LoopInput::Swarm(SwarmSignal::ConnectionEstablished(p)) => acts == seq![
                Action::Report(Notice::Connected(p)),
            ],
            LoopInput::Swarm(SwarmSignal::NewListenAddr(a)) => acts == seq![
                Action::Report(Notice::Listening(a)),
            ],
            LoopInput::Swarm(SwarmSignal::Other) => acts == seq![Action::Report(Notice::Unhandled)],
            LoopInput::Command(Some(c)) => acts == seq![Action::Execute(c)],
            LoopInput::Command(None) => acts == seq![Action::Report(Notice::CommandsClosed)],
            LoopInput::Delivery(Delivery::Delivered) => acts.len() == 0,
            LoopInput::Delivery(Delivery::ReceiverGone) => if s.forwarding {
                acts == seq![Action::Report(Notice::EventsClosed)]
            } else {
                acts.len() == 0
            },
        }
    }
}

/// Moves each command into an `Execute` action, in order.
fn execute_all(cmds: Vec<NetworkCommand>) -> (r: Vec<Action>)
    ensures
        r@.len() == cmds@.len(),
        forall|i: int| 0 <= i < r@.len() ==> #[trigger] r@[i] == Action::Execute(cmds@[i]),
{
    let ghost orig = cmds@;
    let mut cmds = cmds;
    let mut r: Vec<Action> = Vec::new();
    while cmds.len() > 0
        invariant
            r@.len() + cmds@.len() == orig.len(),
            cmds@ == orig.subrange(r@.len() as int, orig.len() as int),
            forall|i: int| 0 <= i < r@.len() ==> #[trigger] r@[i] == Action::Execute(orig[i]),
        decreases cmds@.len(),
    {
        let c = cmds.remove(0);
        r.push(Action::Execute(c));
    }
    r
}

impl NodeDriver {
    /// A running driver that forwards events and takes commands.
    pub fn new(policy: DialPolicy) -> (r: NodeDriver)
        ensures
            r == (NodeDriver { policy, forwarding: true, commands_open: true, running: true }),
    {
        NodeDriver { policy, forwarding: true, commands_open: true, running: true }
    }

    fn deliver_event(&self, e: NetworkEvent) -> (r: Action)
        ensures
            r == deliver(*self, e),
    {
        if self.forwarding {
            Action::Forward(e)
        } else {
            Action::Report(Notice::EventDropped)
        }
    }

    /// Decides what to do with one ready input. Under the automatic policy a
    /// discovery event first dials each newly found pair once; a failed dial
    /// becomes one event for the host; after the host's receiver is gone no
    /// event is forwarded; after shutdown nothing is done.
    pub fn step(&mut self, input: LoopInput) -> (r: Vec<Action>)
        ensures
            *final(self) == next_state(*old(self), input),
            reaction(*old(self), input, r@),
    {
        let mut r: Vec<Action> = Vec::new();
        if !self.running {
            return r;
        }
        match input {
            LoopInput::Shutdown => {
                self.running = false;
                r.push(Action::Halt);
            },
            LoopInput::Swarm(SwarmSignal::Behaviour(e)) => {
                let cmds = match &e {
                    NetworkEvent::Mdns(MdnsEvent::Discovered(found)) => plan_dials(self.policy, found),
                    _ => Vec::new(),
                };
                let ghost planned = planned_pairs(self.policy, e.discovered());
                assert(dials_for(cmds@, planned));
                r = execute_all(cmds);
                let last = self.deliver_event(e);
                let ghost before = r@;
                r.push(last);
                assert forall|i: int| 0 <= i < planned.len() implies (#[trigger] r@[i] matches Action::Execute(c)
                    && c.target() == planned[i].1) by {
                    assert(r@[i] == before[i]);
                    assert(cmds@[i].target() == planned[i].1);
                }
            },
            LoopInput::Swarm(SwarmSignal::OutgoingConnectionError { peer, addresses }) => {
                r.push(self.deliver_event(NetworkEvent::DialFailed { peer, addresses }));
            },
            LoopInput::Swarm(SwarmSignal::ConnectionEstablished(p)) => {
                r.push(Action::Report(Notice::Connected(p)));
            },
            LoopInput::Swarm(SwarmSignal::NewListenAddr(a)) => {
                r.push(Action::Report(Notice::Listening(a)));
            },
            LoopInput::Swarm(SwarmSignal::Other) => {
                r.push(Action::Report(Notice::Unhandled));
            },
            LoopInput::Command(Some(c)) => {
                r.push(Action::Execute(c));
            },
            LoopInput::Command(None) => {
                self.commands_open = false;
                r.push(Action::Report(Notice::CommandsClosed));
            },
            LoopInput::Delivery(Delivery::Delivered) => {},
            LoopInput::Delivery(Delivery::ReceiverGone) => {
                if self.forwarding {
                    self.forwarding = false;
                    r.push(Action::Report(Notice::EventsClosed));
                }
            },
        }
        r
    }
}

/// Once the host's receiver is gone the node keeps running: a later protocol
/// event is not forwarded, and a send on the closed event queue reports it
/// disconnected.
pub proof fn lemma_receiver_gone_keeps_running(
    s: NodeDriver,
    e: NetworkEvent,
    acts: Seq<Action>,
    q: QueueState<NetworkEvent>,
)
    requires
        s.running,
        reaction(
            next_state(s, LoopInput::Delivery(Delivery::ReceiverGone)),
            LoopInput::Swarm(SwarmSignal::Behaviour(e)),
            acts,
        ),
    ensures
        next_state(
            next_state(s, LoopInput::Delivery(Delivery::ReceiverGone)),
            LoopInput::Swarm(SwarmSignal::Behaviour(e)),
        ).running,
        forall|i: int| 0 <= i < acts.len() ==> !(#[trigger] acts[i] is Forward),
        send_result(after_close(q), e) == Err::<(), SendError<NetworkEvent>>(SendError::Disconnected(e)),
{
    let s1 = next_state(s, LoopInput::Delivery(Delivery::ReceiverGone));
    let planned = planned_pairs(s1.policy, e.discovered());
    assert forall|i: int| 0 <= i < acts.len() implies !(#[trigger] acts[i] is Forward) by {
        if i < planned.len() {
            assert(acts[i] is Execute);
        } else {
            assert(acts[i] == acts.last());
        }
    }
}

/// A failed dial gives exactly one action, which hands the host one
/// dial-failure event naming every address tried, and leaves the driver as it
/// was, able to go on.
pub proof fn lemma_dial_failure_once(
    s: NodeDriver,
    peer: Option<PeerKey>,
    addresses: Vec<Address>,
    acts: Seq<Action>,
)
    requires
        s.running,
        s.forwarding,
        reaction(s, LoopInput::Swarm(SwarmSignal::OutgoingConnectionError { peer, addresses }), acts),
    ensures
        acts.len() == 1,
        acts[0] matches Action::Forward(ev) && forall|i: int| 0 <= i < addresses@.len() ==>
            ev.is_dial_failure_for(#[trigger] addresses@[i]@),
        next_state(s, LoopInput::Swarm(SwarmSignal::OutgoingConnectionError { peer, addresses })) == s,
{
    let ev = NetworkEvent::DialFailed { peer, addresses };
    assert(acts[0] == Action::Forward(ev));
    assert forall|i: int| 0 <= i < addresses@.len() implies ev.is_dial_failure_for(
        #[trigger] addresses@[i]@,
    ) by {
        let tried = ev->DialFailed_addresses;
        assert(tried == addresses);
        assert(0 <= i < tried@.len() && tried@[i]@ == addresses@[i]@);
    }
}

/// After shutdown the driver does nothing for any input: no event is
/// produced and queued commands are discarded without effect.
pub proof fn lemma_shutdown_is_final(s: NodeDriver, input: LoopInput, acts: Seq<Action>)
    requires
        reaction(next_state(s, LoopInput::Shutdown), input, acts),
    ensures
        !next_state(s, LoopInput::Shutdown).running,
        acts.len() == 0,
        next_state(next_state(s, LoopInput::Shutdown), input) == next_state(s, LoopInput::Shutdown),
{
}

} // verus!
