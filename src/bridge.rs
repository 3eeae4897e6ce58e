use vstd::prelude::*;
use crate::address::{multiaddr_encoding, starts_at_root};
use crate::command::{dial_command, NetworkCommand};
use crate::event::NetworkEvent;

verus! {

/// The largest capacity a queue can be made with.
pub const MAX_QUEUE_CAPACITY: usize = 0x1FFF_FFFF;

/// A value that a queue did not take, handed back.
pub enum SendError<T> {
    /// The queue holds as many values as its capacity.
    Full(T),
    /// The receiving side is closed.
    Disconnected(T),
}

/// Why nothing was received.
#[derive(Debug, Clone, Copy, PartialEq, Eq, Structural)]
pub enum RecvError {
    /// Nothing is queued, and more may come.
    Empty,
    /// Nothing is queued, and nothing more will come.
    Disconnected,
}

/// The state of a bounded queue: the values waiting, in order, its capacity,
/// and whether its receiving side still accepts values.
pub struct QueueState<T> {
    pub pending: Seq<T>,
    pub capacity: nat,
    pub open: bool,
}

/// A new queue of the given capacity.
pub open spec fn fresh_queue<T>(capacity: nat) -> QueueState<T> {
    QueueState { pending: Seq::empty(), capacity, open: true }
}

/// What a non-blocking send of `x` returns.
pub open spec fn send_result<T>(q: QueueState<T>, x: T) -> Result<(), SendError<T>> {
    if !q.open {
        Err(SendError::Disconnected(x))
    } else if q.pending.len() >= q.capacity {
        Err(SendError::Full(x))
    } else {
        Ok(())
    }
}

/// The queue after a non-blocking send of `x`.
pub open spec fn after_send<T>(q: QueueState<T>, x: T) -> QueueState<T> {
    if send_result(q, x) is Ok {
        QueueState { pending: q.pending.push(x), ..q }
    } else {
        q
    }
}

/// What a non-blocking receive returns.
pub open spec fn recv_result<T>(q: QueueState<T>) -> Result<T, RecvError> {
    if q.pending.len() > 0 {
        Ok(q.pending[0])
    } else if q.open {
        Err(RecvError::Empty)
    } else {
        Err(RecvError::Disconnected)
    }
}

/// The queue after a non-blocking receive.
pub open spec fn after_recv<T>(q: QueueState<T>) -> QueueState<T> {
    if q.pending.len() > 0 {
        QueueState { pending: q.pending.drop_first(), ..q }
    } else {
        q
    }
}

/// The queue after its receiving side is closed: what is queued stays.
pub open spec fn after_close<T>(q: QueueState<T>) -> QueueState<T> {
    QueueState { open: false, ..q }
}

/// The queue after sending each of `xs` in turn.
pub open spec fn after_sends<T>(q: QueueState<T>, xs: Seq<T>) -> QueueState<T>
    decreases xs.len(),
{
    if xs.len() == 0 {
        q
    } else {
        after_send(after_sends(q, xs.drop_last()), xs.last())
    }
}

/// The values that `n` receives in a row return, in order (those that
/// return an error are left out).
pub open spec fn received<T>(q: QueueState<T>, n: nat) -> Seq<T>
    decreases n,
{
    if n == 0 {
        Seq::empty()
    } else {
        match recv_result(q) {
            Ok(x) => seq![x] + received(after_recv(q), (n - 1) as nat),
            Err(_) => Seq::empty(),
        }
    }
}

proof fn lemma_sends_fill<T>(capacity: nat, xs: Seq<T>)
    requires
        xs.len() <= capacity,
    ensures
        after_sends(fresh_queue::<T>(capacity), xs) == (QueueState { pending: xs, capacity, open: true }),
        forall|i: int| 0 <= i < xs.len() ==>
            #[trigger] send_result(after_sends(fresh_queue::<T>(capacity), xs.take(i)), xs[i]) is Ok,
    decreases xs.len(),
{
    if xs.len() > 0 {
        let p = xs.drop_last();
        lemma_sends_fill(capacity, p);
        assert(p.push(xs.last()) == xs);
        assert forall|i: int| 0 <= i < xs.len() implies
            #[trigger] send_result(after_sends(fresh_queue::<T>(capacity), xs.take(i)), xs[i]) is Ok by {
            if i < p.len() {
                assert(xs.take(i) == p.take(i));
                assert(xs[i] == p[i]);
            } else {
                assert(xs.take(i) == p);
            }
        }
    } else {
        assert(xs =~= Seq::<T>::empty());
    }
}

/// A queue of capacity `capacity` that nobody drains takes `capacity` values,
/// each send succeeding, and refuses the next one as full.
pub proof fn lemma_capacity_then_full<T>(capacity: nat, xs: Seq<T>, extra: T)
    requires
        xs.len() == capacity,
    ensures
        forall|i: int| 0 <= i < xs.len() ==>
            #[trigger] send_result(after_sends(fresh_queue::<T>(capacity), xs.take(i)), xs[i]) is Ok,
        send_result(after_sends(fresh_queue::<T>(capacity), xs), extra) == Err::<(), SendError<T>>(
            SendError::Full(extra),
        ),
{
    lemma_sends_fill(capacity, xs);
}

proof fn lemma_received_pending<T>(q: QueueState<T>)
    ensures
        received(q, q.pending.len()) == q.pending,
    decreases q.pending.len(),
{
    if q.pending.len() > 0 {
        lemma_received_pending(after_recv(q));
        assert(seq![q.pending[0]] + q.pending.drop_first() == q.pending);
    } else {
        assert(q.pending =~= Seq::<T>::empty());
    }
}

/// Values sent to a queue come out of it in the order they were sent.
pub proof fn lemma_order_kept<T>(capacity: nat, xs: Seq<T>)
    requires
        xs.len() <= capacity,
    ensures
        received(after_sends(fresh_queue::<T>(capacity), xs), xs.len()) == xs,
{
    lemma_sends_fill(capacity, xs);
    lemma_received_pending(after_sends(fresh_queue::<T>(capacity), xs));
}

/// Once the receiving side is closed, every send reports the queue
/// disconnected and leaves it as it was.
pub proof fn lemma_closed_refuses<T>(q: QueueState<T>, x: T)
    ensures
        send_result(after_close(q), x) == Err::<(), SendError<T>>(SendError::Disconnected(x)),
        after_send(after_close(q), x) == after_close(q),
{
}

/// The sending half of a tokio bounded channel.
#[verifier::external_type_specification]
#[verifier::external_body]
#[verifier::reject_recursive_types(T)]
pub struct ExSender<T>(tokio::sync::mpsc::Sender<T>);

/// The receiving half of a tokio bounded channel.
#[verifier::external_type_specification]
#[verifier::external_body]
#[verifier::reject_recursive_types(T)]
pub struct ExReceiver<T>(tokio::sync::mpsc::Receiver<T>);

/// The commands waiting in a queue, oldest first.
pub uninterp spec fn queued_commands(q: &CommandQueue) -> Seq<NetworkCommand>;

/// The capacity a command queue was made with.
pub uninterp spec fn command_capacity(q: &CommandQueue) -> nat;

/// Whether the receiving side of a command queue is open.
pub uninterp spec fn commands_open(q: &CommandQueue) -> bool;

/// A bounded queue of commands, both of its ends held together.
pub struct CommandQueue {
    tx: tokio::sync::mpsc::Sender<NetworkCommand>,
    rx: tokio::sync::mpsc::Receiver<NetworkCommand>,
}

/// Relies on `tokio::sync::mpsc::channel`: an empty, open channel with
/// `capacity` slots (it panics on 0 and above its permit limit).
#[verifier::external_body]
fn command_channel(capacity: usize) -> (r: CommandQueue)
    requires
        0 < capacity <= MAX_QUEUE_CAPACITY,
    ensures
        queued_commands(&r) == Seq::<NetworkCommand>::empty(),
        command_capacity(&r) == capacity as nat,
        commands_open(&r),
{
    let (tx, rx) = tokio::sync::mpsc::channel(capacity);
    CommandQueue { tx, rx }
}

/// Relies on `Sender::try_send`: refused with the value when the receiver
/// is closed, then when no slot is free; queued at the back otherwise.
#[verifier::external_body]
fn command_try_send(q: &mut CommandQueue, x: NetworkCommand) -> (r: Result<(), SendError<NetworkCommand>>)
    ensures
        r == send_result(old(q).state(), x),
        queued_commands(final(q)) == after_send(old(q).state(), x).pending,
        command_capacity(final(q)) == command_capacity(old(q)),
        commands_open(final(q)) == commands_open(old(q)),
{
    match q.tx.try_send(x) {
        Ok(()) => Ok(()),
        Err(tokio::sync::mpsc::error::TrySendError::Full(x)) => Err(SendError::Full(x)),
        Err(tokio::sync::mpsc::error::TrySendError::Closed(x)) => Err(SendError::Disconnected(x)),
    }
}

/// Relies on `Receiver::try_recv`: the oldest value while one is queued;
/// otherwise `Empty` while open and `Disconnected` once closed (the queue
/// holds its sender, so it closes only through `Receiver::close`).
#[verifier::external_body]
fn command_try_recv(q: &mut CommandQueue) -> (r: Result<NetworkCommand, RecvError>)
    ensures
        r == recv_result(old(q).state()),
        queued_commands(final(q)) == after_recv(old(q).state()).pending,
        command_capacity(final(q)) == command_capacity(old(q)),
        commands_open(final(q)) == commands_open(old(q)),
{
    match q.rx.try_recv() {
        Ok(x) => Ok(x),
        Err(tokio::sync::mpsc::error::TryRecvError::Empty) => Err(RecvError::Empty),
        Err(tokio::sync::mpsc::error::TryRecvError::Disconnected) => Err(RecvError::Disconnected),
    }
}

/// Relies on `Receiver::close`: no value is taken afterwards, and those
/// already queued can still be received.
#[verifier::external_body]
fn command_close(q: &mut CommandQueue)
    ensures
        queued_commands(final(q)) == queued_commands(old(q)),
        command_capacity(final(q)) == command_capacity(old(q)),
        !commands_open(final(q)),
{
    q.rx.close();
}

impl CommandQueue {
    pub open spec fn state(&self) -> QueueState<NetworkCommand> {
        QueueState {
            pending: queued_commands(self),
            capacity: command_capacity(self),
            open: commands_open(self),
        }
    }

    /// An empty, open queue with `capacity` slots.
    pub fn new(capacity: usize) -> (r: CommandQueue)
        requires
            0 < capacity <= MAX_QUEUE_CAPACITY,
        ensures
            r.state() == fresh_queue::<NetworkCommand>(capacity as nat),
    {
        command_channel(capacity)
    }

    /// Queues a value without waiting, or hands it back: as disconnected once
    /// the receiving side is closed, as full when every slot is taken.
    pub fn try_send(&mut self, x: NetworkCommand) -> (r: Result<(), SendError<NetworkCommand>>)
        ensures
            r == send_result(old(self).state(), x),
            final(self).state() == after_send(old(self).state(), x),
    {
        command_try_send(self, x)
    }

    /// Takes the oldest value without waiting; reports the queue empty, or
    /// disconnected once it is closed and drained.
    pub fn try_recv(&mut self) -> (r: Result<NetworkCommand, RecvError>)
        ensures
            r == recv_result(old(self).state()),
            final(self).state() == after_recv(old(self).state()),
    {
        command_try_recv(self)
    }

    /// Closes the receiving side; what is queued can still be received.
    pub fn close(&mut self)
        ensures
            final(self).state() == after_close(old(self).state()),
    {
        command_close(self)
    }
}

/// The events waiting in a queue, oldest first.
pub uninterp spec fn queued_events(q: &EventQueue) -> Seq<NetworkEvent>;

/// The capacity a event queue was made with.
pub uninterp spec fn event_capacity(q: &EventQueue) -> nat;

/// Whether the receiving side of a event queue is open.
pub uninterp spec fn events_open(q: &EventQueue) -> bool;

/// A bounded queue of events, both of its ends held together.
pub struct EventQueue {
    tx: tokio::sync::mpsc::Sender<NetworkEvent>,
    rx: tokio::sync::mpsc::Receiver<NetworkEvent>,
}

/// Relies on `tokio::sync::mpsc::channel`: an empty, open channel with
/// `capacity` slots (it panics on 0 and above its permit limit).
#[verifier::external_body]
fn event_channel(capacity: usize) -> (r: EventQueue)
    requires
        0 < capacity <= MAX_QUEUE_CAPACITY,
    ensures
        queued_events(&r) == Seq::<NetworkEvent>::empty(),
        event_capacity(&r) == capacity as nat,
        events_open(&r),
{
    let (tx, rx) = tokio::sync::mpsc::channel(capacity);
    EventQueue { tx, rx }
}

/// Relies on `Sender::try_send`: refused with the value when the receiver
/// is closed, then when no slot is free; queued at the back otherwise.
#[verifier::external_body]
fn event_try_send(q: &mut EventQueue, x: NetworkEvent) -> (r: Result<(), SendError<NetworkEvent>>)
    ensures
        r == send_result(old(q).state(), x),
        queued_events(final(q)) == after_send(old(q).state(), x).pending,
        event_capacity(final(q)) == event_capacity(old(q)),
        events_open(final(q)) == events_open(old(q)),
{
    match q.tx.try_send(x) {
        Ok(()) => Ok(()),
        Err(tokio::sync::mpsc::error::TrySendError::Full(x)) => Err(SendError::Full(x)),
        Err(tokio::sync::mpsc::error::TrySendError::Closed(x)) => Err(SendError::Disconnected(x)),
    }
}

/// Relies on `Receiver::try_recv`: the oldest value while one is queued;
/// otherwise `Empty` while open and `Disconnected` once closed (the queue
/// holds its sender, so it closes only through `Receiver::close`).
#[verifier::external_body]
fn event_try_recv(q: &mut EventQueue) -> (r: Result<NetworkEvent, RecvError>)
    ensures
        r == recv_result(old(q).state()),
        queued_events(final(q)) == after_recv(old(q).state()).pending,
        event_capacity(final(q)) == event_capacity(old(q)),
        events_open(final(q)) == events_open(old(q)),
{
    match q.rx.try_recv() {
        Ok(x) => Ok(x),
        Err(tokio::sync::mpsc::error::TryRecvError::Empty) => Err(RecvError::Empty),
        Err(tokio::sync::mpsc::error::TryRecvError::Disconnected) => Err(RecvError::Disconnected),
    }
}

/// Relies on `Receiver::close`: no value is taken afterwards, and those
/// already queued can still be received.
#[verifier::external_body]
fn event_close(q: &mut EventQueue)
    ensures
        queued_events(final(q)) == queued_events(old(q)),
        event_capacity(final(q)) == event_capacity(old(q)),
        !events_open(final(q)),
{
    q.rx.close();
}

impl EventQueue {
    pub open spec fn state(&self) -> QueueState<NetworkEvent> {
        QueueState {
            pending: queued_events(self),
            capacity: event_capacity(self),
            open: events_open(self),
        }
    }

    /// An empty, open queue with `capacity` slots.
    pub fn new(capacity: usize) -> (r: EventQueue)
        requires
            0 < capacity <= MAX_QUEUE_CAPACITY,
        ensures
            r.state() == fresh_queue::<NetworkEvent>(capacity as nat),
    {
        event_channel(capacity)
    }

    /// Queues a value without waiting, or hands it back: as disconnected once
    /// the receiving side is closed, as full when every slot is taken.
    pub fn try_send(&mut self, x: NetworkEvent) -> (r: Result<(), SendError<NetworkEvent>>)
        ensures
            r == send_result(old(self).state(), x),
            final(self).state() == after_send(old(self).state(), x),
    {
        event_try_send(self, x)
    }

    /// Takes the oldest value without waiting; reports the queue empty, or
    /// disconnected once it is closed and drained.
    pub fn try_recv(&mut self) -> (r: Result<NetworkEvent, RecvError>)
        ensures
            r == recv_result(old(self).state()),
            final(self).state() == after_recv(old(self).state()),
    {
        event_try_recv(self)
    }

    /// Closes the receiving side; what is queued can still be received.
    pub fn close(&mut self)
        ensures
            final(self).state() == after_close(old(self).state()),
    {
        event_close(self)
    }
}

/// Why a dial request was not queued.
#[derive(Debug, Clone, Copy, PartialEq, Eq, Structural)]
pub enum RequestError {
    /// The address text does not parse; nothing was queued.
    InvalidAddress,
    /// The command queue has no free slot.
    Full,
    /// The node no longer takes commands.
    Disconnected,
}

/// Queues a dial of the address written in `text`, without waiting. A text
/// that does not parse is refused at once and the queue is left as it was.
pub fn request_dial(queue: &mut CommandQueue, text: &str) -> (r: Result<(), RequestError>)
    ensures
        multiaddr_encoding(text@) is None ==> r == Err::<(), RequestError>(RequestError::InvalidAddress)
            && *final(queue) == *old(queue),
        !starts_at_root(text@) ==> r == Err::<(), RequestError>(RequestError::InvalidAddress),
        multiaddr_encoding(text@) is Some ==> exists|c: NetworkCommand| {
            &&& Some(c.target()) == multiaddr_encoding(text@)
            &&& final(queue).state() == after_send(old(queue).state(), c)
            &&& r == match send_result(old(queue).state(), c) {
                Ok(()) => Ok::<(), RequestError>(()),
                Err(SendError::Full(_)) => Err(RequestError::Full),
                Err(SendError::Disconnected(_)) => Err(RequestError::Disconnected),
            }
        },
{
    match dial_command(text) {
        Err(_) => Err(RequestError::InvalidAddress),
        Ok(c) => {
            let res = queue.try_send(c);
            match res {
                Ok(()) => Ok(()),
                Err(SendError::Full(_)) => Err(RequestError::Full),
                Err(SendError::Disconnected(_)) => Err(RequestError::Disconnected),
            }
        },
    }
}

} // verus!
