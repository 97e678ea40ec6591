use vstd::prelude::*;
use crossbeam::channel::{Receiver, RecvError, SendError, Sender};
use crate::event::{Closed, LogItem};

verus! {

#[verifier::external_type_specification]
#[verifier::external_body]
#[verifier::reject_recursive_types(T)]
pub struct ExSender<T>(Sender<T>);

#[verifier::external_type_specification]
#[verifier::external_body]
#[verifier::reject_recursive_types(T)]
pub struct ExReceiver<T>(Receiver<T>);

#[verifier::external_type_specification]
#[verifier::external_body]
#[verifier::reject_recursive_types(T)]
pub struct ExSendError<T>(SendError<T>);

#[verifier::external_type_specification]
#[verifier::external_body]
pub struct ExRecvError(RecvError);

/// The bound that the channel behind a producer handle was made with
/// (`None` for an unbounded channel). It is fixed when the channel is made.
pub uninterp spec fn sender_bound(s: Sender<LogItem>) -> Option<usize>;

/// The bound that the channel behind a consumer handle was made with.
pub uninterp spec fn receiver_bound(r: Receiver<LogItem>) -> Option<usize>;

/// Two producer handles send into the same channel, as
/// `crossbeam_channel::Sender::same_channel` reports it.
pub uninterp spec fn same_sender_channel(a: Sender<LogItem>, b: Sender<LogItem>) -> bool;

/// Two consumer handles receive from the same channel, as
/// `crossbeam_channel::Receiver::same_channel` reports it.
pub uninterp spec fn same_receiver_channel(a: Receiver<LogItem>, b: Receiver<LogItem>) -> bool;

/// A producer handle and a consumer handle are the two ends of one channel:
/// what is sent through the one is received through the other.
pub uninterp spec fn ends_of_one_channel(s: Sender<LogItem>, r: Receiver<LogItem>) -> bool;

/// The largest capacity accepted. The channel allocates one slot per event
/// up front, so this is a bound on memory.
pub const MAX_CAPACITY: usize = 0x1000_0000;

/// Capacity of the collector made by `LogChannel::new`.
pub const DEFAULT_CAPACITY: usize = 40;

/// Relies on crossbeam_channel::bounded: for a positive capacity it makes an
/// array channel whose two ends report `Some(cap)` as their capacity.
#[verifier::external_body]
fn bounded_pair(cap: usize) -> (r: (Sender<LogItem>, Receiver<LogItem>))
    requires
        0 < cap <= MAX_CAPACITY,
    ensures
        sender_bound(r.0) == Some(cap),
        receiver_bound(r.1) == Some(cap),
        ends_of_one_channel(r.0, r.1),
{
    crossbeam::channel::bounded(cap)
}

/// Relies on `Clone for crossbeam_channel::Sender`: a new handle to the same
/// channel.
#[verifier::external_body]
fn clone_sender(s: &Sender<LogItem>) -> (r: Sender<LogItem>)
    ensures
        sender_bound(r) == sender_bound(*s),
        same_sender_channel(r, *s),
        forall|c: Receiver<LogItem>| ends_of_one_channel(*s, c) ==> #[trigger] ends_of_one_channel(r, c),
{
    s.clone()
}

/// Relies on `Clone for crossbeam_channel::Receiver`: a new handle to the same
/// channel.
#[verifier::external_body]
fn clone_receiver(c: &Receiver<LogItem>) -> (r: Receiver<LogItem>)
    ensures
        receiver_bound(r) == receiver_bound(*c),
        same_receiver_channel(r, *c),
        forall|p: Sender<LogItem>| ends_of_one_channel(p, *c) ==> #[trigger] ends_of_one_channel(p, r),
{
    c.clone()
}

/// Relies on crossbeam_channel::Sender::capacity, which reports the bound the
/// channel was made with.
#[verifier::external_body]
fn sender_capacity(s: &Sender<LogItem>) -> (r: Option<usize>)
    ensures
        r == sender_bound(*s),
{
    s.capacity()
}

/// Relies on crossbeam_channel::Sender::len: the array channel computes the
/// count from two slot indices below its capacity, so it never exceeds it.
#[verifier::external_body]
fn sender_len(s: &Sender<LogItem>) -> (r: usize)
    ensures
        sender_bound(*s) matches Some(c) ==> r <= c,
{
    s.len()
}

/// Relies on crossbeam_channel::Sender::send: blocks while the channel is
/// full, fails once every receiver is gone. What comes back depends on the
/// other threads, so nothing is stated of it.
#[verifier::external_body]
fn send_blocking(s: &Sender<LogItem>, item: LogItem) -> (r: Result<(), SendError<LogItem>>)
{
    s.send(item)
}

/// Relies on crossbeam_channel::Receiver::recv: blocks while the channel is
/// empty, fails once it is empty and every sender is gone. What comes back
/// depends on the other threads, so nothing is stated of it.
#[verifier::external_body]
fn recv_blocking(c: &Receiver<LogItem>) -> (r: Result<LogItem, RecvError>)
{
    c.recv()
}

/// Relies on std::time::SystemTime::duration_since against the Unix epoch:
/// `None` when the clock reads a time before it.
#[verifier::external_body]
pub(crate) fn unix_seconds() -> (r: Option<u64>)
{
    match std::time::SystemTime::now().duration_since(std::time::UNIX_EPOCH) {
        Ok(d) => Some(d.as_secs()),
        Err(_) => None,
    }
}

/// A send result in the library's terms.
pub fn send_outcome(r: Result<(), SendError<LogItem>>) -> (o: Result<(), Closed>)
    ensures
        o is Ok <==> r is Ok,
{
    match r {
        Ok(()) => Ok(()),
        Err(_) => Err(Closed),
    }
}

/// A receive result in the library's terms.
pub fn recv_outcome(r: Result<LogItem, RecvError>) -> (o: Result<LogItem, Closed>)
    ensures
        match r {
            Ok(item) => o == Ok::<LogItem, Closed>(item),
            Err(_) => o == Err::<LogItem, Closed>(Closed),
        },
{
    match r {
        Ok(item) => Ok(item),
        Err(_) => Err(Closed),
    }
}

/// A bounded collector of log events with shareable producer and consumer
/// handles. Handles cloned from one collector share its buffer: consumers
/// that read at the same time split the events between them.
///
/// There is no separate close operation: dropping the collector and every
/// handle of one side closes it. Once every producer handle is gone, receives
/// drain what is left and then fail with `Closed`; once every consumer handle
/// is gone, sends fail with `Closed`. For a graceful shutdown, drop the
/// producer handles first.
#[derive(Debug)]
pub struct LogChannel {
    pub producer: Sender<LogItem>,
    pub consumer: Receiver<LogItem>,
    pub name: String,
}

impl LogChannel {
    /// Both ends belong to one channel with a positive bound.
    pub open spec fn wf(&self) -> bool {
        &&& sender_bound(self.producer) matches Some(c) && c > 0
        &&& receiver_bound(self.consumer) == sender_bound(self.producer)
        &&& ends_of_one_channel(self.producer, self.consumer)
    }

    /// The bound of the collector's buffer.
    pub open spec fn bound(&self) -> usize {
        match sender_bound(self.producer) {
            Some(c) => c,
            None => 0,
        }
    }

    /// A collector named `name` that holds at most `DEFAULT_CAPACITY` events.
    pub fn new(name: &str) -> (r: LogChannel)
        ensures
            r.wf(),
            r.bound() == DEFAULT_CAPACITY,
            r.name@ == name@,
    {
        LogChannel::with_capacity(name, DEFAULT_CAPACITY)
    }

    /// A collector named `name` that holds at most `capacity` events.
    pub fn with_capacity(name: &str, capacity: usize) -> (r: LogChannel)
        requires
            0 < capacity <= MAX_CAPACITY,
        ensures
            r.wf(),
            r.bound() == capacity,
            r.name@ == name@,
    {
        let (producer, consumer) = bounded_pair(capacity);
        LogChannel { producer, consumer, name: String::from_str(name) }
    }

    /// A new producer handle on this collector.
    pub fn get_producer(&self) -> (r: Sender<LogItem>)
        ensures
            sender_bound(r) == sender_bound(self.producer),
            same_sender_channel(r, self.producer),
            forall|c: Receiver<LogItem>| ends_of_one_channel(self.producer, c) ==> #[trigger] ends_of_one_channel(r, c),
            self.wf() ==> ends_of_one_channel(r, self.consumer),
    {
        clone_sender(&self.producer)
    }

    /// A new consumer handle on this collector.
    pub fn get_consumer(&self) -> (r: Receiver<LogItem>)
        ensures
            receiver_bound(r) == receiver_bound(self.consumer),
            same_receiver_channel(r, self.consumer),
            forall|p: Sender<LogItem>| ends_of_one_channel(p, self.consumer) ==> #[trigger] ends_of_one_channel(p, r),
            self.wf() ==> ends_of_one_channel(self.producer, r),
    {
        clone_receiver(&self.consumer)
    }

    /// Another consumer handle on the collector behind `consumer`.
    pub fn get_consumer_of(consumer: &Receiver<LogItem>) -> (r: Receiver<LogItem>)
        ensures
            receiver_bound(r) == receiver_bound(*consumer),
            same_receiver_channel(r, *consumer),
            forall|p: Sender<LogItem>| ends_of_one_channel(p, *consumer) ==> #[trigger] ends_of_one_channel(p, r),
    {
        clone_receiver(consumer)
    }

    /// The bound of the buffer.
    pub fn capacity(&self) -> (r: usize)
        requires
            self.wf(),
        ensures
            r == self.bound(),
            r > 0,
    {
        match sender_capacity(&self.producer) {
            Some(c) => c,
            None => 0,
        }
    }

    /// How many events wait in the buffer at this moment; never more than its
    /// bound.
    pub fn pending(&self) -> (r: usize)
        requires
            self.wf(),
        ensures
            r <= self.bound(),
    {
        sender_len(&self.producer)
    }

    /// Enqueues `item`, waiting while the buffer is full. Fails with `Closed`
    /// once every consumer handle is released; the event is then dropped.
    pub fn send(producer: &Sender<LogItem>, item: LogItem) -> (r: Result<(), Closed>)
    {
        send_outcome(send_blocking(producer, item))
    }

    /// Takes the oldest event, waiting while the buffer is empty. Fails with
    /// `Closed` once the buffer is empty and every producer handle is released.
    pub fn receive(consumer: &Receiver<LogItem>) -> (r: Result<LogItem, Closed>)
    {
        recv_outcome(recv_blocking(consumer))
    }

    /// The event that `log_line` sends for `line` at `timestamp`.
    pub fn line_event(line: &str, timestamp: u64) -> (r: LogItem)
        ensures
            r.channel@ == UNKNOWN_CHANNEL@,
            r.line@ == line@,
            r.timestamp == timestamp,
    {
        LogItem::new(UNKNOWN_CHANNEL, line, timestamp)
    }

    /// Sends `line` on the unattributed channel, stamped with the current time
    /// (0 when the clock reads before the epoch). A closed collector loses the
    /// line without failing the caller.
    pub fn log_line(producer: Sender<LogItem>, line: &str) {
        let timestamp = match unix_seconds() {
            Some(t) => t,
            None => 0,
        };
        let _ = LogChannel::send(&producer, LogChannel::line_event(line, timestamp));
    }

    /// The next event, or `None` once the collector is closed and drained.
    pub fn consume_line(consumer: Receiver<LogItem>) -> (r: Option<LogItem>)
    {
        LogChannel::consume_outcome(LogChannel::receive(&consumer))
    }

    /// What `consume_line` makes of a receive: the event itself, or `None`
    /// for a closed collector.
    pub fn consume_outcome(r: Result<LogItem, Closed>) -> (o: Option<LogItem>)
        ensures
            match r {
                Ok(item) => o == Some(item),
                Err(_) => o is None,
            },
    {
        match r {
            Ok(item) => Some(item),
            Err(_) => None,
        }
    }
}

/// Channel name of lines sent with `LogChannel::log_line`.
pub const UNKNOWN_CHANNEL: &'static str = "unknown";

} // verus!
