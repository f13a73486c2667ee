//! The decisions of the two event loops. The acceptor loop waits on the
//! listening socket and hands each accepted connection to a randomly chosen
//! worker; each worker loop waits on its own epoll instance and reads,
//! reports or drops the connections registered with it.

use vstd::prelude::*;
use crate::socket::OsError;
use crate::socket::epoll::{EPOLL_ET, EPOLL_IN, EPOLL_RDHUP, monitor_mask, registration_of};
use crate::socket::sys::{random_index, Kernel, SysCall};

verus! {

/// What an event on a worker's connection means.
#[derive(Clone, Copy, Debug, PartialEq, Eq, Structural)]
pub enum EventKind {
    /// Exactly `EPOLLIN`: a packet is waiting.
    Readable,
    /// Exactly `EPOLLRDHUP | EPOLLIN`: the peer hung up.
    PeerClosed,
    /// Any other combination of events.
    Other,
}

/// The kind of an event mask; only the two exact masks a worker expects are
/// told apart.
pub open spec fn kind_of(mask: u32) -> EventKind {
    if mask == EPOLL_IN {
        EventKind::Readable
    } else if mask == (EPOLL_RDHUP | EPOLL_IN) {
        EventKind::PeerClosed
    } else {
        EventKind::Other
    }
}

/// Classifies the event mask reported for a connection.
pub fn classify_event(mask: u32) -> (kind: EventKind)
    ensures
        kind == kind_of(mask),
{
    if mask == EPOLL_IN {
        EventKind::Readable
    } else if mask == EPOLL_RDHUP | EPOLL_IN {
        EventKind::PeerClosed
    } else {
        EventKind::Other
    }
}

/// What a worker does with an event whose mask it does not expect.
#[derive(Clone, Copy, Debug, PartialEq, Eq, Structural)]
pub enum UnexpectedEventPolicy {
    /// Report the event and keep the connection.
    Report,
    /// Report the event, then deregister and close the connection.
    Drop,
}

/// What a worker does for one event of its epoll instance.
#[derive(Clone, Copy, Debug, PartialEq, Eq, Structural)]
pub enum WorkerAction {
    /// Read a packet from `fd`.
    Receive { fd: i32 },
    /// Report that the peer of `fd` left, deregister and close `fd`.
    Disconnect { fd: i32 },
    /// Report the unexpected `mask` seen on `fd`; with `drop`, deregister
    /// and close `fd` too.
    Unexpected { fd: i32, mask: u32, drop: bool },
}

/// The descriptor an event's data word names (the low 32 bits, as
/// registered by `registration_request`).
pub open spec fn event_fd(data: u64) -> i32 {
    data as i32
}

/// The worker's decision for the event `(data, mask)`.
pub open spec fn worker_action_of(data: u64, mask: u32, policy: UnexpectedEventPolicy) -> WorkerAction {
    let fd = event_fd(data);
    match kind_of(mask) {
        EventKind::Readable => WorkerAction::Receive { fd },
        EventKind::PeerClosed => WorkerAction::Disconnect { fd },
        EventKind::Other => WorkerAction::Unexpected {
            fd,
            mask,
            drop: policy == UnexpectedEventPolicy::Drop,
        },
    }
}

/// Decides what a worker does for the event with data word `data` and event
/// mask `mask`.
pub fn worker_action(data: u64, mask: u32, policy: UnexpectedEventPolicy) -> (action: WorkerAction)
    ensures
        action == worker_action_of(data, mask, policy),
        mask == EPOLL_IN ==> action == (WorkerAction::Receive { fd: data as i32 }),
        mask == (EPOLL_RDHUP | EPOLL_IN) ==> action == (WorkerAction::Disconnect { fd: data as i32 }),
        mask != EPOLL_IN && mask != (EPOLL_RDHUP | EPOLL_IN) ==> action == (WorkerAction::Unexpected {
            fd: data as i32,
            mask,
            drop: policy == UnexpectedEventPolicy::Drop,
        }),
{
    proof {
        assert(EPOLL_IN != (EPOLL_RDHUP | EPOLL_IN)) by (bit_vector);
    }
    #[verifier::truncate]
    let fd = data as i32;
    match classify_event(mask) {
        EventKind::Readable => WorkerAction::Receive { fd },
        EventKind::PeerClosed => WorkerAction::Disconnect { fd },
        EventKind::Other => WorkerAction::Unexpected {
            fd,
            mask,
            drop: match policy {
                UnexpectedEventPolicy::Report => false,
                UnexpectedEventPolicy::Drop => true,
            },
        },
    }
}

/// What a worker reports after reading from a connection.
#[derive(Clone, Copy, Debug, PartialEq, Eq, Structural)]
pub enum ReadReport {
    /// `len` bytes arrived: report the packet.
    Packet { len: usize },
    /// Nothing arrived: report nothing.
    Nothing,
    /// The read failed: report the error.
    Failed { error: OsError },
}

/// The report for the outcome of a read.
pub open spec fn read_report_of(outcome: Result<usize, OsError>) -> ReadReport {
    match outcome {
        Ok(len) => if len > 0 {
            ReadReport::Packet { len }
        } else {
            ReadReport::Nothing
        },
        Err(error) => ReadReport::Failed { error },
    }
}

/// Decides what to report for the outcome of a read from a connection.
pub fn read_report(outcome: Result<usize, OsError>) -> (report: ReadReport)
    ensures
        report == read_report_of(outcome),
        outcome matches Ok(len) ==> (len > 0 ==> report == (ReadReport::Packet { len })),
        outcome matches Ok(len) ==> (len == 0 ==> report == ReadReport::Nothing),
        outcome matches Err(error) ==> report == (ReadReport::Failed { error }),
{
    match outcome {
        Ok(len) => if len > 0 {
            ReadReport::Packet { len }
        } else {
            ReadReport::Nothing
        },
        Err(error) => ReadReport::Failed { error },
    }
}

/// The acceptor's state: the listening socket and the epoll instances of
/// the workers, at least one.
pub struct Acceptor {
    listener: i32,
    workers: Vec<i32>,
}

impl Acceptor {
    #[verifier::type_invariant]
    spec fn has_workers(self) -> bool {
        self.workers.len() > 0
    }

    /// The listening socket.
    pub closed spec fn listener_fd(self) -> i32 {
        self.listener
    }

    /// The epoll instances of the workers, in order.
    pub closed spec fn worker_fds(self) -> Seq<i32> {
        self.workers@
    }

    /// An acceptor for `listener` that hands connections to `workers`.
    pub fn new(listener: i32, workers: Vec<i32>) -> (acceptor: Self)
        requires
            workers.len() > 0,
        ensures
            acceptor.listener_fd() == listener,
            acceptor.worker_fds() == workers@,
    {
        Acceptor { listener, workers }
    }

    /// The listening socket.
    pub fn listener(&self) -> (fd: i32)
        ensures
            fd == self.listener_fd(),
    {
        self.listener
    }

    /// Whether the event with data word `data` is about the listening socket,
    /// that is, whether a connection is waiting to be accepted.
    pub fn is_listener_event(&self, data: u64) -> (waiting: bool)
        ensures
            waiting == (event_fd(data) == self.listener_fd()),
    {
        #[verifier::truncate]
        let fd = data as i32;
        fd == self.listener
    }

    /// The worker that a draw of `random` selects: the one at position
    /// `random % n` of the `n` workers.
    pub fn worker_for(&self, random: usize) -> (epfd: i32)
        ensures
            self.worker_fds().len() > 0,
            epfd == self.worker_fds()[(random as int) % (self.worker_fds().len() as int)],
    {
        proof {
            use_type_invariant(self);
        }
        let idx = random % self.workers.len();
        self.workers[idx]
    }

    /// Picks the worker for a new connection with one random draw, added to
    /// the record of `kernel`: the worker at position `draw % n` of the `n`
    /// workers.
    pub fn draw_worker(&self, kernel: &mut Kernel) -> (epfd: i32)
        ensures
            final(kernel).calls() == old(kernel).calls().push(SysCall::Draw { value: last_draw(final(kernel).calls()) }),
            self.worker_fds().len() > 0,
            epfd == self.worker_fds()[(last_draw(final(kernel).calls()) as int) % (self.worker_fds().len() as int)],
    {
        let random = random_index(kernel);
        self.worker_for(random)
    }

    /// Picks the worker for a new connection at random.
    pub fn pick_worker(&self) -> (epfd: i32)
        ensures
            self.worker_fds().contains(epfd),
    {
        let mut kernel = Kernel::new();
        let epfd = self.draw_worker(&mut kernel);
        proof {
            let i = (last_draw(kernel.calls()) as int) % (self.worker_fds().len() as int);
            assert(self.worker_fds()[i] == epfd);
        }
        epfd
    }
}

/// The value of the last call in `calls`, read as a random draw.
pub open spec fn last_draw(calls: Seq<SysCall>) -> usize {
    calls.last()->value
}

/// Every worker is the pick of some draw, and a draw picks the worker at its
/// remainder: draws that differ by a multiple of the number of workers pick
/// the same worker, and the draws `0..n` pick each of the `n` workers once.
pub proof fn lemma_draws_reach_every_worker(workers: Seq<i32>, i: int, draw: int)
    requires
        workers.len() > 0,
        0 <= i < workers.len(),
        draw >= 0,
    ensures
        i % (workers.len() as int) == i,
        (draw + workers.len()) % (workers.len() as int) == draw % (workers.len() as int),
        0 <= draw % (workers.len() as int) < workers.len(),
{
    let n = workers.len() as int;
    vstd::arithmetic::div_mod::lemma_small_mod(i as nat, n as nat);
    vstd::arithmetic::div_mod::lemma_mod_add_multiples_vanish(draw, n);
    vstd::arithmetic::div_mod::lemma_mod_bound(draw, n);
}

/// An event that carries the data word of a connection's registration names
/// that very connection: the worker acts on the descriptor it registered.
pub proof fn lemma_registered_data_names_connection(sockfd: i32)
    ensures
        event_fd(registration_of(sockfd).data) == sockfd,
{
    let data = sockfd as u64;
    assert((data as i32) == sockfd) by (bit_vector)
        requires
            data == sockfd as u64,
    ;
}

/// A worker reads when a packet is waiting and always deregisters and closes
/// a connection whose peer hung up, whatever its policy for unexpected
/// events; it acts on the connection the event names.
pub proof fn lemma_expected_events(data: u64, policy: UnexpectedEventPolicy)
    ensures
        worker_action_of(data, EPOLL_IN, policy) == (WorkerAction::Receive { fd: event_fd(data) }),
        worker_action_of(data, EPOLL_RDHUP | EPOLL_IN, policy) == (WorkerAction::Disconnect {
            fd: event_fd(data),
        }),
{
    assert(EPOLL_IN != (EPOLL_RDHUP | EPOLL_IN)) by (bit_vector);
}

/// A registration watches both event masks a worker expects, and no event
/// is both readable and a hang-up.
pub proof fn lemma_registration_watches_expected_events()
    ensures
        monitor_mask() & EPOLL_IN == EPOLL_IN,
        monitor_mask() & (EPOLL_RDHUP | EPOLL_IN) == (EPOLL_RDHUP | EPOLL_IN),
        monitor_mask() & EPOLL_ET == EPOLL_ET,
        EPOLL_IN != (EPOLL_RDHUP | EPOLL_IN),
{
    assert((0x8000_0000u32 | 0x1u32 | 0x2000u32) & 0x1u32 == 0x1u32) by (bit_vector);
    assert((0x8000_0000u32 | 0x1u32 | 0x2000u32) & (0x2000u32 | 0x1u32) == (0x2000u32 | 0x1u32)) by (bit_vector);
    assert((0x8000_0000u32 | 0x1u32 | 0x2000u32) & 0x8000_0000u32 == 0x8000_0000u32) by (bit_vector);
    assert(0x1u32 != (0x2000u32 | 0x1u32)) by (bit_vector);
}

/// Every mask other than exactly `EPOLLIN` and exactly `EPOLLRDHUP | EPOLLIN`
/// is unexpected: the worker reports it on the descriptor the event names,
/// and drops that connection exactly when its policy is to drop.
pub proof fn lemma_unexpected_events(data: u64, mask: u32, policy: UnexpectedEventPolicy)
    requires
        mask != EPOLL_IN,
        mask != (EPOLL_RDHUP | EPOLL_IN),
    ensures
        worker_action_of(data, mask, policy) == (WorkerAction::Unexpected {
            fd: data as i32,
            mask,
            drop: policy == UnexpectedEventPolicy::Drop,
        }),
        worker_action_of(data, mask, UnexpectedEventPolicy::Drop) == (WorkerAction::Unexpected {
            fd: data as i32,
            mask,
            drop: true,
        }),
        worker_action_of(data, mask, UnexpectedEventPolicy::Report) == (WorkerAction::Unexpected {
            fd: data as i32,
            mask,
            drop: false,
        }),
{
}

/// A read that brought any bytes at all is reported as a packet of that
/// many bytes; only a read of no bytes reports nothing; a failed read
/// reports its error.
pub proof fn lemma_read_reports(len: usize, error: OsError)
    ensures
        len > 0 ==> read_report_of(Ok(len)) == (ReadReport::Packet { len }),
        read_report_of(Ok(0)) == ReadReport::Nothing,
        read_report_of(Ok(len)) == ReadReport::Nothing ==> len == 0,
        read_report_of(Err(error)) == (ReadReport::Failed { error }),
{
}

} // verus!
