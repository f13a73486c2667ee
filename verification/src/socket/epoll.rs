//! Registering connected sockets with a worker's epoll instance, and taking
//! them off it again.

use vstd::prelude::*;
use crate::socket::OsError;
use crate::socket::{last_lookup, one_lookup, peer_found, peer_text, PeerAddr};
use crate::socket::text::{inet_text, unknown_peer_text};
use crate::socket::sys::{close_descriptor, epoll_control, handed_bits, Kernel, SysCall};

verus! {

/// `EPOLLIN`: the descriptor has data to read.
pub const EPOLL_IN: u32 = 0x1;

/// `EPOLLRDHUP`: the peer closed its end of the connection.
pub const EPOLL_RDHUP: u32 = 0x2000;

/// `EPOLLET`: report readiness edge-triggered.
pub const EPOLL_ET: u32 = 0x8000_0000;

/// The events a worker watches on every connection it serves.
pub open spec fn monitor_mask() -> u32 {
    EPOLL_ET | EPOLL_IN | EPOLL_RDHUP
}

/// An `epoll_ctl` operation.
#[derive(Clone, Copy, Debug, PartialEq, Eq, Structural)]
pub enum CtlOp {
    Add,
    Del,
}

/// One `epoll_ctl` call: the operation, the descriptor it concerns, and the
/// event mask and data word handed to the kernel with it.
#[derive(Clone, Copy, Debug, PartialEq, Eq, Structural)]
pub struct EpollRequest {
    pub op: CtlOp,
    pub fd: i32,
    pub events: u32,
    pub data: u64,
}

/// The request that adds `sockfd` to an interest list: watched for
/// `monitor_mask()`, with the descriptor itself as the event's data.
pub open spec fn registration_of(sockfd: i32) -> EpollRequest {
    EpollRequest { op: CtlOp::Add, fd: sockfd, events: monitor_mask(), data: sockfd as u64 }
}

/// The request that removes `sockfd` from an interest list, with an empty
/// event.
pub open spec fn deregistration_of(sockfd: i32) -> EpollRequest {
    EpollRequest { op: CtlOp::Del, fd: sockfd, events: 0, data: 0 }
}

/// The events to monitor on a connection: edge-triggered input and peer
/// hang-up.
fn epoll_monitor_event() -> (mask: u32)
    ensures
        mask == monitor_mask(),
{
    EPOLL_ET | EPOLL_IN | EPOLL_RDHUP
}

/// Builds the request that registers `sockfd`.
pub fn registration_request(sockfd: i32) -> (request: EpollRequest)
    ensures
        request == registration_of(sockfd),
{
    EpollRequest { op: CtlOp::Add, fd: sockfd, events: epoll_monitor_event(), data: sockfd as u64 }
}

/// Builds the request that deregisters `sockfd`.
pub fn deregistration_request(sockfd: i32) -> (request: EpollRequest)
    ensures
        request == deregistration_of(sockfd),
{
    EpollRequest { op: CtlOp::Del, fd: sockfd, events: 0, data: 0 }
}

/// The outcome a recorded call had.
pub open spec fn outcome_of(call: SysCall) -> Result<(), OsError> {
    match call {
        SysCall::EpollCtl { outcome, .. } => outcome,
        SysCall::Close { outcome, .. } => outcome,
        SysCall::GetPeerName { lookup, .. } => match lookup {
            Ok(_) => Ok(()),
            Err(error) => Err(error),
        },
        SysCall::Draw { .. } => Ok(()),
    }
}

/// `calls` and `result` are those of registering `sockfd` with `epfd`: one
/// `epoll_ctl` call with `registration_of(sockfd)`, whose outcome is handed
/// back.
pub open spec fn is_registration(epfd: i32, sockfd: i32, calls: Seq<SysCall>, result: Result<(), OsError>) -> bool {
    calls == seq![SysCall::EpollCtl { epfd, request: registration_of(sockfd), outcome: result }]
}

/// `calls` and `result` are those of removing `sockfd` from `epfd`: first an
/// `epoll_ctl` call with `deregistration_of(sockfd)`; when it fails, nothing
/// more and its failure is handed back; when it succeeds, one `close` of
/// `sockfd`, whose outcome is handed back.
pub open spec fn is_removal(epfd: i32, sockfd: i32, calls: Seq<SysCall>, result: Result<(), OsError>) -> bool {
    &&& calls.len() >= 1
    &&& calls[0] == (SysCall::EpollCtl {
        epfd,
        request: deregistration_of(sockfd),
        outcome: outcome_of(calls[0]),
    })
    &&& match outcome_of(calls[0]) {
        Err(error) => calls.len() == 1 && result == Err::<(), OsError>(error),
        Ok(()) => calls.len() == 2 && calls[1] == (SysCall::Close { fd: sockfd, outcome: result }),
    }
}

/// What a removal does once the deregistration has answered.
#[derive(Clone, Copy, Debug, PartialEq, Eq, Structural)]
pub enum RemovalStep {
    /// The descriptor left the interest list: close it.
    Close,
    /// The deregistration failed: hand back its error and close nothing.
    Fail { error: OsError },
}

/// The step that follows a deregistration with outcome `deregistered`.
pub open spec fn removal_step_of(deregistered: Result<(), OsError>) -> RemovalStep {
    match deregistered {
        Ok(()) => RemovalStep::Close,
        Err(error) => RemovalStep::Fail { error },
    }
}

/// Decides what a removal does once the deregistration has answered.
pub fn removal_step(deregistered: Result<(), OsError>) -> (step: RemovalStep)
    ensures
        step == removal_step_of(deregistered),
{
    match deregistered {
        Ok(()) => RemovalStep::Close,
        Err(error) => RemovalStep::Fail { error },
    }
}

/// The mask of a registration holds only bits `epoll_control` hands over
/// unchanged; so does the empty mask of a deregistration.
proof fn lemma_requests_hand_over_their_bits(sockfd: i32)
    ensures
        handed_bits(registration_of(sockfd).events),
        handed_bits(deregistration_of(sockfd).events),
{
    assert((0x8000_0000u32 | 0x1u32 | 0x2000u32) & (0x8000_0000u32 | 0x1u32 | 0x2000u32)
        == (0x8000_0000u32 | 0x1u32 | 0x2000u32)) by (bit_vector);
    assert(0u32 & (0x8000_0000u32 | 0x1u32 | 0x2000u32) == 0u32) by (bit_vector);
}

/// Adds `sockfd` to the interest list of `epfd`: exactly one `epoll_ctl`
/// call, with `registration_of(sockfd)`, whose outcome is handed back.
/// Whether the kernel accepts it is its own affair.
pub fn add_epoll_list(kernel: &mut Kernel, epfd: i32, sockfd: i32) -> (r: Result<(), OsError>)
    ensures
        is_registration(epfd, sockfd, final(kernel).calls().skip(old(kernel).calls().len() as int), r),
        final(kernel).calls() == old(kernel).calls().push(
            SysCall::EpollCtl { epfd, request: registration_of(sockfd), outcome: r },
        ),
{
    proof {
        lemma_requests_hand_over_their_bits(sockfd);
    }
    let request = registration_request(sockfd);
    let r = epoll_control(kernel, epfd, &request);
    proof {
        assert(final(kernel).calls().skip(old(kernel).calls().len() as int) =~= seq![
            SysCall::EpollCtl { epfd, request: registration_of(sockfd), outcome: r },
        ]);
    }
    r
}

/// Removes `sockfd` from the interest list of `epfd`, then closes it: first
/// one `epoll_ctl` call with `deregistration_of(sockfd)`; when it fails,
/// nothing more, and its failure is handed back; when it succeeds, one
/// `close` of `sockfd`, whose outcome is handed back.
pub fn remove_epoll_list(kernel: &mut Kernel, epfd: i32, sockfd: i32) -> (r: Result<(), OsError>)
    ensures
        final(kernel).calls().len() >= old(kernel).calls().len(),
        final(kernel).calls().take(old(kernel).calls().len() as int) == old(kernel).calls(),
        is_removal(epfd, sockfd, final(kernel).calls().skip(old(kernel).calls().len() as int), r),
{
    proof {
        lemma_requests_hand_over_their_bits(sockfd);
    }
    let ghost before = kernel.calls();
    let request = deregistration_request(sockfd);
    let deregistered = epoll_control(kernel, epfd, &request);
    let ghost deregistration = SysCall::EpollCtl { epfd, request: deregistration_of(sockfd), outcome: deregistered };
    match removal_step(deregistered) {
        RemovalStep::Close => {
            let closed = close_descriptor(kernel, sockfd);
            proof {
                let calls = kernel.calls().skip(before.len() as int);
                assert(calls =~= seq![deregistration, SysCall::Close { fd: sockfd, outcome: closed }]);
                assert(kernel.calls().take(before.len() as int) =~= before);
            }
            closed
        },
        RemovalStep::Fail { error } => {
            proof {
                let calls = kernel.calls().skip(before.len() as int);
                assert(calls =~= seq![deregistration]);
                assert(kernel.calls().take(before.len() as int) =~= before);
            }
            Err(error)
        },
    }
}

/// In every removal, a descriptor is closed only after its deregistration
/// from the same epoll instance succeeded, and only the descriptor being
/// removed is closed; after a failed deregistration nothing is closed and
/// the failure is handed back.
pub proof fn lemma_close_follows_successful_deregistration(
    epfd: i32,
    sockfd: i32,
    calls: Seq<SysCall>,
    result: Result<(), OsError>,
)
    requires
        is_removal(epfd, sockfd, calls, result),
    ensures
        forall|i: int|
            0 <= i < calls.len() && (#[trigger] calls[i] is Close) ==> {
                &&& i == 1
                &&& calls[i]->Close_fd == sockfd
                &&& calls[0] == (SysCall::EpollCtl {
                    epfd,
                    request: deregistration_of(sockfd),
                    outcome: outcome_of(calls[0]),
                })
                &&& outcome_of(calls[0]) is Ok
            },
        outcome_of(calls[0]) is Err ==> calls.len() == 1 && result == outcome_of(calls[0]),
{
    assert forall|i: int| 0 <= i < calls.len() && (#[trigger] calls[i] is Close) implies {
        &&& i == 1
        &&& calls[i]->Close_fd == sockfd
        &&& calls[0] == (SysCall::EpollCtl {
            epfd,
            request: deregistration_of(sockfd),
            outcome: outcome_of(calls[0]),
        })
        &&& outcome_of(calls[0]) is Ok
    } by {
        assert(i != 0);
        assert(outcome_of(calls[0]) is Ok);
        assert(i == 1);
        assert(calls[1] == (SysCall::Close { fd: sockfd, outcome: result }));
        assert(calls[i]->Close_fd == sockfd);
    }
}

/// A removal succeeds exactly when the deregistration and the close both
/// succeed; a failed removal hands back the first failure.
pub proof fn lemma_removal_succeeds_when_both_calls_do(
    epfd: i32,
    sockfd: i32,
    calls: Seq<SysCall>,
    result: Result<(), OsError>,
)
    requires
        is_removal(epfd, sockfd, calls, result),
    ensures
        result is Ok <==> (calls.len() == 2 && outcome_of(calls[0]) is Ok && outcome_of(calls[1]) is Ok),
        result is Err ==> (if outcome_of(calls[0]) is Err {
            result == outcome_of(calls[0])
        } else {
            result == outcome_of(calls[1])
        }),
{
}

/// Returns the IPv4 address of the peer connected to `sockfd`, or
/// `"Unknown"` when the socket has no IPv4 peer, exactly as
/// `socket::get_peer_name` does: one `getpeername` of `sockfd`, whose
/// outcome the text reports.
pub fn get_peer_name(kernel: &mut Kernel, sockfd: i32) -> (name: String)
    ensures
        one_lookup(old(kernel).calls(), final(kernel).calls(), sockfd),
        name@ == peer_text(peer_found(last_lookup(final(kernel).calls()))),
        last_lookup(final(kernel).calls()) matches Ok(addr) ==> name@ == inet_text(addr.ip, addr.port),
        last_lookup(final(kernel).calls()) is Err ==> name@ == unknown_peer_text(),
        name@ == unknown_peer_text() || exists|addr: PeerAddr| name@ == inet_text(addr.ip, addr.port),
{
    crate::socket::get_peer_name(kernel, sockfd)
}

} // verus!
