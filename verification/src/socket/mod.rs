//! Socket helpers shared by the acceptor and the worker loops: the peer
//! address of a connected socket and the error every system call reports.

pub mod text;
pub mod sys;
pub mod epoll;
pub mod event;
pub mod config;
pub mod packet;

use vstd::prelude::*;
use crate::socket::text::{inet_text, unknown_peer_text};
use crate::socket::sys::{inet_address_text, peer_address, Kernel, SysCall};

verus! {

/// An IPv4 socket address: the address in host byte order and the port.
#[derive(Clone, Copy, Debug, PartialEq, Eq, Structural)]
pub struct PeerAddr {
    pub ip: u32,
    pub port: u16,
}

/// A failed system call, by its `errno` number.
#[derive(Clone, Copy, Debug, PartialEq, Eq, Structural)]
pub struct OsError {
    pub errno: i32,
}

/// The text that reports a peer: its socket address when it is known,
/// `"Unknown"` otherwise.
pub open spec fn peer_text(peer: Option<PeerAddr>) -> Seq<char> {
    match peer {
        Some(addr) => inet_text(addr.ip, addr.port),
        None => unknown_peer_text(),
    }
}

/// The peer a lookup with outcome `lookup` found.
pub open spec fn peer_found(lookup: Result<PeerAddr, OsError>) -> Option<PeerAddr> {
    match lookup {
        Ok(addr) => Some(addr),
        Err(_) => None,
    }
}

/// The outcome of the last call in `calls`, read as a peer lookup.
pub open spec fn last_lookup(calls: Seq<SysCall>) -> Result<PeerAddr, OsError> {
    calls.last()->lookup
}

/// `after` is `before` with exactly one more call: a `getpeername` of
/// `sockfd`.
pub open spec fn one_lookup(before: Seq<SysCall>, after: Seq<SysCall>, sockfd: i32) -> bool {
    after == before.push(SysCall::GetPeerName { fd: sockfd, lookup: last_lookup(after) })
}

/// The peer a lookup found: its address when the lookup succeeded, none
/// when it failed.
pub fn peer_of(lookup: Result<PeerAddr, OsError>) -> (peer: Option<PeerAddr>)
    ensures
        peer == peer_found(lookup),
        lookup matches Ok(addr) ==> peer == Some(addr),
        lookup is Err ==> peer is None,
{
    match lookup {
        Ok(addr) => Some(addr),
        Err(_) => None,
    }
}

/// Renders the outcome of a peer-address lookup: the address as
/// `a.b.c.d:port`, or `"Unknown"` when the lookup failed.
pub fn peer_name_text(peer: Option<PeerAddr>) -> (name: String)
    ensures
        name@ == peer_text(peer),
        peer matches Some(addr) ==> name@ == inet_text(addr.ip, addr.port),
        peer is None ==> name@ == unknown_peer_text(),
{
    match peer {
        Some(addr) => inet_address_text(addr.ip, addr.port),
        None => {
            let name = String::from_str("Unknown");
            proof {
                reveal_strlit("Unknown");
                assert(name@ =~= unknown_peer_text());
            }
            name
        },
    }
}

/// Returns the IPv4 address of the peer connected to `sockfd`, or
/// `"Unknown"` when the socket has no IPv4 peer: one `getpeername` of
/// `sockfd`, whose outcome the text reports.
pub fn get_peer_name(kernel: &mut Kernel, sockfd: i32) -> (name: String)
    ensures
        one_lookup(old(kernel).calls(), final(kernel).calls(), sockfd),
        name@ == peer_text(peer_found(last_lookup(final(kernel).calls()))),
        last_lookup(final(kernel).calls()) matches Ok(addr) ==> name@ == inet_text(addr.ip, addr.port),
        last_lookup(final(kernel).calls()) is Err ==> name@ == unknown_peer_text(),
        name@ == unknown_peer_text() || exists|addr: PeerAddr| name@ == inet_text(addr.ip, addr.port),
{
    let lookup = peer_address(kernel, sockfd);
    peer_name_text(peer_of(lookup))
}

/// Looks up the IPv4 address of the peer connected to `sockfd` with one
/// `getpeername` of `sockfd`: its text when the lookup succeeds, the
/// lookup's error otherwise.
pub fn lookup_peer_name(kernel: &mut Kernel, sockfd: i32) -> (r: Result<String, OsError>)
    ensures
        one_lookup(old(kernel).calls(), final(kernel).calls(), sockfd),
        match last_lookup(final(kernel).calls()) {
            Ok(addr) => r is Ok && r->Ok_0@ == inet_text(addr.ip, addr.port),
            Err(error) => r == Err::<String, OsError>(error),
        },
{
    match peer_address(kernel, sockfd) {
        Ok(addr) => Ok(inet_address_text(addr.ip, addr.port)),
        Err(error) => Err(error),
    }
}

/// A successful lookup reports exactly the address it found, port and all,
/// and a failed one reports `"Unknown"`: the texts of two lookups that found
/// different addresses differ, and neither is `"Unknown"`.
pub proof fn lemma_lookup_reports_found_address(addr: PeerAddr, other: PeerAddr, error: OsError)
    ensures
        peer_found(Ok(addr)) == Some(addr),
        peer_found(Err(error)) == None::<PeerAddr>,
        peer_text(peer_found(Ok(addr))) == inet_text(addr.ip, addr.port),
        peer_text(peer_found(Err(error))) == unknown_peer_text(),
        peer_text(peer_found(Ok(addr))) != unknown_peer_text(),
        addr != other ==> peer_text(peer_found(Ok(addr))) != peer_text(peer_found(Ok(other))),
{
    crate::socket::text::lemma_address_text_is_not_unknown(addr.ip, addr.port);
    if inet_text(addr.ip, addr.port) == inet_text(other.ip, other.port) {
        crate::socket::text::lemma_address_text_determines_address(addr.ip, addr.port, other.ip, other.port);
    }
}

} // verus!
