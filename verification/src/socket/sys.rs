//! The calls this library makes into `nix`, `rand` and the standard library,
//! each with the contract the callee's source or documentation supports.

use vstd::prelude::*;
use crate::socket::{OsError, PeerAddr};
use crate::socket::text::{inet_text, is_slice_of, signed_value, unsigned_value, within};
use nix::sys::epoll::{epoll_ctl, EpollEvent, EpollFlags, EpollOp};
use nix::sys::socket::{getpeername, SockaddrIn};
use nix::unistd::close;
use crate::socket::epoll::{CtlOp, EpollRequest, EPOLL_ET, EPOLL_IN, EPOLL_RDHUP};

verus! {

/// A system call made on the library's behalf, with the outcome it had.
pub enum SysCall {
    /// `getpeername` of `fd`.
    GetPeerName { fd: i32, lookup: Result<PeerAddr, OsError> },
    /// `epoll_ctl` on the epoll instance `epfd` with `request`.
    EpollCtl { epfd: i32, request: EpollRequest, outcome: Result<(), OsError> },
    /// `close` of `fd`.
    Close { fd: i32, outcome: Result<(), OsError> },
    /// A random draw, which gave `value`.
    Draw { value: usize },
}

/// The handle through which the library makes system calls. It keeps the
/// record of every call made through it, in order, with its outcome; only
/// the functions below that make the calls extend the record.
pub struct Kernel {
    trace: Ghost<Seq<SysCall>>,
}

impl Kernel {
    /// The calls made through this handle so far, oldest first.
    pub closed spec fn calls(self) -> Seq<SysCall> {
        self.trace@
    }

    /// A handle through which no call has been made yet.
    pub fn new() -> (kernel: Kernel)
        ensures
            kernel.calls() == Seq::<SysCall>::empty(),
    {
        let trace: Ghost<Seq<SysCall>> = Ghost(Seq::empty());
        Kernel { trace }
    }
}

/// The event bits `epoll_control` hands to the kernel unchanged: `EPOLLET`,
/// `EPOLLIN` and `EPOLLRDHUP`, which `nix`'s `EpollFlags` all know.
pub open spec fn handed_bits(events: u32) -> bool {
    events & (EPOLL_ET | EPOLL_IN | EPOLL_RDHUP) == events
}

/// Calls `nix::sys::socket::getpeername::<SockaddrIn>` on `fd` and hands the
/// address back as plain values (`SockaddrIn::ip`, `SockaddrIn::port`), or
/// the `errno` of the failure (`Errno` is `repr(i32)`); the call is added to
/// the record of `kernel`. Whether it succeeds depends on the kernel's state
/// of `fd`, so the outcome is not promised.
#[verifier::external_body]
pub(crate) fn peer_address(kernel: &mut Kernel, fd: i32) -> (r: Result<PeerAddr, OsError>)
    ensures
        final(kernel).calls() == old(kernel).calls().push(SysCall::GetPeerName { fd, lookup: r }),
{
    match getpeername::<SockaddrIn>(fd) {
        Ok(addr) => Ok(PeerAddr { ip: addr.ip(), port: addr.port() }),
        Err(e) => Err(OsError { errno: e as i32 }),
    }
}

/// Formats an IPv4 socket address with `nix`'s `Display` for `SockaddrIn`,
/// which writes `"{}.{}.{}.{}:{}"` from the four octets of the address (most
/// significant first) and the port, all in decimal.
#[verifier::external_body]
pub(crate) fn inet_address_text(ip: u32, port: u16) -> (s: String)
    ensures
        s@ == inet_text(ip, port),
{
    let [a, b, c, d] = ip.to_be_bytes();
    SockaddrIn::new(a, b, c, d, port).to_string()
}

/// Calls `nix::sys::epoll::epoll_ctl` on the epoll instance `epfd` with the
/// operation, descriptor, event mask and data of `request` (the mask is
/// handed over with `EpollFlags::from_bits_truncate`, which keeps the three
/// bits `handed_bits` allows), and hands back its outcome, a failure as its
/// `errno` (`Errno` is `repr(i32)`); the call is added to the record of
/// `kernel`. The outcome depends on the kernel and is not promised.
#[verifier::external_body]
pub(crate) fn epoll_control(kernel: &mut Kernel, epfd: i32, request: &EpollRequest) -> (r: Result<(), OsError>)
    requires
        handed_bits(request.events),
    ensures
        final(kernel).calls() == old(kernel).calls().push(SysCall::EpollCtl { epfd, request: *request, outcome: r }),
{
    let op = match request.op {
        CtlOp::Add => EpollOp::EpollCtlAdd,
        CtlOp::Del => EpollOp::EpollCtlDel,
    };
    let mut event = EpollEvent::new(EpollFlags::from_bits_truncate(request.events as i32), request.data);
    match epoll_ctl(epfd, op, request.fd, &mut event) {
        Ok(()) => Ok(()),
        Err(e) => Err(OsError { errno: e as i32 }),
    }
}

/// Calls `nix::unistd::close` on `fd` and hands back its outcome, a failure
/// as its `errno`; the call is added to the record of `kernel`. The outcome
/// depends on the kernel and is not promised.
#[verifier::external_body]
pub(crate) fn close_descriptor(kernel: &mut Kernel, fd: i32) -> (r: Result<(), OsError>)
    ensures
        final(kernel).calls() == old(kernel).calls().push(SysCall::Close { fd, outcome: r }),
{
    match close(fd) {
        Ok(()) => Ok(()),
        Err(e) => Err(OsError { errno: e as i32 }),
    }
}

/// Draws a number with `rand::random::<usize>()`; the draw is added to the
/// record of `kernel`. It is random: nothing is promised of its value.
#[verifier::external_body]
pub(crate) fn random_index(kernel: &mut Kernel) -> (r: usize)
    ensures
        final(kernel).calls() == old(kernel).calls().push(SysCall::Draw { value: r }),
{
    rand::random::<usize>()
}

/// Reads a `usize` with `str::parse::<usize>`, which accepts an optional `+`
/// followed by one or more ASCII digits whose value fits the type, and
/// refuses any other text.
#[verifier::external_body]
pub(crate) fn parse_usize(text: &str) -> (r: Option<usize>)
    ensures
        match within(unsigned_value(text@), 0, usize::MAX as int) {
            Some(v) => r == Some(v as usize),
            None => r is None,
        },
{
    text.parse::<usize>().ok()
}

/// Reads an `isize` with `str::parse::<isize>`, which accepts an optional `-`
/// or `+` followed by one or more ASCII digits whose value fits the type, and
/// refuses any other text.
#[verifier::external_body]
pub(crate) fn parse_isize(text: &str) -> (r: Option<isize>)
    ensures
        match within(signed_value(text@), isize::MIN as int, isize::MAX as int) {
            Some(v) => r == Some(v as isize),
            None => r is None,
        },
{
    text.parse::<isize>().ok()
}

/// Reads a `u32` with `str::parse::<u32>`, which accepts an optional `+`
/// followed by one or more ASCII digits whose value fits the type, and
/// refuses any other text.
#[verifier::external_body]
pub(crate) fn parse_u32(text: &str) -> (r: Option<u32>)
    ensures
        match within(unsigned_value(text@), 0, u32::MAX as int) {
            Some(v) => r == Some(v as u32),
            None => r is None,
        },
{
    text.parse::<u32>().ok()
}

/// What `String::from_utf8_lossy` makes of `bytes`: the text they encode in
/// UTF-8, each invalid sequence replaced by U+FFFD.
pub uninterp spec fn utf8_lossy_text(bytes: Seq<u8>) -> Seq<char>;

/// Decodes `bytes` with `String::from_utf8_lossy`.
#[verifier::external_body]
pub(crate) fn decode_lossy(bytes: &[u8]) -> (text: String)
    ensures
        text@ == utf8_lossy_text(bytes@),
{
    String::from_utf8_lossy(bytes).into_owned()
}

/// What `str::trim` makes of `text`: the text with its leading and trailing
/// whitespace removed.
pub uninterp spec fn trimmed_text(text: Seq<char>) -> Seq<char>;

/// Removes leading and trailing whitespace with `str::trim`, which returns a
/// slice of its argument. Which characters count as whitespace (Unicode's
/// `White_Space` property) is not spelled out here.
#[verifier::external_body]
pub(crate) fn trim_text(text: &str) -> (trimmed: &str)
    ensures
        trimmed@ == trimmed_text(text@),
        is_slice_of(trimmed@, text@),
{
    text.trim()
}

/// What `Debug` for `str` writes for `text`: the text quoted and escaped.
pub uninterp spec fn debug_text(text: Seq<char>) -> Seq<char>;

/// Formats `text` with `format!("{:?}", text)`, that is, with `Debug` for
/// `str`.
#[verifier::external_body]
pub(crate) fn debug_quote(text: &str) -> (quoted: String)
    ensures
        quoted@ == debug_text(text@),
{
    format!("{:?}", text)
}

} // verus!
