//! The server's settings: each is read from its text, and falls back to its
//! default when the text is not a number of the setting's type.

use vstd::prelude::*;
use crate::socket::text::{decimal, lemma_decimal_text_reads_back, signed_value, unsigned_value, within};
use crate::socket::sys::{parse_isize, parse_u32, parse_usize};

verus! {

/// Worker threads when `MAX_THREAD_POOL` is not a number.
pub const DEFAULT_POOL_SIZE: usize = 4;

/// Bytes read per packet when `PACKET_LENGTH` is not a number.
pub const DEFAULT_PACKET_LENGTH: usize = 1024;

/// Milliseconds the acceptor waits for events when `EPOLL_BINDER_TIMEOUT`
/// is not a number.
pub const DEFAULT_BINDER_TIMEOUT: isize = 1000;

/// Milliseconds a worker waits for events when `EPOLL_HANDLER_TIMEOUT` is
/// not a number.
pub const DEFAULT_HANDLER_TIMEOUT: isize = 100;

/// Events the acceptor takes per wait when `EPOLL_BINDER_EVENT_COUNT` is not
/// a number.
pub const DEFAULT_BINDER_EVENT_COUNT: usize = 1024;

/// Events a worker takes per wait when `EPOLL_HANDLER_EVENT_COUNT` is not a
/// number.
pub const DEFAULT_HANDLER_EVENT_COUNT: usize = 1024;

/// Seconds of idleness before TCP keep-alive probes start when
/// `SOCKET_IDLE_TIMEOUT_SEC` is not a number.
pub const DEFAULT_IDLE_TIMEOUT_SEC: u32 = 30;

/// The value of an unsigned setting whose type holds `0..=max`.
pub open spec fn unsigned_setting(text: Seq<char>, default: int, max: int) -> int {
    match within(unsigned_value(text), 0, max) {
        Some(v) => v,
        None => default,
    }
}

/// The value of a signed setting whose type holds `min..=max`.
pub open spec fn signed_setting(text: Seq<char>, default: int, min: int, max: int) -> int {
    match within(signed_value(text), min, max) {
        Some(v) => v,
        None => default,
    }
}

/// Reads a `usize` setting from `text`, or `default` when `text` is not one.
pub fn setting_usize(text: &str, default: usize) -> (value: usize)
    ensures
        value == unsigned_setting(text@, default as int, usize::MAX as int),
{
    match parse_usize(text) {
        Some(v) => v,
        None => default,
    }
}

/// Reads an `isize` setting from `text`, or `default` when `text` is not one.
pub fn setting_isize(text: &str, default: isize) -> (value: isize)
    ensures
        value == signed_setting(text@, default as int, isize::MIN as int, isize::MAX as int),
{
    match parse_isize(text) {
        Some(v) => v,
        None => default,
    }
}

/// Reads a `u32` setting from `text`, or `default` when `text` is not one.
pub fn setting_u32(text: &str, default: u32) -> (value: u32)
    ensures
        value == unsigned_setting(text@, default as int, u32::MAX as int),
{
    match parse_u32(text) {
        Some(v) => v,
        None => default,
    }
}

/// A setting written as the decimal text of a value that fits its type
/// reads back as that value, whatever the default; so does a signed setting
/// written with a minus sign.
pub proof fn lemma_written_setting_reads_back(n: nat, default: int, min: int, max: int)
    requires
        min <= 0,
        n <= max,
    ensures
        unsigned_setting(decimal(n), default, max) == n,
        signed_setting(decimal(n), default, min, max) == n,
        -(n as int) >= min ==> signed_setting(seq!['-'] + decimal(n), default, min, max) == -(n as int),
{
    lemma_decimal_text_reads_back(n);
}

/// The `ip:port` text the listening socket binds to.
pub fn listen_address(ip: &str, port: &str) -> (address: String)
    ensures
        address@ == ip@ + seq![':'] + port@,
{
    let address = String::from_str(ip).concat(":");
    proof {
        reveal_strlit(":");
    }
    address.concat(port)
}

} // verus!
