//! Packets received from peers.

use vstd::prelude::*;
use crate::socket::{get_peer_name, last_lookup, one_lookup, peer_found, peer_text, PeerAddr};
use crate::socket::sys::Kernel;
use crate::socket::text::{inet_text, is_slice_of, unknown_peer_text};
use crate::socket::sys::{debug_quote, debug_text, decode_lossy, trim_text, trimmed_text, utf8_lossy_text};

verus! {

/// The text of a packet: its bytes decoded as UTF-8, each invalid sequence
/// replaced by U+FFFD.
pub fn decode_packet(buf: &[u8]) -> (text: String)
    ensures
        text@ == utf8_lossy_text(buf@),
{
    decode_lossy(buf)
}

/// The line logged for a packet with text `text` from the peer `peer`: both
/// in their `Debug` form.
pub open spec fn packet_message(peer: Seq<char>, text: Seq<char>) -> Seq<char> {
    "packet received from peer: "@ + debug_text(peer) + ", packet: "@ + debug_text(text)
}

/// What is reported of a packet received on a connection: who sent it and
/// what it says.
pub struct PacketNote {
    /// The sender's address, or `"Unknown"`.
    pub peer: String,
    /// The packet's text without leading and trailing whitespace.
    pub text: String,
    /// The line to log for the packet.
    pub message: String,
}

/// Describes the packet `buf` received on `sockfd`: the peer's address, the
/// decoded, trimmed text of the packet, and the line that logs both.
pub fn handle_packet(kernel: &mut Kernel, sockfd: i32, buf: Vec<u8>) -> (note: PacketNote)
    ensures
        one_lookup(old(kernel).calls(), final(kernel).calls(), sockfd),
        note.peer@ == peer_text(peer_found(last_lookup(final(kernel).calls()))),
        last_lookup(final(kernel).calls()) matches Ok(addr) ==> note.peer@ == inet_text(addr.ip, addr.port),
        last_lookup(final(kernel).calls()) is Err ==> note.peer@ == unknown_peer_text(),
        note.text@ == trimmed_text(utf8_lossy_text(buf@)),
        is_slice_of(note.text@, utf8_lossy_text(buf@)),
        note.message@ == packet_message(note.peer@, note.text@),
        note.message@ == "packet received from peer: "@ + debug_text(note.peer@) + ", packet: "@ + debug_text(note.text@),
        note.peer@ == unknown_peer_text() || exists|addr: PeerAddr| note.peer@ == inet_text(addr.ip, addr.port),
{
    let peer = get_peer_name(kernel, sockfd);
    let decoded = decode_lossy(buf.as_slice());
    let trimmed = trim_text(decoded.as_str());
    let mut message = String::from_str("packet received from peer: ");
    let quoted_peer = debug_quote(peer.as_str());
    message.append(quoted_peer.as_str());
    message.append(", packet: ");
    let quoted_text = debug_quote(trimmed);
    message.append(quoted_text.as_str());
    PacketNote { peer, text: String::from_str(trimmed), message }
}

/// The logged line quotes the peer and the text it is given, in that order,
/// after the fixed lead-in: the peer part is exactly the `Debug` form of the
/// peer text.
pub proof fn lemma_message_quotes_peer_and_text(peer: Seq<char>, text: Seq<char>)
    ensures
        packet_message(peer, text) == "packet received from peer: "@ + debug_text(peer) + ", packet: "@
            + debug_text(text),
        packet_message(peer, text).subrange(
            "packet received from peer: "@.len() as int,
            ("packet received from peer: "@.len() + debug_text(peer).len()) as int,
        ) == debug_text(peer),
{
    let lead = "packet received from peer: "@;
    let m = packet_message(peer, text);
    assert(m.subrange(lead.len() as int, (lead.len() + debug_text(peer).len()) as int) =~= debug_text(peer));
}

} // verus!
