//! Recognition of ICMP Echo Replies in received IPv4 datagrams.

use vstd::prelude::*;

verus! {

/// Shortest IPv4 datagram: a header without options.
pub const MIN_IPV4_LENGTH: usize = 20;

/// Shortest ICMP message: type, code and checksum.
pub const MIN_ICMP_LENGTH: usize = 4;

/// ICMP type of an Echo Reply.
pub const ECHO_REPLY: u8 = 0;

/// Byte length of the header that the IHL field of `p` announces.
pub open spec fn header_bytes(p: Seq<u8>) -> int {
    (p[0] % 16) as int * 4
}

/// `a - b`, or zero where that is negative.
pub open spec fn saturating_sub(a: int, b: int) -> int {
    if a > b {
        a - b
    } else {
        0
    }
}

/// Where the payload of `p` starts: after the fixed header and any options.
pub open spec fn payload_start(p: Seq<u8>) -> int {
    20 + saturating_sub(header_bytes(p), 20)
}

/// Payload length announced by the total-length and IHL fields of `p`.
pub open spec fn announced_payload_length(p: Seq<u8>) -> int {
    saturating_sub((p[2] as int) * 256 + (p[3] as int), header_bytes(p))
}

/// The payload of the IPv4 datagram `p` (of at least 20 bytes): from the end
/// of the header up to the announced length, cut at the end of the buffer.
pub open spec fn ipv4_payload(p: Seq<u8>) -> Seq<u8> {
    let start = payload_start(p);
    if p.len() <= start {
        Seq::empty()
    } else {
        let announced_end = start + announced_payload_length(p);
        let end = if announced_end < p.len() {
            announced_end
        } else {
            p.len() as int
        };
        p.subrange(start, end)
    }
}

/// Whether `p` is an IPv4 datagram whose payload is an ICMP Echo Reply.
pub open spec fn is_echo_reply(p: Seq<u8>) -> bool {
    p.len() >= 20 && ipv4_payload(p).len() >= 4 && ipv4_payload(p)[0] == 0
}

/// Classifies a received datagram: true iff it parses as IPv4 carrying an
/// ICMP message of type Echo Reply. Short or malformed input gives false.
pub fn classify(packet: &[u8]) -> (r: bool)
    ensures
        r == is_echo_reply(packet@),
{
    let len = packet.len();
    if len < MIN_IPV4_LENGTH {
        return false;
    }
    let header: usize = (packet[0] % 16) as usize * 4;
    let start: usize = if header > MIN_IPV4_LENGTH {
        header
    } else {
        MIN_IPV4_LENGTH
    };
    if len <= start {
        return false;
    }
    let total: usize = packet[2] as usize * 256 + packet[3] as usize;
    let announced: usize = if total > header {
        total - header
    } else {
        0
    };
    let end: usize = if announced < len - start {
        start + announced
    } else {
        len
    };
    end - start >= MIN_ICMP_LENGTH && packet[start] == ECHO_REPLY
}

/// In a datagram whose header-length field announces at least 5 words and
/// whose total-length field and buffer both reach at least 4 bytes past that
/// header, the verdict is decided by the ICMP type byte right after the
/// header alone: 0 is a reply, any other type (3, 8, 11, ...) is not.
pub proof fn law_classify_by_type_byte(p: Seq<u8>)
    requires
        p.len() >= 20,
        p[0] % 16 >= 5,
        p.len() >= header_bytes(p) + 4,
        (p[2] as int) * 256 + (p[3] as int) >= header_bytes(p) + 4,
    ensures
        is_echo_reply(p) <==> p[header_bytes(p)] == 0,
{
    assert(payload_start(p) == header_bytes(p));
    assert(ipv4_payload(p).len() >= 4);
    assert(ipv4_payload(p)[0] == p[header_bytes(p)]);
}

/// A buffer too short to hold an IPv4 header and an ICMP header is never a reply.
pub proof fn law_truncated_is_not_reply(p: Seq<u8>)
    requires
        p.len() < 24,
    ensures
        !is_echo_reply(p),
{
}

} // verus!
