//! Construction of the IPv4 datagram that carries one ICMP Echo Request probe.

use vstd::prelude::*;
use crate::checksum::{checksum_skipping, fold_carry, internet_checksum, word_at, word_count, word_sum};

verus! {

/// Length of the IPv4 header written into a probe (no options).
pub const IP_HEADER_LENGTH: usize = 20;

/// Length of the ICMP Echo Request header.
pub const ICMP_HEADER_LENGTH: usize = 8;

/// Largest value of the 16-bit IPv4 total-length field.
pub const MAX_TOTAL_LENGTH: usize = 65535;

/// An IPv4 address as its four octets, most significant first.
#[derive(Clone, Copy, Debug, PartialEq, Eq, Structural)]
pub struct Ipv4Address {
    pub a: u8,
    pub b: u8,
    pub c: u8,
    pub d: u8,
}

impl Ipv4Address {
    pub fn new(a: u8, b: u8, c: u8, d: u8) -> (r: Ipv4Address)
        ensures
            r == (Ipv4Address { a, b, c, d }),
    {
        Ipv4Address { a, b, c, d }
    }
}

/// Why a probe could not be built.
#[derive(Clone, Copy, Debug, PartialEq, Eq, Structural)]
pub enum BuildError {
    /// The payload plus both headers does not fit the 16-bit total-length field.
    TooLarge,
}

/// High byte of a 16-bit quantity.
pub open spec fn hi_byte(v: nat) -> u8 {
    (v / 256 % 256) as u8
}

/// Low byte of a 16-bit quantity.
pub open spec fn lo_byte(v: nat) -> u8 {
    (v % 256) as u8
}

/// The 20-byte IPv4 header of a probe: version 4, header length 5 words,
/// the given total length, TTL 64, Don't Fragment, protocol ICMP, the
/// destination; source, identification and header checksum left zero.
pub open spec fn ipv4_header(dest: Ipv4Address, total_length: nat) -> Seq<u8> {
    seq![
        0x45u8, 0u8, hi_byte(total_length), lo_byte(total_length),
        0u8, 0u8, 0x40u8, 0u8,
        64u8, 1u8, 0u8, 0u8,
        0u8, 0u8, 0u8, 0u8,
        dest.a, dest.b, dest.c, dest.d,
    ]
}

/// An ICMP Echo Request of `size` zero payload bytes: type 8, code 0, the
/// given checksum, identifier 0 and sequence number `size` (mod 65536).
pub open spec fn echo_request(size: nat, checksum: nat) -> Seq<u8> {
    Seq::new(
        size + 8,
        |i: int|
            if i == 0 {
                8u8
            } else if i == 2 {
                hi_byte(checksum)
            } else if i == 3 {
                lo_byte(checksum)
            } else if i == 6 {
                hi_byte(size)
            } else if i == 7 {
                lo_byte(size)
            } else {
                0u8
            },
    )
}

/// The checksum written into a probe's ICMP message: computed over the
/// message with its checksum field (word 1) read as zero.
pub open spec fn echo_checksum(size: nat) -> nat {
    internet_checksum(echo_request(size, 0), 1)
}

/// The complete probe datagram for `dest` carrying `size` payload bytes.
pub open spec fn probe_packet(dest: Ipv4Address, size: nat) -> Seq<u8> {
    ipv4_header(dest, size + 28) + echo_request(size, echo_checksum(size))
}

/// Whether a probe of `size` payload bytes fits the 16-bit total length.
pub open spec fn fits_total_length(size: nat) -> bool {
    size + 28 <= 65535
}

/// Builds the probe datagram for `dest` with `size` zero payload bytes.
pub fn build(dest: Ipv4Address, size: usize) -> (r: Result<Vec<u8>, BuildError>)
    ensures
        fits_total_length(size as nat) <==> r is Ok,
        r matches Ok(p) ==> p@ == probe_packet(dest, size as nat) && p@.len() == size + 28,
        r matches Err(e) ==> e == BuildError::TooLarge,
{
    if size > MAX_TOTAL_LENGTH - IP_HEADER_LENGTH - ICMP_HEADER_LENGTH {
        return Err(BuildError::TooLarge);
    }
    let total: usize = size + IP_HEADER_LENGTH + ICMP_HEADER_LENGTH;
    let seq_hi: u8 = (size / 256) as u8;
    let seq_lo: u8 = (size % 256) as u8;
    let mut icmp: Vec<u8> = vec![8u8, 0u8, 0u8, 0u8, 0u8, 0u8, seq_hi, seq_lo];
    let mut i: usize = 0;
    while i < size
        invariant
            i <= size,
            size + 28 <= 65535,
            icmp@.len() == 8 + i,
            forall|j: int| 0 <= j < icmp@.len() ==> icmp@[j] == echo_request(size as nat, 0)[j],
        decreases size - i,
    {
        icmp.push(0u8);
        i = i + 1;
    }
    assert(icmp@ =~= echo_request(size as nat, 0));
    let cs: u16 = checksum_skipping(icmp.as_slice(), 1);
    icmp.set(2, (cs / 256) as u8);
    icmp.set(3, (cs % 256) as u8);
    assert(icmp@ =~= echo_request(size as nat, cs as nat));
    let mut packet: Vec<u8> = vec![
        0x45u8, 0u8, (total / 256) as u8, (total % 256) as u8,
        0u8, 0u8, 0x40u8, 0u8,
        64u8, 1u8, 0u8, 0u8,
        0u8, 0u8, 0u8, 0u8,
        dest.a, dest.b, dest.c, dest.d,
    ];
    assert(packet@ =~= ipv4_header(dest, total as nat));
    let mut k: usize = 0;
    while k < icmp.len()
        invariant
            k <= icmp@.len(),
            packet@ =~= ipv4_header(dest, total as nat) + icmp@.subrange(0, k as int),
        decreases icmp@.len() - k,
    {
        packet.push(icmp[k]);
        k = k + 1;
        assert(packet@ =~= ipv4_header(dest, total as nat) + icmp@.subrange(0, k as int));
    }
    assert(icmp@.subrange(0, k as int) =~= icmp@);
    Ok(packet)
}

/// Words past the ICMP header of a probe are zero, so they add nothing.
proof fn lemma_payload_words_add_nothing(size: nat, checksum: nat, skip: int, n: nat)
    requires
        4 <= n <= word_count(echo_request(size, checksum)),
    ensures
        word_sum(echo_request(size, checksum), skip, n) == word_sum(
            echo_request(size, checksum),
            skip,
            4,
        ),
    decreases n,
{
    if n > 4 {
        let d = echo_request(size, checksum);
        lemma_payload_words_add_nothing(size, checksum, skip, (n - 1) as nat);
        assert(word_at(d, n - 1) == 0);
    }
}

/// The word sum of a probe's ICMP message: type/code word, checksum word
/// (unless skipped) and sequence number.
proof fn lemma_echo_word_sum(size: nat, checksum: nat, skip: int)
    requires
        size + 28 <= 65535,
        checksum <= 65535,
        skip == 1 || skip == -1,
    ensures
        word_sum(echo_request(size, checksum), skip, word_count(echo_request(size, checksum)))
            == 2048 + size + if skip == 1 {
            0
        } else {
            checksum
        },
{
    let d = echo_request(size, checksum);
    lemma_payload_words_add_nothing(size, checksum, skip, word_count(d));
    assert(word_at(d, 0) == 2048);
    assert(word_at(d, 1) == checksum);
    assert(word_at(d, 2) == 0);
    assert(word_at(d, 3) == size);
    reveal_with_fuel(word_sum, 5);
}

/// A built probe's ICMP message passes the Internet checksum: summing all its
/// 16-bit words, checksum field included, and complementing gives zero.
pub proof fn law_probe_checksum_verifies(dest: Ipv4Address, size: nat)
    requires
        fits_total_length(size),
    ensures
        probe_packet(dest, size).len() == size + 28,
        probe_packet(dest, size).subrange(20, size + 28 as int) == echo_request(size, echo_checksum(size)),
        internet_checksum(echo_request(size, echo_checksum(size)), -1) == 0,
{
    let p = probe_packet(dest, size);
    assert(p.subrange(20, size + 28 as int) =~= echo_request(size, echo_checksum(size)));
    lemma_echo_word_sum(size, 0, 1);
    let c = echo_checksum(size);
    let s = 2048 + size;
    if s <= 65535 {
        assert(fold_carry(s) == s);
        assert(c == 65535 - s);
    } else {
        assert(fold_carry(s) == s - 65535);
        assert(fold_carry((s - 65535) as nat) == s - 65535);
        assert(c == 131070 - s);
        assert(fold_carry(131070) == 65535);
    }
    lemma_echo_word_sum(size, c, -1);
    assert(fold_carry(65535) == 65535);
}

} // verus!
