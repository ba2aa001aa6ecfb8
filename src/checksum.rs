//! The Internet checksum (one's-complement sum of big-endian 16-bit words).

use vstd::prelude::*;

verus! {

/// Number of 16-bit words in `data`, the last one padded with a zero byte
/// when the length is odd.
pub open spec fn word_count(data: Seq<u8>) -> nat {
    ((data.len() + 1) / 2) as nat
}

/// The big-endian 16-bit word at word index `i` (a missing low byte reads as zero).
pub open spec fn word_at(data: Seq<u8>, i: int) -> nat {
    if 2 * i + 1 < data.len() {
        (data[2 * i] as nat) * 256 + (data[2 * i + 1] as nat)
    } else if 2 * i < data.len() {
        (data[2 * i] as nat) * 256
    } else {
        0
    }
}

/// Sum of the first `n` words of `data`, reading word `skip` as zero.
pub open spec fn word_sum(data: Seq<u8>, skip: int, n: nat) -> nat
    decreases n,
{
    if n == 0 {
        0
    } else {
        word_sum(data, skip, (n - 1) as nat) + if n - 1 == skip {
            0
        } else {
            word_at(data, n - 1)
        }
    }
}

/// Adds the carry above bit 16 back into the low 16 bits.
pub open spec fn fold_carry(sum: nat) -> nat {
    sum / 65536 + sum % 65536
}

/// The Internet checksum of `data`, word `skip` read as zero (`skip` outside
/// the words skips nothing): the complement of the carry-folded word sum.
/// Empty data has checksum zero.
pub open spec fn internet_checksum(data: Seq<u8>, skip: int) -> nat {
    if data.len() == 0 {
        0
    } else {
        (65535 - fold_carry(fold_carry(word_sum(data, skip, word_count(data))))) as nat
    }
}

/// Relies on pnet::packet::util::checksum: the Internet checksum of `data`
/// with the word at index `skipword` regarded as zero. Its 32-bit running sum
/// cannot overflow for data of at most 65535 bytes.
#[verifier::external_body]
pub(crate) fn checksum_skipping(data: &[u8], skipword: usize) -> (r: u16)
    requires
        data@.len() <= 65535,
    ensures
        r as nat == internet_checksum(data@, skipword as int),
{
    pnet::packet::util::checksum(data, skipword)
}

} // verus!
