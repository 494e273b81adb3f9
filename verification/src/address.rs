//! Canonical 16-byte address buffers.
//!
//! Every event carries addresses in one fixed-size 16-byte buffer: an
//! IPv4 address occupies bytes 0-3 with the rest zeroed, an IPv6 address
//! fills all 16 bytes.

use vstd::prelude::*;

verus! {

/// The canonical 16-byte buffer holding an IPv4 quad: the quad in bytes
/// 0-3, zeroes in bytes 4-15.
pub open spec fn canonical_v4(quad: Seq<u8>) -> Seq<u8> {
    quad + Seq::new(12, |i: int| 0u8)
}

/// Embeds an IPv4 byte quad in a zero-padded 16-byte buffer.
pub fn canonicalize_ipv4(quad: &[u8; 4]) -> (r: [u8; 16])
    ensures
        r@ == canonical_v4(quad@),
{
    let r = [quad[0], quad[1], quad[2], quad[3], 0, 0, 0, 0, 0, 0, 0, 0, 0, 0, 0, 0];
    proof {
        assert(r@ =~= canonical_v4(quad@));
    }
    r
}

/// Reads the IPv4 quad back out of a 16-byte buffer. Only bytes 0-3 are
/// inspected: the result is stated over `buffer@.subrange(0, 4)` alone.
pub fn ipv4_quad(buffer: &[u8; 16]) -> (r: [u8; 4])
    ensures
        r@ == buffer@.subrange(0, 4),
{
    let r = [buffer[0], buffer[1], buffer[2], buffer[3]];
    proof {
        assert(r@ =~= buffer@.subrange(0, 4));
    }
    r
}

/// An IPv6 address already fills the buffer: canonicalization is the
/// identity.
pub fn canonicalize_ipv6(address: &[u8; 16]) -> (r: [u8; 16])
    ensures
        r@ == address@,
{
    *address
}

/// Round trip for IPv4: canonicalizing a quad and decoding the buffer
/// yields the original quad.
pub proof fn lemma_ipv4_round_trip(quad: Seq<u8>)
    requires
        quad.len() == 4,
    ensures
        canonical_v4(quad).subrange(0, 4) == quad,
{
    assert(canonical_v4(quad).subrange(0, 4) =~= quad);
}

/// Decoding with IPv4 family never inspects bytes 4-15: two buffers that
/// agree on bytes 0-3 decode to the same quad.
pub proof fn lemma_ipv4_decode_ignores_padding(a: Seq<u8>, b: Seq<u8>)
    requires
        a.len() == 16,
        b.len() == 16,
        forall|i: int| 0 <= i < 4 ==> a[i] == b[i],
    ensures
        a.subrange(0, 4) == b.subrange(0, 4),
{
    assert(a.subrange(0, 4) =~= b.subrange(0, 4));
}

} // verus!
