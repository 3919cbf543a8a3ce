//! Shared building blocks of the wire formats: little-endian multi-byte
//! fields and zero padding.

use vstd::prelude::*;

verus! {

/// The two little-endian wire bytes of a 16-bit value.
pub open spec fn spec_u16_le(v: u16) -> Seq<u8> {
    seq![(v % 256) as u8, ((v / 256) % 256) as u8]
}

/// A run of zero bytes of the given length.
pub open spec fn spec_zeros(n: nat) -> Seq<u8> {
    Seq::new(n, |i: int| 0u8)
}

/// Appends a 16-bit value in little-endian order.
pub fn push_u16_le(d: &mut Vec<u8>, v: u16)
    ensures
        final(d)@ == old(d)@ + spec_u16_le(v),
{
    d.push((v % 256) as u8);
    d.push(((v / 256) % 256) as u8);
    assert(d@ =~= old(d)@ + spec_u16_le(v));
}

/// Appends zero bytes until the buffer is `n` bytes long.
pub fn pad_to(d: &mut Vec<u8>, n: usize)
    requires
        old(d)@.len() <= n,
    ensures
        final(d)@ == old(d)@ + spec_zeros((n - old(d)@.len()) as nat),
        final(d)@.len() == n,
{
    while d.len() < n
        invariant
            old(d)@.len() <= d@.len() <= n,
            d@ =~= old(d)@ + spec_zeros((d@.len() - old(d)@.len()) as nat),
        decreases n - d@.len(),
    {
        d.push(0);
    }
    assert(d@ =~= old(d)@ + spec_zeros((n - old(d)@.len()) as nat));
}

/// Copies a byte buffer.
pub fn clone_bytes(v: &Vec<u8>) -> (r: Vec<u8>)
    ensures
        r@ == v@,
{
    let r = v.clone();
    assert(r@ =~= v@);
    r
}

} // verus!
