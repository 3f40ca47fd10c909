//! Byte encodings of integers: fixed-width big-endian and ASCII decimal.
use vstd::prelude::*;

verus! {

/// The byte of `x` that starts `shift` bits above its least significant bit.
pub open spec fn byte_at(x: u64, shift: u64) -> u8 {
    ((x >> shift) & 0xff) as u8
}

/// The eight bytes of `x`, most significant first.
pub open spec fn be_bytes(x: u64) -> Seq<u8> {
    seq![
        byte_at(x, 56),
        byte_at(x, 48),
        byte_at(x, 40),
        byte_at(x, 32),
        byte_at(x, 24),
        byte_at(x, 16),
        byte_at(x, 8),
        byte_at(x, 0),
    ]
}

/// The eight bytes of `x`, least significant first.
pub open spec fn le_bytes(x: u64) -> Seq<u8> {
    seq![
        byte_at(x, 0),
        byte_at(x, 8),
        byte_at(x, 16),
        byte_at(x, 24),
        byte_at(x, 32),
        byte_at(x, 40),
        byte_at(x, 48),
        byte_at(x, 56),
    ]
}

/// The ASCII digits of `n` in base ten, without leading zeros ("0" for zero).
pub open spec fn decimal_digits(n: nat) -> Seq<u8>
    decreases n,
{
    if n < 10 {
        seq![(n + 48) as u8]
    } else {
        decimal_digits(n / 10).push((n % 10 + 48) as u8)
    }
}

/// The byte of `x` that starts `shift` bits above its least significant bit.
fn byte_of(x: u64, shift: u64) -> (r: u8)
    requires
        shift < 64,
    ensures
        r == byte_at(x, shift),
{
    let b: u64 = (x >> shift) & 0xff;
    assert(b < 256) by (bit_vector)
        requires
            b == (x >> shift) & 0xff,
    ;
    b as u8
}

/// Appends the big-endian bytes of `x` to `out`.
pub fn push_be_u64(out: &mut Vec<u8>, x: u64)
    ensures
        final(out)@ == old(out)@ + be_bytes(x),
{
    out.push(byte_of(x, 56));
    out.push(byte_of(x, 48));
    out.push(byte_of(x, 40));
    out.push(byte_of(x, 32));
    out.push(byte_of(x, 24));
    out.push(byte_of(x, 16));
    out.push(byte_of(x, 8));
    out.push(byte_of(x, 0));
    assert(out@ =~= old(out)@ + be_bytes(x));
}

/// The ASCII decimal representation of `n`.
pub fn decimal_ascii(n: usize) -> (r: Vec<u8>)
    ensures
        r@ == decimal_digits(n as nat),
    decreases n,
{
    if n < 10 {
        let mut r: Vec<u8> = Vec::new();
        r.push(n as u8 + 48);
        r
    } else {
        let mut r = decimal_ascii(n / 10);
        r.push((n % 10) as u8 + 48);
        r
    }
}

} // verus!
