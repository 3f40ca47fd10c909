//! The output-root message, its EIP-191 framing, and its digest.
use vstd::prelude::*;

use crate::encoding::{be_bytes, decimal_ascii, decimal_digits, push_be_u64};
use crate::keccak::{keccak256, keccak256_digest};

verus! {

/// Byte length of the canonical message: root, block number and leaf count.
pub const MESSAGE_LEN: usize = 48;

/// The EIP-191 `personal_sign` prefix: the byte 0x19 followed by the ASCII text
/// `Ethereum Signed Message:` and a line feed.
pub open spec fn signed_message_prefix() -> Seq<u8> {
    seq![
        0x19u8,
        0x45, 0x74, 0x68, 0x65, 0x72, 0x65, 0x75, 0x6d,  // "Ethereum"
        0x20,
        0x53, 0x69, 0x67, 0x6e, 0x65, 0x64,  // "Signed"
        0x20,
        0x4d, 0x65, 0x73, 0x73, 0x61, 0x67, 0x65, 0x3a,  // "Message:"
        0x0a,
    ]
}

/// The canonical message: the output root, then the base block number and the
/// total leaf count, each as eight big-endian bytes.
pub open spec fn canonical_message(output_root: Seq<u8>, base_block_number: u64, total_leaf_count: u64) -> Seq<u8> {
    output_root + be_bytes(base_block_number) + be_bytes(total_leaf_count)
}

/// What is hashed for a message: the prefix, the message's length in ASCII
/// decimal, then the message itself.
pub open spec fn signed_message_preimage(message: Seq<u8>) -> Seq<u8> {
    signed_message_prefix() + decimal_digits(message.len()) + message
}

/// The digest bound to an output root, a base block number and a total leaf count.
pub open spec fn output_root_message_hash(output_root: Seq<u8>, base_block_number: u64, total_leaf_count: u64) -> Seq<u8> {
    keccak256(signed_message_preimage(canonical_message(output_root, base_block_number, total_leaf_count)))
}

/// Appends every byte of `src` to `out`, in order.
fn append_bytes(out: &mut Vec<u8>, src: &[u8])
    ensures
        final(out)@ == old(out)@ + src@,
{
    let n = src.len();
    let mut i: usize = 0;
    while i < n
        invariant
            n == src@.len(),
            i <= n,
            out@ == old(out)@ + src@.subrange(0, i as int),
        decreases n - i,
    {
        out.push(src[i]);
        i = i + 1;
        assert(out@ =~= old(out)@ + src@.subrange(0, i as int));
    }
    assert(src@.subrange(0, n as int) =~= src@);
}

/// The EIP-191 prefix as bytes.
pub fn eip191_prefix() -> (r: Vec<u8>)
    ensures
        r@ == signed_message_prefix(),
{
    let r: Vec<u8> = vec![
        0x19u8,
        0x45, 0x74, 0x68, 0x65, 0x72, 0x65, 0x75, 0x6d,
        0x20,
        0x53, 0x69, 0x67, 0x6e, 0x65, 0x64,
        0x20,
        0x4d, 0x65, 0x73, 0x73, 0x61, 0x67, 0x65, 0x3a,
        0x0a,
    ];
    assert(r@ =~= signed_message_prefix());
    r
}

/// Lays out the 48-byte canonical message for an output root, a base block
/// number and a total leaf count.
pub fn encode_output_root_message(output_root: &[u8; 32], base_block_number: u64, total_leaf_count: u64) -> (r: Vec<u8>)
    ensures
        r@ == canonical_message(output_root@, base_block_number, total_leaf_count),
        r@.len() == MESSAGE_LEN,
{
    let mut r: Vec<u8> = Vec::with_capacity(MESSAGE_LEN);
    append_bytes(&mut r, output_root.as_slice());
    push_be_u64(&mut r, base_block_number);
    push_be_u64(&mut r, total_leaf_count);
    r
}

/// Frames `message` as an EIP-191 signed message: prefix, decimal length, message.
pub fn eip191_preimage(message: &[u8]) -> (r: Vec<u8>)
    ensures
        r@ == signed_message_preimage(message@),
{
    let len_digits = decimal_ascii(message.len());
    let mut r = eip191_prefix();
    append_bytes(&mut r, len_digits.as_slice());
    append_bytes(&mut r, message);
    r
}

/// The Keccak-256 digest of the EIP-191 framing of the canonical message built
/// from `output_root`, `base_block_number` and `total_leaf_count`.
pub fn compute_output_root_message_hash(output_root: &[u8; 32], base_block_number: u64, total_leaf_count: u64) -> (r: [u8; 32])
    ensures
        r@ == output_root_message_hash(output_root@, base_block_number, total_leaf_count),
{
    let message = encode_output_root_message(output_root, base_block_number, total_leaf_count);
    let prefixed = eip191_preimage(message.as_slice());
    keccak256_digest(prefixed.as_slice())
}

} // verus!
