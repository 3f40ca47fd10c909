//! Facts about the message construction, proved over its spec functions.
use vstd::prelude::*;

use crate::encoding::{be_bytes, byte_at, decimal_digits, le_bytes};
use crate::message::{
    canonical_message, output_root_message_hash, signed_message_prefix, signed_message_preimage,
};

verus! {

/// Equal big-endian encodings come only from equal integers.
pub proof fn lemma_be_bytes_injective(x: u64, y: u64)
    requires
        be_bytes(x) == be_bytes(y),
    ensures
        x == y,
{
    assert(byte_at(x, 56) == be_bytes(x)[0] && byte_at(y, 56) == be_bytes(y)[0]);
    assert(byte_at(x, 48) == be_bytes(x)[1] && byte_at(y, 48) == be_bytes(y)[1]);
    assert(byte_at(x, 40) == be_bytes(x)[2] && byte_at(y, 40) == be_bytes(y)[2]);
    assert(byte_at(x, 32) == be_bytes(x)[3] && byte_at(y, 32) == be_bytes(y)[3]);
    assert(byte_at(x, 24) == be_bytes(x)[4] && byte_at(y, 24) == be_bytes(y)[4]);
    assert(byte_at(x, 16) == be_bytes(x)[5] && byte_at(y, 16) == be_bytes(y)[5]);
    assert(byte_at(x, 8) == be_bytes(x)[6] && byte_at(y, 8) == be_bytes(y)[6]);
    assert(byte_at(x, 0) == be_bytes(x)[7] && byte_at(y, 0) == be_bytes(y)[7]);
    assert(x == y) by (bit_vector)
        requires
            ((x >> 56) & 0xff) as u8 == ((y >> 56) & 0xff) as u8,
            ((x >> 48) & 0xff) as u8 == ((y >> 48) & 0xff) as u8,
            ((x >> 40) & 0xff) as u8 == ((y >> 40) & 0xff) as u8,
            ((x >> 32) & 0xff) as u8 == ((y >> 32) & 0xff) as u8,
            ((x >> 24) & 0xff) as u8 == ((y >> 24) & 0xff) as u8,
            ((x >> 16) & 0xff) as u8 == ((y >> 16) & 0xff) as u8,
            ((x >> 8) & 0xff) as u8 == ((y >> 8) & 0xff) as u8,
            ((x >> 0) & 0xff) as u8 == ((y >> 0) & 0xff) as u8,
    ;
}

/// The decimal length field of a 48-byte message is the two characters "48".
pub proof fn lemma_decimal_digits_48()
    ensures
        decimal_digits(48) == seq![0x34u8, 0x38u8],
{
    reveal_with_fuel(decimal_digits, 2);
    assert(decimal_digits(48) =~= seq![0x34u8, 0x38u8]);
}

/// The canonical message is always 48 bytes, and what is hashed is always the
/// 26-byte prefix, the two digits "48" and the message: 76 bytes, whatever the
/// integers.
pub proof fn lemma_message_lengths(output_root: Seq<u8>, base_block_number: u64, total_leaf_count: u64)
    requires
        output_root.len() == 32,
    ensures
        canonical_message(output_root, base_block_number, total_leaf_count).len() == 48,
        signed_message_prefix().len() == 26,
        decimal_digits(48) == seq![0x34u8, 0x38u8],
        signed_message_preimage(canonical_message(output_root, base_block_number, total_leaf_count)).len() == 76,
{
    lemma_decimal_digits_48();
}

/// The digest is a function of the three inputs: equal inputs give equal digests.
pub proof fn lemma_hash_deterministic(
    root1: Seq<u8>,
    block1: u64,
    count1: u64,
    root2: Seq<u8>,
    block2: u64,
    count2: u64,
)
    requires
        root1 == root2,
        block1 == block2,
        count1 == count2,
    ensures
        output_root_message_hash(root1, block1, count1) == output_root_message_hash(root2, block2, count2),
{
}

/// Different inputs give different bytes to hash: a root that differs in any
/// bit, or a block number or leaf count that differs by any amount, changes the
/// preimage of the digest.
pub proof fn lemma_preimage_injective(
    root1: Seq<u8>,
    block1: u64,
    count1: u64,
    root2: Seq<u8>,
    block2: u64,
    count2: u64,
)
    requires
        root1.len() == 32,
        root2.len() == 32,
        root1 != root2 || block1 != block2 || count1 != count2,
    ensures
        signed_message_preimage(canonical_message(root1, block1, count1))
            != signed_message_preimage(canonical_message(root2, block2, count2)),
{
    let m1 = canonical_message(root1, block1, count1);
    let m2 = canonical_message(root2, block2, count2);
    let p1 = signed_message_preimage(m1);
    let p2 = signed_message_preimage(m2);
    lemma_message_lengths(root1, block1, count1);
    lemma_message_lengths(root2, block2, count2);
    if p1 == p2 {
        assert(p1.subrange(28, 76) =~= m1);
        assert(p2.subrange(28, 76) =~= m2);
        assert(m1.subrange(0, 32) =~= root1);
        assert(m2.subrange(0, 32) =~= root2);
        assert(m1.subrange(32, 40) =~= be_bytes(block1));
        assert(m2.subrange(32, 40) =~= be_bytes(block2));
        assert(m1.subrange(40, 48) =~= be_bytes(count1));
        assert(m2.subrange(40, 48) =~= be_bytes(count2));
        lemma_be_bytes_injective(block1, block2);
        lemma_be_bytes_injective(count1, count2);
    }
}

/// Writing the integers least significant byte first instead of most
/// significant first changes the bytes that are hashed, for every integer whose
/// two byte orders differ.
pub proof fn lemma_byte_order_matters(output_root: Seq<u8>, base_block_number: u64, total_leaf_count: u64)
    requires
        output_root.len() == 32,
        be_bytes(base_block_number) != le_bytes(base_block_number)
            || be_bytes(total_leaf_count) != le_bytes(total_leaf_count),
    ensures
        signed_message_preimage(canonical_message(output_root, base_block_number, total_leaf_count))
            != signed_message_preimage(
            output_root + le_bytes(base_block_number) + le_bytes(total_leaf_count),
        ),
{
    let m1 = canonical_message(output_root, base_block_number, total_leaf_count);
    let m2 = output_root + le_bytes(base_block_number) + le_bytes(total_leaf_count);
    let p1 = signed_message_preimage(m1);
    let p2 = signed_message_preimage(m2);
    lemma_message_lengths(output_root, base_block_number, total_leaf_count);
    assert(m2.len() == 48);
    if p1 == p2 {
        assert(p1.subrange(28, 76) =~= m1);
        assert(p2.subrange(28, 76) =~= m2);
        assert(m1.subrange(32, 40) =~= be_bytes(base_block_number));
        assert(m2.subrange(32, 40) =~= le_bytes(base_block_number));
        assert(m1.subrange(40, 48) =~= be_bytes(total_leaf_count));
        assert(m2.subrange(40, 48) =~= le_bytes(total_leaf_count));
    }
}

} // verus!
