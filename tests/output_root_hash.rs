use output_root_hash::compute_output_root_message_hash;
use output_root_hash::encoding::{decimal_ascii, push_be_u64};
use output_root_hash::message::{eip191_prefix, eip191_preimage, encode_output_root_message};

fn digest_hex(root: &[u8; 32], block: u64, count: u64) -> String {
    hex::encode(compute_output_root_message_hash(root, block, count))
}

fn sample_root() -> [u8; 32] {
    [
        0xd2, 0xcb, 0xe8, 0xc1, 0x85, 0xb6, 0x9c, 0x03, 0x12, 0x22, 0x9a, 0x23, 0xd8, 0xf4, 0xed,
        0x6c, 0x4c, 0x18, 0xb7, 0x78, 0xaf, 0x61, 0xce, 0x3f, 0x75, 0x5c, 0x9c, 0x2c, 0x1e, 0x6c,
        0x23, 0xee,
    ]
}

fn deadbeef_root() -> [u8; 32] {
    let mut root = [0u8; 32];
    root[0] = 0xde;
    root[1] = 0xad;
    root[2] = 0xbe;
    root[3] = 0xef;
    root
}

#[test]
fn known_vector_sample_root() {
    assert_eq!(
        digest_hex(&sample_root(), 30624374, 2),
        "30cd7c7b9743dbc342e5251d13d0631a6ca2feb2536a58307db780bd15e373d7"
    );
}

#[test]
fn known_vector_all_zero() {
    assert_eq!(
        digest_hex(&[0u8; 32], 0, 0),
        "1744927072a444377e1fc1e1da71a46e163d301f6bc0501a27de3be902a0b448"
    );
}

#[test]
fn known_vector_all_max() {
    assert_eq!(
        digest_hex(&[0xffu8; 32], u64::MAX, u64::MAX),
        "a73bb889690244d2f5de2e9683dd74ce55945bb996793f30868ef5cec660afb0"
    );
}

#[test]
fn known_vector_deadbeef_root() {
    assert_eq!(
        digest_hex(&deadbeef_root(), 1000000, 50),
        "ff767461084c03cada5e96a4cfbf441e7e520a43f678816236dba542c9d2d8a4"
    );
}

#[test]
fn repeated_calls_agree() {
    let root = sample_root();
    let first = compute_output_root_message_hash(&root, 30624374, 2);
    let second = compute_output_root_message_hash(&root, 30624374, 2);
    assert_eq!(first, second);
}

#[test]
fn canonical_message_layout() {
    let message = encode_output_root_message(&sample_root(), 30624374, 2);
    assert_eq!(message.len(), 48);
    assert_eq!(&message[..32], &sample_root()[..]);
    assert_eq!(&message[32..40], &[0, 0, 0, 0, 0x01, 0xd3, 0x4a, 0x76]);
    assert_eq!(&message[40..], &[0, 0, 0, 0, 0, 0, 0, 2]);
}

#[test]
fn canonical_message_of_max_values() {
    let message = encode_output_root_message(&[0xffu8; 32], u64::MAX, u64::MAX);
    assert_eq!(message, vec![0xffu8; 48]);
}

#[test]
fn preimage_is_76_bytes_for_any_integers() {
    for (block, count) in [(0u64, 0u64), (1, u64::MAX), (u64::MAX, 7), (30624374, 2)] {
        let message = encode_output_root_message(&deadbeef_root(), block, count);
        let preimage = eip191_preimage(&message);
        assert_eq!(preimage.len(), 76);
        assert_eq!(&preimage[26..28], b"48");
        assert_eq!(&preimage[28..], &message[..]);
    }
}

#[test]
fn prefix_bytes() {
    assert_eq!(eip191_prefix(), b"\x19Ethereum Signed Message:\n".to_vec());
    assert_eq!(eip191_prefix().len(), 26);
}

#[test]
fn preimage_of_empty_message() {
    assert_eq!(eip191_preimage(&[]), b"\x19Ethereum Signed Message:\n0".to_vec());
}

#[test]
fn preimage_of_short_message() {
    assert_eq!(eip191_preimage(b"abc"), b"\x19Ethereum Signed Message:\n3abc".to_vec());
}

#[test]
fn decimal_ascii_values() {
    assert_eq!(decimal_ascii(0), b"0".to_vec());
    assert_eq!(decimal_ascii(9), b"9".to_vec());
    assert_eq!(decimal_ascii(10), b"10".to_vec());
    assert_eq!(decimal_ascii(48), b"48".to_vec());
    assert_eq!(decimal_ascii(1000), b"1000".to_vec());
    assert_eq!(decimal_ascii(usize::MAX), usize::MAX.to_string().into_bytes());
}

#[test]
fn big_endian_append() {
    let mut out = vec![7u8];
    push_be_u64(&mut out, 0x0102030405060708);
    assert_eq!(out, vec![7, 1, 2, 3, 4, 5, 6, 7, 8]);
}

#[test]
fn little_endian_layout_gives_another_digest() {
    let root = sample_root();
    let mut message = root.to_vec();
    message.extend_from_slice(&30624374u64.to_le_bytes());
    message.extend_from_slice(&2u64.to_le_bytes());
    let le_digest = anchor_lang::solana_program::keccak::hash(&eip191_preimage(&message)).0;
    assert_eq!(
        hex::encode(le_digest),
        "d3d77c7fbf6ff9f6de4908d7f3ca434a7079ce242630e8e1d079b8980f65a721"
    );
    assert_ne!(le_digest, compute_output_root_message_hash(&root, 30624374, 2));
}

#[test]
fn flipping_a_root_bit_changes_digest() {
    let root = sample_root();
    let base = compute_output_root_message_hash(&root, 30624374, 2);
    for byte in [0usize, 15, 31] {
        for bit in [0u8, 7] {
            let mut flipped = root;
            flipped[byte] ^= 1 << bit;
            assert_ne!(compute_output_root_message_hash(&flipped, 30624374, 2), base);
        }
    }
}

#[test]
fn neighbouring_integers_change_digest() {
    let root = sample_root();
    let base = compute_output_root_message_hash(&root, 30624374, 2);
    assert_ne!(compute_output_root_message_hash(&root, 30624375, 2), base);
    assert_ne!(compute_output_root_message_hash(&root, 30624373, 2), base);
    assert_ne!(compute_output_root_message_hash(&root, 30624374, 3), base);
    assert_ne!(compute_output_root_message_hash(&root, 30624374, 1), base);
}

#[test]
fn swapping_block_and_count_changes_digest() {
    let root = sample_root();
    assert_ne!(
        compute_output_root_message_hash(&root, 30624374, 2),
        compute_output_root_message_hash(&root, 2, 30624374)
    );
}
