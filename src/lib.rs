//! Digest of an output root commitment, framed as an Ethereum signed message.
//!
//! An output root (32 bytes), a base block number and a total leaf count are laid
//! out as a fixed 48-byte message, wrapped in the `personal_sign` framing of
//! EIP-191, and hashed with Keccak-256.
pub mod encoding;
pub mod keccak;
pub mod laws;
pub mod message;

pub use message::compute_output_root_message_hash;
