//! Hybrid X25519MLKEM768 key exchange for TLS 1.3.
//!
//! The crate combines a classical X25519 exchange with the ML-KEM-768
//! key-encapsulation mechanism into one negotiable key-exchange group.
//! The wire layouts of the combined share, the combined ciphertext and the
//! combined secret, together with the two protocol roles, are stated in
//! contracts and verified; the underlying primitives are called through a
//! small set of trusted declarations.

pub mod codec;
pub mod group;
pub mod lengths;
mod primitives;
pub mod secret;

pub use codec::{CombinedShare, ReceivedCiphertext, ReceivedShare};
pub use group::{Active, CompletedKeyExchange, KxError, X25519MLKEM768};
pub use lengths::{
    COMBINED_CIPHERTEXT_LEN, COMBINED_PUBKEY_LEN, COMBINED_SHARED_SECRET_LEN,
    MLKEM768_CIPHERTEXT_LEN, MLKEM768_ENCAP_LEN, MLKEM768_SECRET_LEN, NAMED_GROUP, TLS13_VERSION,
    X25519_LEN,
};
pub use secret::CombinedSecret;
