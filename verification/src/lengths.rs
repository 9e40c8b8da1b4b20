//! The fixed wire lengths of the hybrid group, each combined length derived
//! once from the primitive lengths.

use vstd::prelude::*;

verus! {

/// Length in bytes of an X25519 public key, and of an X25519 shared secret.
pub const X25519_LEN: usize = 32;

/// Length in bytes of an ML-KEM-768 ciphertext.
pub const MLKEM768_CIPHERTEXT_LEN: usize = 1088;

/// Length in bytes of an ML-KEM-768 encapsulation key.
pub const MLKEM768_ENCAP_LEN: usize = 1184;

/// Length in bytes of an ML-KEM-768 shared secret.
pub const MLKEM768_SECRET_LEN: usize = 32;

/// Length in bytes of the combined public share: KEM encapsulation key,
/// then classical public key.
pub const COMBINED_PUBKEY_LEN: usize = MLKEM768_ENCAP_LEN + X25519_LEN;

/// Length in bytes of the combined ciphertext: KEM ciphertext, then the
/// responder's classical public key.
pub const COMBINED_CIPHERTEXT_LEN: usize = MLKEM768_CIPHERTEXT_LEN + X25519_LEN;

/// Length in bytes of the combined shared secret: KEM secret, then
/// classical secret.
pub const COMBINED_SHARED_SECRET_LEN: usize = MLKEM768_SECRET_LEN + X25519_LEN;

/// The 16-bit code under which peers negotiate this hybrid group.
pub const NAMED_GROUP: u16 = 0x11ec;

/// The 16-bit code of TLS 1.3, the one protocol version this group is for.
pub const TLS13_VERSION: u16 = 0x0304;

} // verus!
