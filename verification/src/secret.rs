//! The combined shared secret.
//!
//! The two raw secrets are joined by plain concatenation in a fixed,
//! order-sensitive layout: KEM secret in the low bytes, classical secret in
//! the high bytes. The layout is a protocol constant; the enclosing
//! handshake's key schedule does all further derivation.

use vstd::prelude::*;

use crate::codec::{append_bytes, concat_kem_classical, lemma_concat_layout};
use crate::lengths::{COMBINED_SHARED_SECRET_LEN, MLKEM768_SECRET_LEN, X25519_LEN};

verus! {

/// The pre-derivation combined shared secret, exactly
/// `COMBINED_SHARED_SECRET_LEN` bytes.
pub struct CombinedSecret(pub Vec<u8>);

impl CombinedSecret {
    /// A well-formed combined secret has exactly the fixed length.
    pub open spec fn wf(self) -> bool {
        self.0@.len() == COMBINED_SHARED_SECRET_LEN
    }

    /// Joins the two secrets: KEM secret into the low offset, classical
    /// secret into the high offset, regardless of argument order.
    pub fn combine(x25519: &[u8], ml_kem: &[u8]) -> (r: CombinedSecret)
        requires
            x25519@.len() == X25519_LEN,
            ml_kem@.len() == MLKEM768_SECRET_LEN,
        ensures
            r.0@ == concat_kem_classical(ml_kem@, x25519@),
            r.wf(),
    {
        let mut out: Vec<u8> = Vec::new();
        append_bytes(&mut out, ml_kem);
        append_bytes(&mut out, x25519);
        proof {
            assert(out@ =~= concat_kem_classical(ml_kem@, x25519@));
        }
        CombinedSecret(out)
    }
}

/// Law: bytes `[0, MLKEM768_SECRET_LEN)` of a combined secret are exactly
/// the KEM secret and bytes `[MLKEM768_SECRET_LEN, COMBINED_SHARED_SECRET_LEN)`
/// are exactly the classical secret.
pub proof fn lemma_secret_layout(kem: Seq<u8>, classical: Seq<u8>)
    requires
        kem.len() == MLKEM768_SECRET_LEN,
        classical.len() == X25519_LEN,
    ensures
        concat_kem_classical(kem, classical).len() == COMBINED_SHARED_SECRET_LEN,
        concat_kem_classical(kem, classical).subrange(0, MLKEM768_SECRET_LEN as int) == kem,
        concat_kem_classical(kem, classical).subrange(
            MLKEM768_SECRET_LEN as int,
            COMBINED_SHARED_SECRET_LEN as int,
        ) == classical,
{
    lemma_concat_layout(kem, classical);
}

} // verus!
