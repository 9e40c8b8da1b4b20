//! Trusted declarations for the two underlying primitives.
//!
//! The X25519 exchange and the ML-KEM-768 mechanism are capability
//! providers, not part of the verified logic: each call goes through one
//! declaration here whose contract states only what the provider's own
//! source shows. Key values are opaque; every byte string that crosses the
//! boundary is length-checked by the verified callers.

use vstd::prelude::*;

use aws_lc_rs::agreement;
use aws_lc_rs::kem;

use crate::lengths::MLKEM768_ENCAP_LEN;

verus! {

#[verifier::external_type_specification]
#[verifier::external_body]
pub struct ExPrivateKey(agreement::PrivateKey);

/// An opaque handle on an ML-KEM decapsulation key of the provider.
/// Held whole because the provider's generic key type cannot be declared
/// to the verifier on its own.
#[verifier::external_body]
pub struct MlKemDecapsulationKey {
    inner: kem::DecapsulationKey<kem::AlgorithmId>,
}

/// An opaque handle on an ML-KEM encapsulation key of the provider.
#[verifier::external_body]
pub struct MlKemEncapsulationKey {
    inner: kem::EncapsulationKey<kem::AlgorithmId>,
}

/// Relies on aws_lc_rs::agreement::PrivateKey::generate with the X25519
/// algorithm: a fresh ephemeral private key, or a failure of the local
/// entropy source. Nothing can be promised of a freshly drawn key.
#[verifier::external_body]
pub(crate) fn x25519_generate() -> (r: Option<agreement::PrivateKey>) {
    agreement::PrivateKey::generate(&agreement::X25519).ok()
}

/// Relies on aws_lc_rs::agreement::PrivateKey::compute_public_key: the raw
/// public-key bytes of the private key's own algorithm. The caller checks
/// the length it needs.
#[verifier::external_body]
pub(crate) fn x25519_public_key(private_key: &agreement::PrivateKey) -> (r: Option<Vec<u8>>) {
    private_key.compute_public_key().ok().map(|k| k.as_ref().to_vec())
}

/// Relies on aws_lc_rs::agreement::agree with the X25519 algorithm: the raw
/// shared secret of the two keys, or a failure for a peer key the algorithm
/// rejects. The private key is consumed; the caller checks the secret's
/// length.
#[verifier::external_body]
pub(crate) fn x25519_agree(private_key: agreement::PrivateKey, peer_public: &[u8]) -> (r: Option<
    Vec<u8>,
>) {
    agreement::agree(
        &private_key,
        agreement::UnparsedPublicKey::new(&agreement::X25519, peer_public),
        aws_lc_rs::error::Unspecified,
        |secret: &[u8]| Ok(secret.to_vec()),
    ).ok()
}

/// Relies on aws_lc_rs::kem::DecapsulationKey::generate with the ML-KEM-768
/// algorithm: a fresh decapsulation key, or a failure of the local entropy
/// source. Nothing can be promised of a freshly drawn key.
#[verifier::external_body]
pub(crate) fn mlkem_generate() -> (r: Option<MlKemDecapsulationKey>) {
    kem::DecapsulationKey::generate(&kem::ML_KEM_768).ok().map(
        |k| MlKemDecapsulationKey { inner: k },
    )
}

/// Relies on aws_lc_rs::kem::DecapsulationKey::encapsulation_key: the
/// encapsulation key that belongs to this decapsulation key.
#[verifier::external_body]
pub(crate) fn mlkem_encapsulation_key(
    decapsulation_key: &MlKemDecapsulationKey,
) -> (r: Option<MlKemEncapsulationKey>) {
    decapsulation_key.inner.encapsulation_key().ok().map(
        |k| MlKemEncapsulationKey { inner: k },
    )
}

/// Relies on aws_lc_rs::kem::EncapsulationKey::key_bytes: the raw bytes of
/// the encapsulation key. The caller checks the length it needs.
#[verifier::external_body]
pub(crate) fn mlkem_key_bytes(encapsulation_key: &MlKemEncapsulationKey) -> (r: Option<Vec<u8>>) {
    encapsulation_key.inner.key_bytes().ok().map(|b| b.as_ref().to_vec())
}

/// Relies on aws_lc_rs::kem::EncapsulationKey::new with the ML-KEM-768
/// algorithm, whose source rejects every byte string that is not exactly
/// the ML-KEM-768 encapsulation-key length.
#[verifier::external_body]
pub(crate) fn mlkem_new_encapsulation_key(bytes: &[u8]) -> (r: Option<MlKemEncapsulationKey>)
    ensures
        bytes@.len() != MLKEM768_ENCAP_LEN ==> r is None,
{
    kem::EncapsulationKey::new(&kem::ML_KEM_768, bytes).ok().map(
        |k| MlKemEncapsulationKey { inner: k },
    )
}

/// Relies on aws_lc_rs::kem::EncapsulationKey::encapsulate: a fresh
/// ciphertext and the shared secret it carries, or a generic failure.
/// Nothing can be promised of the freshly drawn pair; the caller checks
/// both lengths.
#[verifier::external_body]
pub(crate) fn mlkem_encapsulate(
    encapsulation_key: &MlKemEncapsulationKey,
) -> (r: Option<(Vec<u8>, Vec<u8>)>) {
    encapsulation_key.inner.encapsulate().ok().map(
        |(ct, ss)| (ct.as_ref().to_vec(), ss.as_ref().to_vec()),
    )
}

/// Relies on aws_lc_rs::kem::DecapsulationKey::decapsulate: the shared
/// secret the ciphertext carries for this key, or a generic failure for a
/// malformed ciphertext. The caller checks the secret's length.
#[verifier::external_body]
pub(crate) fn mlkem_decapsulate(
    decapsulation_key: &MlKemDecapsulationKey,
    ciphertext: &[u8],
) -> (r: Option<Vec<u8>>) {
    decapsulation_key.inner.decapsulate(kem::Ciphertext::from(ciphertext)).ok().map(
        |ss| ss.as_ref().to_vec(),
    )
}

} // verus!
