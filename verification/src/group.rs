//! The two protocol roles of the hybrid group.
//!
//! The initiator generates a fresh key pair of each primitive and serializes
//! the combined share; later, consuming its ephemeral state, it completes
//! the exchange from the peer's combined ciphertext. The responder has no
//! persisted state: it answers a share with a ciphertext and the completed
//! secret in one atomic step.

use vstd::prelude::*;

use aws_lc_rs::agreement;

use crate::codec::{CombinedShare, ReceivedCiphertext, ReceivedShare, encode_share};
use crate::lengths::{
    COMBINED_CIPHERTEXT_LEN, COMBINED_PUBKEY_LEN, MLKEM768_CIPHERTEXT_LEN, MLKEM768_ENCAP_LEN,
    MLKEM768_SECRET_LEN, NAMED_GROUP, TLS13_VERSION, X25519_LEN,
};
use crate::primitives::{
    MlKemDecapsulationKey, mlkem_decapsulate, mlkem_encapsulate, mlkem_encapsulation_key,
    mlkem_generate, mlkem_key_bytes, mlkem_new_encapsulation_key, x25519_agree, x25519_generate,
    x25519_public_key,
};
use crate::secret::CombinedSecret;

verus! {

/// The two failure conditions of the group. Entropy or key-generation
/// failure is a local fault; every failure caused by the peer's material is
/// the one indistinguishable invalid-key-share condition, whichever
/// primitive rejected it.
#[derive(Clone, Copy, Debug, PartialEq, Eq, Structural)]
pub enum KxError {
    FailedToGetRandomBytes,
    InvalidKeyShare,
}

/// The X25519MLKEM768 hybrid key exchange group.
pub struct X25519MLKEM768;

/// The responder's whole answer: the group code, the serialized combined
/// ciphertext, and the completed combined secret.
pub struct CompletedKeyExchange {
    pub group: u16,
    pub pub_key: Vec<u8>,
    pub secret: CombinedSecret,
}

/// The initiator's ephemeral state between start and completion: the
/// classical private key, the KEM decapsulation key, and the serialized
/// combined share. Consumed by `complete`, so it can be used at most once.
pub struct Active {
    x25519: agreement::PrivateKey,
    decap_key: MlKemDecapsulationKey,
    combined_pub_key: Vec<u8>,
}

impl Active {
    /// The serialized combined share, as the peer will see it.
    pub closed spec fn share_bytes(self) -> Seq<u8> {
        self.combined_pub_key@
    }

    /// A well-formed state carries a share of exactly the fixed length.
    pub open spec fn wf(self) -> bool {
        self.share_bytes().len() == COMBINED_PUBKEY_LEN
    }

    /// The serialized combined share to send to the responder.
    pub fn pub_key(&self) -> (r: &Vec<u8>)
        ensures
            r@ == self.share_bytes(),
    {
        &self.combined_pub_key
    }

    /// The fixed group code; never computed dynamically.
    pub fn group(&self) -> (r: u16)
        ensures
            r == NAMED_GROUP,
    {
        NAMED_GROUP
    }

    /// Completes the exchange from the peer's combined ciphertext,
    /// consuming the ephemeral state. Every malformed-length buffer and
    /// every primitive rejection surfaces as the same invalid-key-share
    /// failure; on success the combined secret has the fixed length.
    pub fn complete(self, peer_ciphertext: &[u8]) -> (r: Result<CombinedSecret, KxError>)
        ensures
            peer_ciphertext@.len() != COMBINED_CIPHERTEXT_LEN ==> r is Err,
            r matches Err(e) ==> e == KxError::InvalidKeyShare,
            r matches Ok(s) ==> s.wf() && peer_ciphertext@.len() == COMBINED_CIPHERTEXT_LEN,
    {
        let ciphertext = match ReceivedCiphertext::new(peer_ciphertext) {
            Some(c) => c,
            None => {
                return Err(KxError::InvalidKeyShare);
            },
        };
        let x25519_secret = match x25519_agree(self.x25519, ciphertext.x25519.as_slice()) {
            Some(s) => s,
            None => {
                return Err(KxError::InvalidKeyShare);
            },
        };
        if x25519_secret.len() != X25519_LEN {
            return Err(KxError::InvalidKeyShare);
        }
        let ml_kem_secret = match mlkem_decapsulate(&self.decap_key, ciphertext.ml_kem.as_slice()) {
            Some(s) => s,
            None => {
                return Err(KxError::InvalidKeyShare);
            },
        };
        if ml_kem_secret.len() != MLKEM768_SECRET_LEN {
            return Err(KxError::InvalidKeyShare);
        }
        Ok(CombinedSecret::combine(x25519_secret.as_slice(), ml_kem_secret.as_slice()))
    }
}

impl X25519MLKEM768 {
    /// Starts the initiator role: generates a fresh classical key pair and a
    /// fresh KEM key pair and serializes the combined share. Fails only on a
    /// local key-generation fault, reported as such.
    pub fn start(&self) -> (r: Result<Active, KxError>)
        ensures
            r matches Ok(a) ==> a.wf(),
            r matches Err(e) ==> e == KxError::FailedToGetRandomBytes,
    {
        let x25519 = match x25519_generate() {
            Some(k) => k,
            None => {
                return Err(KxError::FailedToGetRandomBytes);
            },
        };
        let x25519_pub = match x25519_public_key(&x25519) {
            Some(b) => b,
            None => {
                return Err(KxError::FailedToGetRandomBytes);
            },
        };
        if x25519_pub.len() != X25519_LEN {
            return Err(KxError::FailedToGetRandomBytes);
        }
        let decap_key = match mlkem_generate() {
            Some(k) => k,
            None => {
                return Err(KxError::FailedToGetRandomBytes);
            },
        };
        let encap_key = match mlkem_encapsulation_key(&decap_key) {
            Some(k) => k,
            None => {
                return Err(KxError::FailedToGetRandomBytes);
            },
        };
        let ml_kem_pub = match mlkem_key_bytes(&encap_key) {
            Some(b) => b,
            None => {
                return Err(KxError::FailedToGetRandomBytes);
            },
        };
        if ml_kem_pub.len() != MLKEM768_ENCAP_LEN {
            return Err(KxError::FailedToGetRandomBytes);
        }
        let combined_pub_key = encode_share(ml_kem_pub.as_slice(), x25519_pub.as_slice());
        Ok(Active { x25519, decap_key, combined_pub_key })
    }

    /// The responder role, in one atomic step: decodes the share, runs the
    /// classical exchange, encapsulates against the peer's KEM key, and
    /// returns the encoded combined ciphertext beside the combined secret.
    /// Every wrong-length share is rejected as an invalid key share, and so
    /// is every share either primitive rejects.
    pub fn start_and_complete(&self, client_share: &[u8]) -> (r: Result<
        CompletedKeyExchange,
        KxError,
    >)
        ensures
            client_share@.len() != COMBINED_PUBKEY_LEN ==> (r matches Err(e) && e
                == KxError::InvalidKeyShare),
            r matches Ok(c) ==> {
                &&& client_share@.len() == COMBINED_PUBKEY_LEN
                &&& c.group == NAMED_GROUP
                &&& c.pub_key@.len() == COMBINED_CIPHERTEXT_LEN
                &&& c.secret.wf()
            },
    {
        let share = match ReceivedShare::new(client_share) {
            Some(s) => s,
            None => {
                return Err(KxError::InvalidKeyShare);
            },
        };
        let x25519 = match x25519_generate() {
            Some(k) => k,
            None => {
                return Err(KxError::FailedToGetRandomBytes);
            },
        };
        let x25519_pub = match x25519_public_key(&x25519) {
            Some(b) => b,
            None => {
                return Err(KxError::FailedToGetRandomBytes);
            },
        };
        if x25519_pub.len() != X25519_LEN {
            return Err(KxError::FailedToGetRandomBytes);
        }
        let x25519_secret = match x25519_agree(x25519, share.x25519.as_slice()) {
            Some(s) => s,
            None => {
                return Err(KxError::InvalidKeyShare);
            },
        };
        if x25519_secret.len() != X25519_LEN {
            return Err(KxError::InvalidKeyShare);
        }
        let encap_key = match mlkem_new_encapsulation_key(share.ml_kem.as_slice()) {
            Some(k) => k,
            None => {
                return Err(KxError::InvalidKeyShare);
            },
        };
        let (ml_kem_share, ml_kem_secret) = match mlkem_encapsulate(&encap_key) {
            Some(p) => p,
            None => {
                return Err(KxError::InvalidKeyShare);
            },
        };
        if ml_kem_share.len() != MLKEM768_CIPHERTEXT_LEN {
            return Err(KxError::InvalidKeyShare);
        }
        if ml_kem_secret.len() != MLKEM768_SECRET_LEN {
            return Err(KxError::InvalidKeyShare);
        }
        let combined_secret = CombinedSecret::combine(
            x25519_secret.as_slice(),
            ml_kem_secret.as_slice(),
        );
        let combined_share = CombinedShare::combine(
            x25519_pub.as_slice(),
            ml_kem_share.as_slice(),
        );
        Ok(
            CompletedKeyExchange {
                group: NAMED_GROUP,
                pub_key: combined_share.0,
                secret: combined_secret,
            },
        )
    }

    /// The fixed group code; never computed dynamically.
    pub fn name(&self) -> (r: u16)
        ensures
            r == NAMED_GROUP,
    {
        NAMED_GROUP
    }

    /// Law: this group negotiates under exactly one protocol version.
    /// True for the TLS 1.3 code and false for every other version value.
    pub fn usable_for_version(&self, version: u16) -> (r: bool)
        ensures
            r <==> version == TLS13_VERSION,
    {
        version == TLS13_VERSION
    }
}

} // verus!
