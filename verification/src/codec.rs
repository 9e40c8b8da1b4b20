//! Codec for the combined share and the combined ciphertext.
//!
//! Every buffer of this protocol is the concatenation of a KEM part and a
//! classical part, in that fixed order, with exactly one valid total length;
//! any other length is malformed and is never partially parsed.

use vstd::prelude::*;
use vstd::slice::slice_to_vec;

use crate::lengths::{
    COMBINED_CIPHERTEXT_LEN, COMBINED_PUBKEY_LEN, MLKEM768_CIPHERTEXT_LEN, MLKEM768_ENCAP_LEN,
    X25519_LEN,
};

verus! {

/// The one layout of this protocol: the KEM bytes first, the classical
/// bytes after them.
pub open spec fn concat_kem_classical(kem: Seq<u8>, classical: Seq<u8>) -> Seq<u8> {
    kem + classical
}

/// Law: in a combined buffer the KEM bytes stand first, unchanged, and the
/// classical bytes follow them, unchanged.
pub proof fn lemma_concat_layout(kem: Seq<u8>, classical: Seq<u8>)
    ensures
        concat_kem_classical(kem, classical).len() == kem.len() + classical.len(),
        concat_kem_classical(kem, classical).subrange(0, kem.len() as int) == kem,
        concat_kem_classical(kem, classical).subrange(
            kem.len() as int,
            kem.len() + classical.len() as int,
        ) == classical,
{
    assert(concat_kem_classical(kem, classical).subrange(0, kem.len() as int) =~= kem);
    assert(concat_kem_classical(kem, classical).subrange(
        kem.len() as int,
        kem.len() + classical.len() as int,
    ) =~= classical);
}

/// Law: the first `MLKEM768_ENCAP_LEN` bytes of an encoded share are exactly
/// the KEM encapsulation key and the trailing `X25519_LEN` bytes are exactly
/// the classical public key.
pub proof fn lemma_share_layout(kem: Seq<u8>, classical: Seq<u8>)
    requires
        kem.len() == MLKEM768_ENCAP_LEN,
        classical.len() == X25519_LEN,
    ensures
        concat_kem_classical(kem, classical).len() == COMBINED_PUBKEY_LEN,
        concat_kem_classical(kem, classical).subrange(0, MLKEM768_ENCAP_LEN as int) == kem,
        concat_kem_classical(kem, classical).subrange(
            MLKEM768_ENCAP_LEN as int,
            COMBINED_PUBKEY_LEN as int,
        ) == classical,
{
    lemma_concat_layout(kem, classical);
}

/// Law: the first `MLKEM768_CIPHERTEXT_LEN` bytes of an encoded ciphertext
/// are exactly the KEM ciphertext and the trailing `X25519_LEN` bytes are
/// exactly the responder's classical public key.
pub proof fn lemma_ciphertext_layout(kem: Seq<u8>, classical: Seq<u8>)
    requires
        kem.len() == MLKEM768_CIPHERTEXT_LEN,
        classical.len() == X25519_LEN,
    ensures
        concat_kem_classical(kem, classical).len() == COMBINED_CIPHERTEXT_LEN,
        concat_kem_classical(kem, classical).subrange(0, MLKEM768_CIPHERTEXT_LEN as int) == kem,
        concat_kem_classical(kem, classical).subrange(
            MLKEM768_CIPHERTEXT_LEN as int,
            COMBINED_CIPHERTEXT_LEN as int,
        ) == classical,
{
    lemma_concat_layout(kem, classical);
}

/// Appends every byte of `src` to `out`, in order.
pub(crate) fn append_bytes(out: &mut Vec<u8>, src: &[u8])
    requires
        old(out)@.len() + src@.len() <= usize::MAX,
    ensures
        final(out)@ == old(out)@ + src@,
{
    let mut i: usize = 0;
    while i < src.len()
        invariant
            i <= src@.len(),
            out@ == old(out)@ + src@.subrange(0, i as int),
            old(out)@.len() + src@.len() <= usize::MAX,
        decreases src@.len() - i,
    {
        let b = src[i];
        out.push(b);
        proof {
            assert(old(out)@ + src@.subrange(0, i + 1) =~= (old(out)@ + src@.subrange(
                0,
                i as int,
            )).push(src@[i as int]));
        }
        i = i + 1;
    }
    proof {
        assert(src@.subrange(0, src@.len() as int) =~= src@);
    }
}

/// Encodes the combined public share: KEM encapsulation key first, classical
/// public key after it, exactly `COMBINED_PUBKEY_LEN` bytes.
pub fn encode_share(ml_kem: &[u8], x25519: &[u8]) -> (r: Vec<u8>)
    requires
        ml_kem@.len() == MLKEM768_ENCAP_LEN,
        x25519@.len() == X25519_LEN,
    ensures
        r@ == concat_kem_classical(ml_kem@, x25519@),
        r@.len() == COMBINED_PUBKEY_LEN,
{
    let mut out: Vec<u8> = Vec::new();
    append_bytes(&mut out, ml_kem);
    append_bytes(&mut out, x25519);
    proof {
        assert(out@ =~= concat_kem_classical(ml_kem@, x25519@));
    }
    out
}

/// A decoded initiator share: the KEM encapsulation key and the classical
/// public key, split at the fixed offset.
pub struct ReceivedShare {
    pub ml_kem: Vec<u8>,
    pub x25519: Vec<u8>,
}

impl ReceivedShare {
    /// Decodes a combined share. Fails on every buffer whose length is not
    /// exactly `COMBINED_PUBKEY_LEN`; on success the two parts are the
    /// non-overlapping halves of the buffer at the fixed offset.
    pub fn new(buf: &[u8]) -> (r: Option<ReceivedShare>)
        ensures
            r is Some <==> buf@.len() == COMBINED_PUBKEY_LEN,
            r matches Some(s) ==> {
                &&& s.ml_kem@ == buf@.subrange(0, MLKEM768_ENCAP_LEN as int)
                &&& s.x25519@ == buf@.subrange(MLKEM768_ENCAP_LEN as int, COMBINED_PUBKEY_LEN as int)
                &&& buf@ == concat_kem_classical(s.ml_kem@, s.x25519@)
            },
    {
        if buf.len() != COMBINED_PUBKEY_LEN {
            return None;
        }
        let (ml_kem, x25519) = buf.split_at(MLKEM768_ENCAP_LEN);
        let r = ReceivedShare { ml_kem: slice_to_vec(ml_kem), x25519: slice_to_vec(x25519) };
        proof {
            assert(buf@ =~= concat_kem_classical(r.ml_kem@, r.x25519@));
        }
        Some(r)
    }
}

/// A decoded responder ciphertext: the KEM ciphertext and the responder's
/// classical public key, split at the fixed offset.
pub struct ReceivedCiphertext {
    pub ml_kem: Vec<u8>,
    pub x25519: Vec<u8>,
}

impl ReceivedCiphertext {
    /// Decodes a combined ciphertext. Fails on every buffer whose length is
    /// not exactly `COMBINED_CIPHERTEXT_LEN`; on success the two parts are
    /// the non-overlapping halves of the buffer at the fixed offset.
    pub fn new(buf: &[u8]) -> (r: Option<ReceivedCiphertext>)
        ensures
            r is Some <==> buf@.len() == COMBINED_CIPHERTEXT_LEN,
            r matches Some(s) ==> {
                &&& s.ml_kem@ == buf@.subrange(0, MLKEM768_CIPHERTEXT_LEN as int)
                &&& s.x25519@ == buf@.subrange(
                    MLKEM768_CIPHERTEXT_LEN as int,
                    COMBINED_CIPHERTEXT_LEN as int,
                )
                &&& buf@ == concat_kem_classical(s.ml_kem@, s.x25519@)
            },
    {
        if buf.len() != COMBINED_CIPHERTEXT_LEN {
            return None;
        }
        let (ml_kem, x25519) = buf.split_at(MLKEM768_CIPHERTEXT_LEN);
        let r = ReceivedCiphertext { ml_kem: slice_to_vec(ml_kem), x25519: slice_to_vec(x25519) };
        proof {
            assert(buf@ =~= concat_kem_classical(r.ml_kem@, r.x25519@));
        }
        Some(r)
    }
}

/// An encoded combined ciphertext, ready for the wire.
pub struct CombinedShare(pub Vec<u8>);

impl CombinedShare {
    /// Encodes the combined ciphertext: KEM ciphertext first, classical
    /// public key after it, whichever order the arguments arrive in.
    pub fn combine(x25519: &[u8], ml_kem: &[u8]) -> (r: CombinedShare)
        requires
            ml_kem@.len() == MLKEM768_CIPHERTEXT_LEN,
            x25519@.len() == X25519_LEN,
        ensures
            r.0@ == concat_kem_classical(ml_kem@, x25519@),
            r.0@.len() == COMBINED_CIPHERTEXT_LEN,
    {
        let mut out: Vec<u8> = Vec::new();
        append_bytes(&mut out, ml_kem);
        append_bytes(&mut out, x25519);
        proof {
            assert(out@ =~= concat_kem_classical(ml_kem@, x25519@));
        }
        CombinedShare(out)
    }
}

} // verus!
