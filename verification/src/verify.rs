//! Groth16 proof verification.
//!
//! Verifying keys and proofs cross the library boundary as their canonical
//! byte encodings, so the contracts here speak of plain values only.  The
//! pairing computation is bellman's; the names below stand for what its
//! deterministic decoding and checking functions return on given bytes.

use vstd::prelude::*;
use crate::field::scalar_val;

verus! {

/// Rejection of malformed input at the boundary, distinct from a proof that
/// merely fails the pairing check.
#[derive(Clone, Copy, PartialEq, Eq, Structural, Debug)]
pub enum VerifyError {
    /// The verifying-key bytes do not decode to a verifying key.
    VerifyingKeyEncoding,
    /// The proof bytes are not the canonical encoding of a proof.
    ProofEncoding,
    /// The public-input list does not have the length the key asks for.
    InputCountMismatch,
}

/// The bytes of a verifying-key encoding before the element list: three
/// uncompressed G1 points of 96 bytes, three uncompressed G2 points of 192
/// bytes, and a four-byte big-endian element count.
pub open spec fn vk_fixed_len() -> nat {
    868
}

/// A big-endian 32-bit integer.
pub open spec fn u32_be(b: Seq<u8>) -> nat {
    (b[0] * 0x1000000 + b[1] * 0x10000 + b[2] * 0x100 + b[3]) as nat
}

/// The element count a verifying-key encoding declares: one element for the
/// constant plus one per public input.
pub open spec fn vk_element_count(vk: Seq<u8>) -> nat {
    u32_be(vk.subrange(864, 868))
}

/// A verifying-key encoding is exactly as long as its declared element count
/// asks for: the fixed part and 96 bytes per element.
pub open spec fn vk_len_ok(vk: Seq<u8>) -> bool {
    &&& vk.len() >= vk_fixed_len()
    &&& vk.len() == vk_fixed_len() + 96 * vk_element_count(vk)
}

/// Read the big-endian element count at its fixed offset.
fn read_element_count(vk: &Vec<u8>) -> (r: u32)
    requires
        vk@.len() >= 868,
    ensures
        r as nat == vk_element_count(vk@),
{
    let b0 = vk[864];
    let b1 = vk[865];
    let b2 = vk[866];
    let b3 = vk[867];
    let r = (b0 as u32) * 0x1000000 + (b1 as u32) * 0x10000 + (b2 as u32) * 0x100 + (b3 as u32);
    proof {
        let s = vk@.subrange(864, 868);
        assert(s[0] == vk@[864] && s[1] == vk@[865] && s[2] == vk@[866] && s[3] == vk@[867]);
    }
    r
}

/// The field values of a sequence of scalars, in order.
pub open spec fn scalar_vals(s: Seq<bls12_381::Scalar>) -> Seq<nat> {
    s.map_values(|x: bls12_381::Scalar| scalar_val(x))
}

/// Whether `bellman::groth16::VerifyingKey::read` accepts these bytes: a
/// deterministic function of the bytes alone.
pub uninterp spec fn vk_well_formed(vk: Seq<u8>) -> bool;

/// Whether `bellman::groth16::Proof::read` accepts these bytes: each of the
/// three encoded points must be canonical, on the curve, in the subgroup and
/// not the identity.
pub uninterp spec fn proof_well_formed(proof: Seq<u8>) -> bool;

/// Whether the Groth16 pairing check accepts the (key, proof, inputs)
/// triple.  Verification is deterministic: a function of the two encodings
/// and the public-input field values alone.  An input list whose length does
/// not match the key is never accepted.
pub uninterp spec fn groth16_accepts(vk: Seq<u8>, proof: Seq<u8>, inputs: Seq<nat>) -> bool;

/// Relies on bellman's `VerifyingKey::read`, `prepare_verifying_key`,
/// `Proof::read` and `groth16::verify_proof`: the reads decode a canonical
/// encoding from the bytes and fail on bytes that hold none, and on decoded
/// values the pairing check returns accept or reject — for a wrong-length
/// input list it rejects — without panicking.
#[verifier::external_body]
fn groth16_verify_raw(vk: &Vec<u8>, proof: &Vec<u8>, inputs: &Vec<bls12_381::Scalar>) -> (r: Result<bool, VerifyError>)
    ensures
        vk_well_formed(vk@) && proof_well_formed(proof@) ==> r is Ok,
        r is Ok ==> r->Ok_0 == groth16_accepts(vk@, proof@, scalar_vals(inputs@)),
        !vk_well_formed(vk@) ==> r matches Err(VerifyError::VerifyingKeyEncoding),
        vk_well_formed(vk@) && !proof_well_formed(proof@) ==> r matches Err(VerifyError::ProofEncoding),
{
    let key = match bellman::groth16::VerifyingKey::<bls12_381::Bls12>::read(&vk[..]) {
        Ok(k) => k,
        Err(_) => return Err(VerifyError::VerifyingKeyEncoding),
    };
    let pvk = bellman::groth16::prepare_verifying_key(&key);
    let pf = match bellman::groth16::Proof::<bls12_381::Bls12>::read(&proof[..]) {
        Ok(p) => p,
        Err(_) => return Err(VerifyError::ProofEncoding),
    };
    Ok(bellman::groth16::verify_proof(&pvk, &pf, inputs.as_slice()).is_ok())
}

/// Verify a Groth16 proof against a serialized verifying key and the public
/// input values, in allocation order.
///
/// Malformed input is rejected at the boundary, before any cryptographic
/// work: a proof encoding is exactly 192 bytes — two compressed G1 points
/// around a compressed G2 point; a key encoding must be exactly as long as
/// its declared element count asks for; and the input list must hold one
/// value less than that count.  A decoded proof that fails the pairing
/// check yields `Ok(false)`: a reject, never a panic.
pub fn verify(vk: &Vec<u8>, proof: &Vec<u8>, public_inputs: &Vec<bls12_381::Scalar>) -> (r: Result<bool, VerifyError>)
    ensures
        proof@.len() != 192 ==> r matches Err(VerifyError::ProofEncoding),
        proof@.len() == 192 && !vk_len_ok(vk@) ==> r matches Err(VerifyError::VerifyingKeyEncoding),
        proof@.len() == 192 && vk_len_ok(vk@) && public_inputs@.len() + 1 != vk_element_count(vk@) ==> r matches Err(VerifyError::InputCountMismatch),
        proof@.len() == 192 && vk_len_ok(vk@) && public_inputs@.len() + 1 == vk_element_count(vk@) ==> {
            &&& (r is Ok <==> vk_well_formed(vk@) && proof_well_formed(proof@))
            &&& (r is Ok ==> r->Ok_0 == groth16_accepts(vk@, proof@, scalar_vals(public_inputs@)))
            &&& (!vk_well_formed(vk@) ==> r matches Err(VerifyError::VerifyingKeyEncoding))
            &&& (vk_well_formed(vk@) && !proof_well_formed(proof@) ==> r matches Err(VerifyError::ProofEncoding))
        },
{
    if proof.len() != 192 {
        return Err(VerifyError::ProofEncoding);
    }
    if vk.len() < 868 {
        return Err(VerifyError::VerifyingKeyEncoding);
    }
    let count = read_element_count(vk);
    let expected_len: u64 = 868u64 + 96u64 * (count as u64);
    if (vk.len() as u64) != expected_len {
        return Err(VerifyError::VerifyingKeyEncoding);
    }
    if (public_inputs.len() as u128) + 1 != (count as u128) {
        return Err(VerifyError::InputCountMismatch);
    }
    groth16_verify_raw(vk, proof, public_inputs)
}

} // verus!
