//! Recovery and verification of personal-message signatures over the
//! canonical message "<domainId>,<operation>,<field1>,...,<fieldN>".
use vstd::prelude::*;
use vstd::string::StringSliceAdditionalSpecFns;
use crate::codec::{
    Address, Word, canonical_message, join_commas, keccak256_of, personal_frame,
    canonical_message_bytes, personal_digest,
};
use stylus_sdk::alloy_primitives::{B256, PrimitiveSignature};

verus! {

/// Signature recovery and verification.
pub struct SignatureRecover;

/// Why a signature could not be checked.
#[derive(Debug, Clone, Copy, PartialEq, Eq, Structural)]
pub enum SignatureError {
    /// The signature is not 65 bytes long.
    InvalidLength,
    /// The recovery byte is not 0, 1, 27 or 28.
    InvalidV,
    /// No signer could be recovered.
    RecoveryFailed,
}

/// The recovery byte after normalisation: values below 27 are shifted up by 27.
pub open spec fn normalized_v(v: u8) -> int {
    if v < 27 {
        v + 27
    } else {
        v as int
    }
}

/// The (r, s, v) components of a signature, or why it is malformed.
pub open spec fn split_spec(sig: Seq<u8>) -> Result<(Seq<u8>, Seq<u8>, u8), SignatureError> {
    if sig.len() != 65 {
        Err(SignatureError::InvalidLength)
    } else if normalized_v(sig[64]) != 27 && normalized_v(sig[64]) != 28 {
        Err(SignatureError::InvalidV)
    } else {
        Ok((sig.subrange(0, 32), sig.subrange(32, 64), normalized_v(sig[64]) as u8))
    }
}

/// The address whose secp256k1 key produced (r, s) with the given parity over
/// `digest`, if public-key recovery succeeds.
pub uninterp spec fn secp256k1_signer(digest: Seq<u8>, r: Seq<u8>, s: Seq<u8>, y_odd: bool) -> Option<
    Address,
>;

/// The signer recovered from a personal-message signature over `message`.
pub open spec fn recovered_signer(message: Seq<u8>, sig: Seq<u8>) -> Result<Address, SignatureError> {
    match split_spec(sig) {
        Err(e) => Err(e),
        Ok((r, s, v)) => match secp256k1_signer(
            keccak256_of(personal_frame(message)),
            r,
            s,
            v == 28,
        ) {
            Some(a) => Ok(a),
            None => Err(SignatureError::RecoveryFailed),
        },
    }
}

/// Whether `sig` is a signature by `expected` over `message`, or why it could
/// not be checked.
pub open spec fn signature_check(message: Seq<u8>, sig: Seq<u8>, expected: Address) -> Result<
    bool,
    SignatureError,
> {
    match recovered_signer(message, sig) {
        Ok(a) => Ok(a == expected),
        Err(e) => Err(e),
    }
}

/// A signature that is not 65 bytes long is rejected with `InvalidLength`, and
/// one whose recovery byte is not 0, 1, 27 or 28 with `InvalidV`: neither
/// ever verifies.
pub proof fn lemma_malformed_signature_rejected(message: Seq<u8>, sig: Seq<u8>, expected: Address)
    ensures
        sig.len() != 65 ==> signature_check(message, sig, expected) == Err::<bool, _>(
            SignatureError::InvalidLength,
        ),
        sig.len() == 65 && !(sig[64] == 0 || sig[64] == 1 || sig[64] == 27 || sig[64] == 28)
            ==> signature_check(message, sig, expected) == Err::<bool, _>(SignatureError::InvalidV),
{
}

/// A well-formed signature verifies against `expected` exactly when the key
/// recovered from (r, s, v) over the digest of that exact canonical message is
/// the one of `expected`.
pub proof fn lemma_verifies_iff_signed_by(
    domain: Seq<u8>,
    operation: Seq<u8>,
    fields: Seq<Seq<u8>>,
    sig: Seq<u8>,
    expected: Address,
)
    requires
        split_spec(sig) is Ok,
    ensures
        signature_check(canonical_message(domain, operation, fields), sig, expected) == Ok::<
            bool,
            SignatureError,
        >(true) <==> secp256k1_signer(
            keccak256_of(personal_frame(canonical_message(domain, operation, fields))),
            sig.subrange(0, 32),
            sig.subrange(32, 64),
            normalized_v(sig[64]) == 28,
        ) == Some(expected),
{
}

/// Recovery bytes 0 and 1 are read as 27 and 28: a signature carrying 0 (or 1)
/// checks exactly as the same (r, s) carrying 27 (or 28).
pub proof fn lemma_low_recovery_byte_normalized(message: Seq<u8>, sig: Seq<u8>, expected: Address)
    requires
        sig.len() == 65,
        sig[64] == 0 || sig[64] == 1,
    ensures
        signature_check(message, sig, expected) == signature_check(
            message,
            sig.update(64, (sig[64] + 27) as u8),
            expected,
        ),
{
    let high = sig.update(64, (sig[64] + 27) as u8);
    assert(high.subrange(0, 32) =~= sig.subrange(0, 32));
    assert(high.subrange(32, 64) =~= sig.subrange(32, 64));
}

/// Relies on alloy_primitives::PrimitiveSignature::recover_address_from_prehash
/// (with `from_scalars_and_parity`): secp256k1 public-key recovery from a
/// prehashed digest, giving the 20-byte address of the recovered key; a
/// function of its arguments alone.
#[verifier::external_body]
fn ecrecover(digest: &Word, r: &Word, s: &Word, y_odd: bool) -> (res: Option<Address>)
    ensures
        res == secp256k1_signer(digest@, r@, s@, y_odd),
{
    let sig = PrimitiveSignature::from_scalars_and_parity(B256::from(*r), B256::from(*s), y_odd);
    match sig.recover_address_from_prehash(&B256::from(*digest)) {
        Ok(a) => Some(a.0.0),
        Err(_) => None,
    }
}

/// Copies 32 bytes of `src` starting at `start`.
fn copy_word(src: &[u8], start: usize) -> (w: Word)
    requires
        start + 32 <= src@.len(),
    ensures
        w@ == src@.subrange(start as int, start + 32),
{
    let n = src.len();
    let mut w: Word = [0u8; 32];
    let mut i: usize = 0;
    while i < 32
        invariant
            n == src@.len(),
            start + 32 <= src@.len(),
            i <= 32,
            w@.len() == 32,
            forall|j: int| 0 <= j < i ==> w@[j] == src@[start + j],
        decreases 32 - i,
    {
        w[i] = src[start + i];
        i = i + 1;
    }
    proof {
        assert(w@ =~= src@.subrange(start as int, start + 32));
    }
    w
}

impl SignatureRecover {
    /// Splits a 65-byte signature into r, s and the normalised recovery byte v.
    pub fn split_signature(signature: &[u8]) -> (res: Result<(Word, Word, u8), SignatureError>)
        ensures
            match res {
                Ok((r, s, v)) => split_spec(signature@) == Ok::<_, SignatureError>((r@, s@, v)),
                Err(e) => split_spec(signature@) == Err::<(Seq<u8>, Seq<u8>, u8), _>(e),
            },
    {
        if signature.len() != 65 {
            return Err(SignatureError::InvalidLength);
        }
        let r = copy_word(signature, 0);
        let s = copy_word(signature, 32);
        let mut v = signature[64];
        if v < 27 {
            v = v + 27;
        }
        if v != 27 && v != 28 {
            return Err(SignatureError::InvalidV);
        }
        Ok((r, s, v))
    }

    /// Recovers the signer of a personal-message signature over `message`.
    pub fn recover_signer(message: &str, signature: &[u8]) -> (res: Result<Address, SignatureError>)
        ensures
            res == recovered_signer(message.spec_bytes(), signature@),
    {
        Self::recover_from_bytes(message.as_bytes(), signature)
    }

    /// Recovers the signer of a personal-message signature over the bytes of
    /// `message`.
    pub fn recover_from_bytes(message: &[u8], signature: &[u8]) -> (res: Result<Address, SignatureError>)
        ensures
            res == recovered_signer(message@, signature@),
    {
        let digest = personal_digest(message);
        let (r, s, v) = Self::split_signature(signature)?;
        match ecrecover(&digest, &r, &s, v == 28) {
            Some(a) => Ok(a),
            None => Err(SignatureError::RecoveryFailed),
        }
    }

    /// Checks a signature over "<evvm_id>,<function_name>,<inputs>", where
    /// `inputs` holds the already comma-joined fields.
    pub fn signature_verification(
        evvm_id: &str,
        function_name: &str,
        inputs: &str,
        signature: &[u8],
        expected_signer: Address,
    ) -> (res: Result<bool, SignatureError>)
        ensures
            res == signature_check(
                join_commas(seq![evvm_id.spec_bytes(), function_name.spec_bytes(), inputs.spec_bytes()]),
                signature@,
                expected_signer,
            ),
    {
        let fields: Vec<Vec<u8>> = vec![vstd::slice::slice_to_vec(inputs.as_bytes())];
        let res = Self::verify(evvm_id.as_bytes(), function_name.as_bytes(), fields.as_slice(), signature, expected_signer);
        proof {
            let parts = fields@.map_values(|f: Vec<u8>| f@);
            assert(parts =~= seq![inputs.spec_bytes()]);
            assert(seq![evvm_id.spec_bytes(), function_name.spec_bytes()] + parts
                =~= seq![evvm_id.spec_bytes(), function_name.spec_bytes(), inputs.spec_bytes()]);
        }
        res
    }

    /// Checks a signature by `expected_signer` over the canonical message built
    /// from `domain_id`, `operation` and `fields` in order.
    pub fn verify(
        domain_id: &[u8],
        operation: &[u8],
        fields: &[Vec<u8>],
        signature: &[u8],
        expected_signer: Address,
    ) -> (res: Result<bool, SignatureError>)
        ensures
            res == signature_check(
                canonical_message(domain_id@, operation@, fields@.map_values(|f: Vec<u8>| f@)),
                signature@,
                expected_signer,
            ),
    {
        let message = canonical_message_bytes(domain_id, operation, fields);
        let signer = Self::recover_from_bytes(message.as_slice(), signature)?;
        Ok(crate::codec::same_address(&signer, &expected_signer))
    }
}

} // verus!
