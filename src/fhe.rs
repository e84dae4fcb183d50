//! Client side of the precompile-style encrypted-value machine: an input
//! verifier that takes an external handle with its proof, an operations
//! precompile, and an access control list. Each operation assembles the
//! request that the precompile expects, and each reply is read back into a
//! typed result. Sending the request is left to the caller.
use vstd::prelude::*;
use crate::codec::{Address, Word};

verus! {

/// The input verifier's type tag of the 64-bit type.
pub const EUINT64_TYPE: u8 = 3;

/// The scalar byte of an operation whose operands are both encrypted.
pub const SCALAR_ENCRYPTED: u8 = 0;

/// Precompile-style operations.
pub struct FHE;

/// Why a precompile-style operation failed.
#[derive(Debug, Clone, Copy, PartialEq, Eq, Structural)]
pub enum FHEError {
    /// The precompile rejected or did not answer the call.
    PrecompileCallFailed,
    /// The proof does not attest the external handle.
    InvalidInput,
    /// The caller may not use the handle.
    AccessDenied,
    /// The proof is malformed.
    InvalidProof,
    /// The operation is not available.
    OperationFailed,
}

/// A request to verify an external handle against its proof for `user`.
#[derive(Debug, Clone)]
pub struct ExternalInputRequest {
    pub input_handle: Word,
    pub proof: Vec<u8>,
    pub input_type: u8,
    pub user: Address,
}

/// An arithmetic operation of the operations precompile.
#[derive(Debug, Clone, Copy, PartialEq, Eq, Structural)]
pub enum PrecompileOp {
    Add,
    Sub,
    Mul,
}

/// A request for `lhs op rhs` on the operations precompile.
#[derive(Debug, Clone, Copy, PartialEq, Eq)]
pub struct BinaryOpRequest {
    pub op: PrecompileOp,
    pub lhs: Word,
    pub rhs: Word,
    pub scalar_byte: u8,
}

/// A request to the access control list to let `account` use `handle`.
#[derive(Debug, Clone, Copy, PartialEq, Eq)]
pub struct AclGrantRequest {
    pub handle: Word,
    pub account: Address,
}

impl FHE {
    /// The request that verifies an external 64-bit handle with its proof,
    /// submitted by `submitter`.
    pub fn from_external(input: Word, proof: &[u8], submitter: Address) -> (r: ExternalInputRequest)
        ensures
            r.input_handle == input,
            r.proof@ == proof@,
            r.input_type == EUINT64_TYPE,
            r.user == submitter,
    {
        ExternalInputRequest {
            input_handle: input,
            proof: vstd::slice::slice_to_vec(proof),
            input_type: EUINT64_TYPE,
            user: submitter,
        }
    }

    /// Reads the reply to an input verification: the verified handle, or
    /// `InvalidInput` when the verifier rejected the proof.
    pub fn accept_external(reply: Option<Word>) -> (r: Result<Word, FHEError>)
        ensures
            match reply {
                Some(h) => r == Ok::<Word, FHEError>(h),
                None => r == Err::<Word, _>(FHEError::InvalidInput),
            },
    {
        match reply {
            Some(h) => Ok(h),
            None => Err(FHEError::InvalidInput),
        }
    }

    /// The request for `lhs + rhs`, both encrypted.
    pub fn add(lhs: Word, rhs: Word) -> (r: BinaryOpRequest)
        ensures
            r == (BinaryOpRequest { op: PrecompileOp::Add, lhs, rhs, scalar_byte: SCALAR_ENCRYPTED }),
    {
        BinaryOpRequest { op: PrecompileOp::Add, lhs, rhs, scalar_byte: SCALAR_ENCRYPTED }
    }

    /// The request for `lhs - rhs`, both encrypted.
    pub fn sub(lhs: Word, rhs: Word) -> (r: BinaryOpRequest)
        ensures
            r == (BinaryOpRequest { op: PrecompileOp::Sub, lhs, rhs, scalar_byte: SCALAR_ENCRYPTED }),
    {
        BinaryOpRequest { op: PrecompileOp::Sub, lhs, rhs, scalar_byte: SCALAR_ENCRYPTED }
    }

    /// The request for `lhs * rhs`, both encrypted.
    pub fn mul(lhs: Word, rhs: Word) -> (r: BinaryOpRequest)
        ensures
            r == (BinaryOpRequest { op: PrecompileOp::Mul, lhs, rhs, scalar_byte: SCALAR_ENCRYPTED }),
    {
        BinaryOpRequest { op: PrecompileOp::Mul, lhs, rhs, scalar_byte: SCALAR_ENCRYPTED }
    }

    /// Reads the reply to an operation: the result handle, or a failed call.
    pub fn accept_result(reply: Option<Word>) -> (r: Result<Word, FHEError>)
        ensures
            match reply {
                Some(h) => r == Ok::<Word, FHEError>(h),
                None => r == Err::<Word, _>(FHEError::PrecompileCallFailed),
            },
    {
        match reply {
            Some(h) => Ok(h),
            None => Err(FHEError::PrecompileCallFailed),
        }
    }

    /// The request that lets `account` use `handle`.
    pub fn allow(handle: Word, account: Address) -> (r: AclGrantRequest)
        ensures
            r == (AclGrantRequest { handle, account }),
    {
        AclGrantRequest { handle, account }
    }

    /// Reads the acknowledgement of a grant; the list refuses grants by
    /// anyone but the handle's owner.
    pub fn accept_grant(acknowledged: bool) -> (r: Result<(), FHEError>)
        ensures
            acknowledged <==> r is Ok,
            !acknowledged ==> r == Err::<(), _>(FHEError::PrecompileCallFailed),
    {
        if acknowledged {
            Ok(())
        } else {
            Err(FHEError::PrecompileCallFailed)
        }
    }
}

} // verus!
