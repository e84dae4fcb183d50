//! Client side of the coprocessor protocol: each operation assembles the
//! request that the coprocessor expects, and each reply is read back into a
//! typed result. Sending the request is left to the caller.
use vstd::prelude::*;
use crate::codec::{Address, Word};
use crate::cofhe_interfaces::{
    AccessRequest, DecryptRequest, EBOOL_TFHE, FunctionId, Grantee, Handle, InEuint256, InEuint32,
    InEuint64, InEuint8, LogicalType, TaskRequest, VerifyInputRequest,
};

verus! {

/// Why a coprocessor operation failed.
#[derive(Debug, Clone, Copy, PartialEq, Eq, Structural)]
pub enum CoFHEError {
    /// The coprocessor rejected or did not answer the call.
    TaskManagerCallFailed,
    /// The proof does not attest the submitted ciphertext.
    InvalidInput,
    /// The caller may not use the handle.
    AccessDenied,
    /// The operation is not available.
    OperationFailed,
    /// The decryption has not been resolved yet.
    DecryptionPending,
}

/// The state of a decryption as seen by a poll: a value exists only once the
/// decryption is resolved.
#[derive(Debug, Clone, Copy, PartialEq, Eq)]
pub enum DecryptPoll {
    Pending,
    Ready(Word),
}

/// Coprocessor operations.
pub struct CoFHE;

/// `w` is the 256-bit big-endian encoding of the small integer `n`.
pub open spec fn is_small_word(w: Seq<u8>, n: u8) -> bool {
    &&& w.len() == 32
    &&& w[31] == n
    &&& forall|i: int| 0 <= i < 31 ==> w[i] == 0
}

/// The 256-bit big-endian encoding of a small integer.
pub fn small_word(n: u8) -> (w: Word)
    ensures
        is_small_word(w@, n),
{
    let mut w: Word = [0u8; 32];
    w[31] = n;
    w
}

/// The request that a binary operation over two handles makes.
pub open spec fn binary_task(
    r: TaskRequest,
    return_type: LogicalType,
    function: FunctionId,
    lhs: Handle,
    rhs: Handle,
) -> bool {
    &&& r.return_type == return_type
    &&& r.function == function
    &&& r.encrypted_inputs@ == seq![lhs.ct_hash, rhs.ct_hash]
    &&& r.extra_inputs@.len() == 0
}

/// The request that checks an input of type `t` against its proof.
pub open spec fn input_request(
    r: VerifyInputRequest,
    t: LogicalType,
    ct_hash: Word,
    security_zone: u8,
    proof: Seq<u8>,
    sender: Address,
) -> bool {
    &&& r.ct_hash == ct_hash
    &&& r.security_zone == security_zone
    &&& r.utype == t
    &&& r.proof@ == proof
    &&& r.submitter == sender
}

/// What a poll reply means: no reply is a failed call, an unresolved reply
/// carries no value.
pub open spec fn poll_outcome(reply: Option<(Word, bool)>) -> Result<DecryptPoll, CoFHEError> {
    match reply {
        None => Err(CoFHEError::TaskManagerCallFailed),
        Some((value, true)) => Ok(DecryptPoll::Ready(value)),
        Some((_, false)) => Ok(DecryptPoll::Pending),
    }
}

/// What a strict read of a decryption yields: the value once resolved, a
/// failure otherwise.
pub open spec fn strict_outcome(reply: Option<(Word, bool)>) -> Result<Word, CoFHEError> {
    match reply {
        None => Err(CoFHEError::TaskManagerCallFailed),
        Some((value, true)) => Ok(value),
        Some((_, false)) => Err(CoFHEError::DecryptionPending),
    }
}

/// Before a decryption is resolved, a poll reports it pending and a strict
/// read fails: neither hands out the value field of the reply.
pub proof fn lemma_unresolved_decryption_has_no_value(value: Word)
    ensures
        poll_outcome(Some((value, false))) == Ok::<DecryptPoll, CoFHEError>(DecryptPoll::Pending),
        strict_outcome(Some((value, false))) == Err::<Word, _>(CoFHEError::DecryptionPending),
{
}

fn binary(return_type: LogicalType, function: FunctionId, lhs: Handle, rhs: Handle) -> (r:
    TaskRequest)
    ensures
        binary_task(r, return_type, function, lhs, rhs),
{
    let r = TaskRequest {
        return_type,
        function,
        encrypted_inputs: vec![lhs.ct_hash, rhs.ct_hash],
        extra_inputs: Vec::new(),
    };
    proof {
        assert(r.encrypted_inputs@ =~= seq![lhs.ct_hash, rhs.ct_hash]);
    }
    r
}

fn input(t: LogicalType, ct_hash: Word, security_zone: u8, proof: &Vec<u8>, sender: Address) -> (r:
    VerifyInputRequest)
    ensures
        input_request(r, t, ct_hash, security_zone, proof@, sender),
{
    VerifyInputRequest {
        ct_hash,
        security_zone,
        utype: t,
        proof: proof.clone(),
        submitter: sender,
    }
}

impl CoFHE {
    /// The request that turns an encrypted 64-bit input into a handle, checked
    /// against its proof for `sender`.
    pub fn as_euint64(input_value: &InEuint64, sender: Address) -> (r: VerifyInputRequest)
        ensures
            input_request(
                r,
                LogicalType::Uint64,
                input_value.ct_hash,
                input_value.security_zone,
                input_value.signature@,
                sender,
            ),
    {
        input(LogicalType::Uint64, input_value.ct_hash, input_value.security_zone, &input_value.signature, sender)
    }

    /// The request that turns an encrypted 8-bit input into a handle.
    pub fn as_euint8(input_value: &InEuint8, sender: Address) -> (r: VerifyInputRequest)
        ensures
            input_request(
                r,
                LogicalType::Uint8,
                input_value.ct_hash,
                input_value.security_zone,
                input_value.signature@,
                sender,
            ),
    {
        input(LogicalType::Uint8, input_value.ct_hash, input_value.security_zone, &input_value.signature, sender)
    }

    /// The request that turns an encrypted 32-bit input into a handle.
    pub fn as_euint32(input_value: &InEuint32, sender: Address) -> (r: VerifyInputRequest)
        ensures
            input_request(
                r,
                LogicalType::Uint32,
                input_value.ct_hash,
                input_value.security_zone,
                input_value.signature@,
                sender,
            ),
    {
        input(LogicalType::Uint32, input_value.ct_hash, input_value.security_zone, &input_value.signature, sender)
    }

    /// The request that turns an encrypted 256-bit input into a handle.
    pub fn as_euint256(input_value: &InEuint256, sender: Address) -> (r: VerifyInputRequest)
        ensures
            input_request(
                r,
                LogicalType::Uint256,
                input_value.ct_hash,
                input_value.security_zone,
                input_value.signature@,
                sender,
            ),
    {
        input(LogicalType::Uint256, input_value.ct_hash, input_value.security_zone, &input_value.signature, sender)
    }

    /// Reads the reply to an input verification: the verified handle, typed as
    /// requested, or `InvalidInput` when the coprocessor rejected the proof.
    pub fn accept_input(request: &VerifyInputRequest, reply: Option<Word>) -> (r: Result<
        Handle,
        CoFHEError,
    >)
        ensures
            match reply {
                Some(h) => r == Ok::<Handle, CoFHEError>(Handle { ct_hash: h, utype: request.utype }),
                None => r == Err::<Handle, _>(CoFHEError::InvalidInput),
            },
    {
        match reply {
            Some(h) => Ok(Handle { ct_hash: h, utype: request.utype }),
            None => Err(CoFHEError::InvalidInput),
        }
    }

    /// The request that encrypts a plain boolean: a trivial encryption whose
    /// plain operands are the value, the boolean type tag and security zone 0.
    pub fn as_ebool(value: bool) -> (r: TaskRequest)
        ensures
            r.return_type == LogicalType::Bool,
            r.function == FunctionId::TrivialEncrypt,
            r.encrypted_inputs@.len() == 0,
            r.extra_inputs@.len() == 3,
            is_small_word(r.extra_inputs@[0]@, if value { 1 } else { 0 }),
            is_small_word(r.extra_inputs@[1]@, EBOOL_TFHE),
            is_small_word(r.extra_inputs@[2]@, 0),
    {
        let v = small_word(if value { 1u8 } else { 0u8 });
        let t = small_word(EBOOL_TFHE);
        let z = small_word(0u8);
        TaskRequest {
            return_type: LogicalType::Bool,
            function: FunctionId::TrivialEncrypt,
            encrypted_inputs: Vec::new(),
            extra_inputs: vec![v, t, z],
        }
    }

    /// The request for `lhs + rhs` on 64-bit values.
    pub fn add(lhs: Handle, rhs: Handle) -> (r: TaskRequest)
        requires
            lhs.utype == LogicalType::Uint64,
            rhs.utype == LogicalType::Uint64,
        ensures
            binary_task(r, LogicalType::Uint64, FunctionId::Add, lhs, rhs),
    {
        binary(LogicalType::Uint64, FunctionId::Add, lhs, rhs)
    }

    /// The request for `lhs - rhs` on 64-bit values.
    pub fn sub(lhs: Handle, rhs: Handle) -> (r: TaskRequest)
        requires
            lhs.utype == LogicalType::Uint64,
            rhs.utype == LogicalType::Uint64,
        ensures
            binary_task(r, LogicalType::Uint64, FunctionId::Sub, lhs, rhs),
    {
        binary(LogicalType::Uint64, FunctionId::Sub, lhs, rhs)
    }

    /// The request for `lhs * rhs` on 64-bit values.
    pub fn mul(lhs: Handle, rhs: Handle) -> (r: TaskRequest)
        requires
            lhs.utype == LogicalType::Uint64,
            rhs.utype == LogicalType::Uint64,
        ensures
            binary_task(r, LogicalType::Uint64, FunctionId::Mul, lhs, rhs),
    {
        binary(LogicalType::Uint64, FunctionId::Mul, lhs, rhs)
    }

    /// The request for the encrypted equality of two 256-bit values.
    pub fn eq(lhs: Handle, rhs: Handle) -> (r: TaskRequest)
        requires
            lhs.utype == LogicalType::Uint256,
            rhs.utype == LogicalType::Uint256,
        ensures
            binary_task(r, LogicalType::Bool, FunctionId::Eq, lhs, rhs),
    {
        binary(LogicalType::Bool, FunctionId::Eq, lhs, rhs)
    }

    /// The request for the encrypted conjunction of two booleans.
    pub fn and(lhs: Handle, rhs: Handle) -> (r: TaskRequest)
        requires
            lhs.utype == LogicalType::Bool,
            rhs.utype == LogicalType::Bool,
        ensures
            binary_task(r, LogicalType::Bool, FunctionId::And, lhs, rhs),
    {
        binary(LogicalType::Bool, FunctionId::And, lhs, rhs)
    }

    /// The request for the encrypted disjunction of two booleans.
    pub fn or(lhs: Handle, rhs: Handle) -> (r: TaskRequest)
        requires
            lhs.utype == LogicalType::Bool,
            rhs.utype == LogicalType::Bool,
        ensures
            binary_task(r, LogicalType::Bool, FunctionId::Or, lhs, rhs),
    {
        binary(LogicalType::Bool, FunctionId::Or, lhs, rhs)
    }

    /// The request for `condition ? if_true : if_false` on 32-bit values.
    pub fn select(condition: Handle, if_true: Handle, if_false: Handle) -> (r: TaskRequest)
        requires
            condition.utype == LogicalType::Bool,
            if_true.utype == LogicalType::Uint32,
            if_false.utype == LogicalType::Uint32,
        ensures
            r.return_type == LogicalType::Uint32,
            r.function == FunctionId::Select,
            r.encrypted_inputs@ == seq![condition.ct_hash, if_true.ct_hash, if_false.ct_hash],
            r.extra_inputs@.len() == 0,
    {
        let r = TaskRequest {
            return_type: LogicalType::Uint32,
            function: FunctionId::Select,
            encrypted_inputs: vec![condition.ct_hash, if_true.ct_hash, if_false.ct_hash],
            extra_inputs: Vec::new(),
        };
        proof {
            assert(r.encrypted_inputs@ =~= seq![condition.ct_hash, if_true.ct_hash, if_false.ct_hash]);
        }
        r
    }

    /// Reads the reply to a task: the result handle, typed by the request's
    /// return type, or a failed call.
    pub fn accept_task(request: &TaskRequest, reply: Option<Word>) -> (r: Result<Handle, CoFHEError>)
        ensures
            match reply {
                Some(h) => r == Ok::<Handle, CoFHEError>(
                    Handle { ct_hash: h, utype: request.return_type },
                ),
                None => r == Err::<Handle, _>(CoFHEError::TaskManagerCallFailed),
            },
    {
        match reply {
            Some(h) => Ok(Handle { ct_hash: h, utype: request.return_type }),
            None => Err(CoFHEError::TaskManagerCallFailed),
        }
    }

    /// The request that lets the submitting contract itself use `ct`.
    pub fn allow_this(ct: Handle) -> (r: AccessRequest)
        ensures
            r == (AccessRequest { ct_hash: ct.ct_hash, grantee: Grantee::Global }),
    {
        AccessRequest { ct_hash: ct.ct_hash, grantee: Grantee::Global }
    }

    /// The request that lets the caller `sender` use `ct`.
    pub fn allow_sender(ct: Handle, sender: Address) -> (r: AccessRequest)
        ensures
            r == (AccessRequest { ct_hash: ct.ct_hash, grantee: Grantee::Account(sender) }),
    {
        AccessRequest { ct_hash: ct.ct_hash, grantee: Grantee::Account(sender) }
    }

    /// The request that lets `account` use `ct`.
    pub fn allow(ct: Handle, account: Address) -> (r: AccessRequest)
        ensures
            r == (AccessRequest { ct_hash: ct.ct_hash, grantee: Grantee::Account(account) }),
    {
        AccessRequest { ct_hash: ct.ct_hash, grantee: Grantee::Account(account) }
    }

    /// The request that lets `account` use `ct` for the current request only.
    pub fn allow_transient(ct: Handle, account: Address) -> (r: AccessRequest)
        ensures
            r == (AccessRequest { ct_hash: ct.ct_hash, grantee: Grantee::Transient(account) }),
    {
        AccessRequest { ct_hash: ct.ct_hash, grantee: Grantee::Transient(account) }
    }

    /// The request that starts the decryption of `ct` for `sender`.
    pub fn decrypt(ct: Handle, sender: Address) -> (r: DecryptRequest)
        ensures
            r == (DecryptRequest { ct_hash: ct.ct_hash, requestor: sender }),
    {
        DecryptRequest { ct_hash: ct.ct_hash, requestor: sender }
    }

    /// Reads the acknowledgement of a call that returns nothing.
    pub fn accept_ack(acknowledged: bool) -> (r: Result<(), CoFHEError>)
        ensures
            acknowledged <==> r is Ok,
            !acknowledged ==> r == Err::<(), _>(CoFHEError::TaskManagerCallFailed),
    {
        if acknowledged {
            Ok(())
        } else {
            Err(CoFHEError::TaskManagerCallFailed)
        }
    }

    /// Reads a poll of a decryption, given the reply (value, resolved): the
    /// value only once resolved.
    pub fn get_decrypt_result_safe(reply: Option<(Word, bool)>) -> (r: Result<DecryptPoll, CoFHEError>)
        ensures
            r == poll_outcome(reply),
    {
        match reply {
            None => Err(CoFHEError::TaskManagerCallFailed),
            Some((value, ready)) => if ready {
                Ok(DecryptPoll::Ready(value))
            } else {
                Ok(DecryptPoll::Pending)
            },
        }
    }

    /// Reads a decryption strictly, given the reply (value, resolved): the
    /// value once resolved, `DecryptionPending` before.
    pub fn get_decrypt_result(reply: Option<(Word, bool)>) -> (r: Result<Word, CoFHEError>)
        ensures
            r == strict_outcome(reply),
    {
        match reply {
            None => Err(CoFHEError::TaskManagerCallFailed),
            Some((value, ready)) => if ready {
                Ok(value)
            } else {
                Err(CoFHEError::DecryptionPending)
            },
        }
    }
}

} // verus!
