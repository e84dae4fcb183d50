//! The data exchanged with the encrypted-computation coprocessor: handles,
//! logical type tags, opcodes, encrypted inputs and task requests.
use vstd::prelude::*;
use crate::codec::{Address, Word};

verus! {

/// Type tag of the boolean type.
pub const EBOOL_TFHE: u8 = 0;

/// Type tag of the 8-bit type.
pub const EUINT8_TFHE: u8 = 2;

/// Type tag of the 16-bit type.
pub const EUINT16_TFHE: u8 = 3;

/// Type tag of the 32-bit type.
pub const EUINT32_TFHE: u8 = 4;

/// Type tag of the 64-bit type.
pub const EUINT64_TFHE: u8 = 5;

/// Type tag of the 128-bit type.
pub const EUINT128_TFHE: u8 = 6;

/// Type tag of the address type.
pub const EADDRESS_TFHE: u8 = 7;

/// Type tag of the 256-bit type.
pub const EUINT256_TFHE: u8 = 8;

/// The logical type of an encrypted value.
#[derive(Debug, Clone, Copy, PartialEq, Eq, Structural)]
pub enum LogicalType {
    Bool,
    Uint8,
    Uint16,
    Uint32,
    Uint64,
    Uint128,
    Address,
    Uint256,
}

/// The coprocessor's numeric tag of a logical type.
pub open spec fn type_tag(t: LogicalType) -> u8 {
    match t {
        LogicalType::Bool => EBOOL_TFHE,
        LogicalType::Uint8 => EUINT8_TFHE,
        LogicalType::Uint16 => EUINT16_TFHE,
        LogicalType::Uint32 => EUINT32_TFHE,
        LogicalType::Uint64 => EUINT64_TFHE,
        LogicalType::Uint128 => EUINT128_TFHE,
        LogicalType::Address => EADDRESS_TFHE,
        LogicalType::Uint256 => EUINT256_TFHE,
    }
}

impl LogicalType {
    /// The coprocessor's numeric tag of this type.
    pub fn tag(&self) -> (r: u8)
        ensures
            r == type_tag(*self),
    {
        match self {
            LogicalType::Bool => EBOOL_TFHE,
            LogicalType::Uint8 => EUINT8_TFHE,
            LogicalType::Uint16 => EUINT16_TFHE,
            LogicalType::Uint32 => EUINT32_TFHE,
            LogicalType::Uint64 => EUINT64_TFHE,
            LogicalType::Uint128 => EUINT128_TFHE,
            LogicalType::Address => EADDRESS_TFHE,
            LogicalType::Uint256 => EUINT256_TFHE,
        }
    }
}

/// An opaque reference to a value held by the coprocessor, with its logical
/// type carried alongside the bytes.
#[derive(Debug, Clone, Copy, PartialEq, Eq)]
pub struct Handle {
    pub ct_hash: Word,
    pub utype: LogicalType,
}

/// The coprocessor's opcode space: 32 slots, some of them reserved.
#[derive(Debug, Clone, Copy, PartialEq, Eq, Structural)]
pub enum FunctionId {
    _0,
    _1,
    Cast,
    SealOutput,
    Select,
    _5,
    Decrypt,
    Sub,
    Add,
    Xor,
    And,
    Or,
    Not,
    Div,
    Rem,
    Mul,
    Shl,
    Shr,
    Gte,
    Lte,
    Lt,
    Gt,
    Min,
    Max,
    Eq,
    Ne,
    TrivialEncrypt,
    Random,
    Rol,
    Ror,
    Square,
    _31,
}

/// The slot number of an opcode.
pub open spec fn function_code(f: FunctionId) -> u8 {
    match f {
        FunctionId::_0 => 0,
        FunctionId::_1 => 1,
        FunctionId::Cast => 2,
        FunctionId::SealOutput => 3,
        FunctionId::Select => 4,
        FunctionId::_5 => 5,
        FunctionId::Decrypt => 6,
        FunctionId::Sub => 7,
        FunctionId::Add => 8,
        FunctionId::Xor => 9,
        FunctionId::And => 10,
        FunctionId::Or => 11,
        FunctionId::Not => 12,
        FunctionId::Div => 13,
        FunctionId::Rem => 14,
        FunctionId::Mul => 15,
        FunctionId::Shl => 16,
        FunctionId::Shr => 17,
        FunctionId::Gte => 18,
        FunctionId::Lte => 19,
        FunctionId::Lt => 20,
        FunctionId::Gt => 21,
        FunctionId::Min => 22,
        FunctionId::Max => 23,
        FunctionId::Eq => 24,
        FunctionId::Ne => 25,
        FunctionId::TrivialEncrypt => 26,
        FunctionId::Random => 27,
        FunctionId::Rol => 28,
        FunctionId::Ror => 29,
        FunctionId::Square => 30,
        FunctionId::_31 => 31,
    }
}

impl FunctionId {
    /// The slot number of this opcode.
    pub fn code(&self) -> (r: u8)
        ensures
            r == function_code(*self),
            r < 32,
    {
        match self {
            FunctionId::_0 => 0,
            FunctionId::_1 => 1,
            FunctionId::Cast => 2,
            FunctionId::SealOutput => 3,
            FunctionId::Select => 4,
            FunctionId::_5 => 5,
            FunctionId::Decrypt => 6,
            FunctionId::Sub => 7,
            FunctionId::Add => 8,
            FunctionId::Xor => 9,
            FunctionId::And => 10,
            FunctionId::Or => 11,
            FunctionId::Not => 12,
            FunctionId::Div => 13,
            FunctionId::Rem => 14,
            FunctionId::Mul => 15,
            FunctionId::Shl => 16,
            FunctionId::Shr => 17,
            FunctionId::Gte => 18,
            FunctionId::Lte => 19,
            FunctionId::Lt => 20,
            FunctionId::Gt => 21,
            FunctionId::Min => 22,
            FunctionId::Max => 23,
            FunctionId::Eq => 24,
            FunctionId::Ne => 25,
            FunctionId::TrivialEncrypt => 26,
            FunctionId::Random => 27,
            FunctionId::Rol => 28,
            FunctionId::Ror => 29,
            FunctionId::Square => 30,
            FunctionId::_31 => 31,
        }
    }
}

/// An externally supplied ciphertext with its correctness proof.
#[derive(Debug, Clone)]
pub struct EncryptedInput {
    pub ct_hash: Word,
    pub security_zone: u8,
    pub utype: u8,
    pub signature: Vec<u8>,
}

/// An encrypted 64-bit input with its proof.
#[derive(Debug, Clone)]
pub struct InEuint64 {
    pub ct_hash: Word,
    pub security_zone: u8,
    pub utype: u8,
    pub signature: Vec<u8>,
}

/// An encrypted 8-bit input with its proof.
#[derive(Debug, Clone)]
pub struct InEuint8 {
    pub ct_hash: Word,
    pub security_zone: u8,
    pub utype: u8,
    pub signature: Vec<u8>,
}

/// An encrypted 32-bit input with its proof.
#[derive(Debug, Clone)]
pub struct InEuint32 {
    pub ct_hash: Word,
    pub security_zone: u8,
    pub utype: u8,
    pub signature: Vec<u8>,
}

/// An encrypted 256-bit input with its proof.
#[derive(Debug, Clone)]
pub struct InEuint256 {
    pub ct_hash: Word,
    pub security_zone: u8,
    pub utype: u8,
    pub signature: Vec<u8>,
}

/// An encrypted boolean input with its proof.
#[derive(Debug, Clone)]
pub struct InEbool {
    pub ct_hash: Word,
    pub security_zone: u8,
    pub utype: u8,
    pub signature: Vec<u8>,
}

/// A typed operation request: the coprocessor computes `function` over the
/// encrypted and plain operands, in this order, and returns a handle of
/// `return_type`.
#[derive(Debug, Clone)]
pub struct TaskRequest {
    pub return_type: LogicalType,
    pub function: FunctionId,
    pub encrypted_inputs: Vec<Word>,
    pub extra_inputs: Vec<Word>,
}

/// A request to verify an encrypted input against its proof.
#[derive(Debug, Clone)]
pub struct VerifyInputRequest {
    pub ct_hash: Word,
    pub security_zone: u8,
    pub utype: LogicalType,
    pub proof: Vec<u8>,
    pub submitter: Address,
}

/// Who an access grant is for.
#[derive(Debug, Clone, Copy, PartialEq, Eq)]
pub enum Grantee {
    /// The submitting contract itself.
    Global,
    /// A given account.
    Account(Address),
    /// A given account, for the current request only.
    Transient(Address),
}

/// A request to grant access to a handle.
#[derive(Debug, Clone, Copy, PartialEq, Eq)]
pub struct AccessRequest {
    pub ct_hash: Word,
    pub grantee: Grantee,
}

/// A request to decrypt a handle on behalf of `requestor`.
#[derive(Debug, Clone, Copy, PartialEq, Eq)]
pub struct DecryptRequest {
    pub ct_hash: Word,
    pub requestor: Address,
}

} // verus!
