//! Verified trust boundary of a confidential ordering flow: signatures over
//! canonical messages, replay protection, and typed requests to an
//! encrypted-value coprocessor with its access control and two-phase
//! decryption.
pub mod acl;
pub mod cafhe;
pub mod codec;
pub mod cofhe;
pub mod cofhe_config;
pub mod cofhe_interfaces;
pub mod config;
pub mod fhe;
pub mod nonce;
pub mod signature;

pub use acl::AccessTable;
pub use cafhe::{EVVMCafhe, OrderError, PaymentRequest, PendingOrder};
pub use codec::{Address, Word};
pub use cofhe::{CoFHE, CoFHEError, DecryptPoll};
pub use cofhe_interfaces::{
    AccessRequest, DecryptRequest, EncryptedInput, FunctionId, Grantee, Handle, InEbool, InEuint256,
    InEuint32, InEuint64, InEuint8, LogicalType, TaskRequest, VerifyInputRequest,
};
pub use cofhe_config::{CoFHEConfig, get_cofhe_config};
pub use config::{FHEVMConfig, get_config};
pub use fhe::{FHE, FHEError};
pub use nonce::NonceRegistry;
pub use signature::{SignatureError, SignatureRecover};
