use fhe_stylus::fhe::{AclGrantRequest, BinaryOpRequest, PrecompileOp, EUINT64_TYPE};
use fhe_stylus::{
    get_cofhe_config, get_config, AccessTable, CoFHE, CoFHEConfig, CoFHEError, DecryptPoll, FHEError,
    FHEVMConfig, FunctionId, Grantee, Handle, InEuint256, InEuint32, InEuint64, InEuint8, LogicalType,
    FHE,
};

fn h(tag: u8, t: LogicalType) -> Handle {
    Handle { ct_hash: [tag; 32], utype: t }
}

fn small(n: u8) -> [u8; 32] {
    let mut w = [0u8; 32];
    w[31] = n;
    w
}

#[test]
fn test_arbitrum_sepolia_config() {
    let config = CoFHEConfig::arbitrum_sepolia();
    assert_ne!(config.task_manager, [0u8; 20]);
}

#[test]
fn cofhe_config_test_current_config() {
    let config = CoFHEConfig::current();
    let _ = config.task_manager_address();
}

#[test]
fn test_sepolia_config() {
    let config = FHEVMConfig::sepolia();
    assert_ne!(config.fhevm_precompile, [0u8; 20]);
    assert_ne!(config.input_verifier, [0u8; 20]);
    assert_ne!(config.acl, [0u8; 20]);
}

#[test]
fn config_test_current_config() {
    let config = FHEVMConfig::current();
    let _ = config.precompile_address();
}

#[test]
fn test_config_exists() {
    let config = get_config();
    let _ = config.precompile_address();
}

#[test]
fn config_addresses_are_exact() {
    let tm = get_cofhe_config().task_manager_address();
    assert_eq!(tm[0], 0xea);
    assert_eq!(tm[19], 0xd9);
    assert_eq!(CoFHEConfig::ethereum_sepolia().task_manager, tm);
    assert_eq!(CoFHEConfig::local_cofhe().task_manager, [0u8; 20]);
    let c = FHEVMConfig::sepolia();
    assert_eq!(c.acl_address()[0], 0x68);
    assert_eq!(c.gateway_address()[19], 0x3c);
    assert_eq!(c.kms_verifier_address()[0], 0x05);
    assert_eq!(c.input_verifier_address()[19], 0xc4);
    let m = FHEVMConfig::arbitrum_mainnet();
    assert_eq!(m.acl, [0u8; 20]);
    assert_eq!(FHEVMConfig::arbitrum_testnet().gateway, [0u8; 20]);
}

#[test]
fn opcodes_and_type_tags() {
    assert_eq!(FunctionId::_0.code(), 0);
    assert_eq!(FunctionId::Select.code(), 4);
    assert_eq!(FunctionId::Sub.code(), 7);
    assert_eq!(FunctionId::Add.code(), 8);
    assert_eq!(FunctionId::Mul.code(), 15);
    assert_eq!(FunctionId::Eq.code(), 24);
    assert_eq!(FunctionId::TrivialEncrypt.code(), 26);
    assert_eq!(FunctionId::_31.code(), 31);
    assert_eq!(LogicalType::Bool.tag(), 0);
    assert_eq!(LogicalType::Uint8.tag(), 2);
    assert_eq!(LogicalType::Uint64.tag(), 5);
    assert_eq!(LogicalType::Address.tag(), 7);
    assert_eq!(LogicalType::Uint256.tag(), 8);
}

#[test]
fn subtraction_keeps_operand_order() {
    let r = CoFHE::sub(h(1, LogicalType::Uint64), h(2, LogicalType::Uint64));
    assert_eq!(r.function, FunctionId::Sub);
    assert_eq!(r.return_type, LogicalType::Uint64);
    assert_eq!(r.encrypted_inputs, vec![[1u8; 32], [2u8; 32]]);
    assert!(r.extra_inputs.is_empty());
}

#[test]
fn arithmetic_and_logic_requests() {
    let a = CoFHE::add(h(3, LogicalType::Uint64), h(4, LogicalType::Uint64));
    assert_eq!((a.function, a.return_type), (FunctionId::Add, LogicalType::Uint64));
    let m = CoFHE::mul(h(3, LogicalType::Uint64), h(4, LogicalType::Uint64));
    assert_eq!(m.function, FunctionId::Mul);
    let e = CoFHE::eq(h(3, LogicalType::Uint256), h(4, LogicalType::Uint256));
    assert_eq!((e.function, e.return_type), (FunctionId::Eq, LogicalType::Bool));
    let x = CoFHE::and(h(5, LogicalType::Bool), h(6, LogicalType::Bool));
    assert_eq!(x.function, FunctionId::And);
    let o = CoFHE::or(h(5, LogicalType::Bool), h(6, LogicalType::Bool));
    assert_eq!((o.function, o.return_type), (FunctionId::Or, LogicalType::Bool));
    assert_eq!(o.encrypted_inputs, vec![[5u8; 32], [6u8; 32]]);
}

#[test]
fn select_orders_condition_then_branches() {
    let r = CoFHE::select(h(9, LogicalType::Bool), h(1, LogicalType::Uint32), h(2, LogicalType::Uint32));
    assert_eq!(r.function, FunctionId::Select);
    assert_eq!(r.return_type, LogicalType::Uint32);
    assert_eq!(r.encrypted_inputs, vec![[9u8; 32], [1u8; 32], [2u8; 32]]);
}

#[test]
fn trivial_encryption_of_booleans() {
    let t = CoFHE::as_ebool(true);
    assert_eq!(t.function, FunctionId::TrivialEncrypt);
    assert_eq!(t.return_type, LogicalType::Bool);
    assert!(t.encrypted_inputs.is_empty());
    assert_eq!(t.extra_inputs, vec![small(1), small(0), small(0)]);
    let f = CoFHE::as_ebool(false);
    assert_eq!(f.extra_inputs, vec![small(0), small(0), small(0)]);
}

#[test]
fn input_verification_fixes_the_type() {
    let sender = [0x44u8; 20];
    let i64in = InEuint64 { ct_hash: [7u8; 32], security_zone: 3, utype: 99, signature: vec![1, 2, 3] };
    let req = CoFHE::as_euint64(&i64in, sender);
    assert_eq!(req.utype, LogicalType::Uint64);
    assert_eq!(req.ct_hash, [7u8; 32]);
    assert_eq!(req.security_zone, 3);
    assert_eq!(req.proof, vec![1, 2, 3]);
    assert_eq!(req.submitter, sender);
    let h8 = CoFHE::as_euint8(&InEuint8 { ct_hash: [1u8; 32], security_zone: 0, utype: 0, signature: vec![] }, sender);
    assert_eq!(h8.utype, LogicalType::Uint8);
    let h32 = CoFHE::as_euint32(&InEuint32 { ct_hash: [1u8; 32], security_zone: 0, utype: 0, signature: vec![] }, sender);
    assert_eq!(h32.utype, LogicalType::Uint32);
    let h256 =
        CoFHE::as_euint256(&InEuint256 { ct_hash: [1u8; 32], security_zone: 0, utype: 0, signature: vec![] }, sender);
    assert_eq!(h256.utype, LogicalType::Uint256);
    let handle = CoFHE::accept_input(&req, Some([8u8; 32])).unwrap();
    assert_eq!(handle, Handle { ct_hash: [8u8; 32], utype: LogicalType::Uint64 });
    assert_eq!(CoFHE::accept_input(&req, None), Err(CoFHEError::InvalidInput));
}

#[test]
fn task_replies_are_typed_by_the_request() {
    let r = CoFHE::eq(h(3, LogicalType::Uint256), h(4, LogicalType::Uint256));
    assert_eq!(CoFHE::accept_task(&r, Some([5u8; 32])), Ok(Handle { ct_hash: [5u8; 32], utype: LogicalType::Bool }));
    assert_eq!(CoFHE::accept_task(&r, None), Err(CoFHEError::TaskManagerCallFailed));
    assert_eq!(CoFHE::accept_ack(true), Ok(()));
    assert_eq!(CoFHE::accept_ack(false), Err(CoFHEError::TaskManagerCallFailed));
}

#[test]
fn access_and_decrypt_requests() {
    let ct = h(1, LogicalType::Uint64);
    let acc = [0x55u8; 20];
    assert_eq!(CoFHE::allow_this(ct).grantee, Grantee::Global);
    assert_eq!(CoFHE::allow_sender(ct, acc).grantee, Grantee::Account(acc));
    assert_eq!(CoFHE::allow(ct, acc).ct_hash, [1u8; 32]);
    assert_eq!(CoFHE::allow_transient(ct, acc).grantee, Grantee::Transient(acc));
    let d = CoFHE::decrypt(ct, acc);
    assert_eq!((d.ct_hash, d.requestor), ([1u8; 32], acc));
}

#[test]
fn unresolved_decryption_has_no_value() {
    let junk = [0x99u8; 32];
    assert_eq!(CoFHE::get_decrypt_result_safe(Some((junk, false))), Ok(DecryptPoll::Pending));
    assert_eq!(CoFHE::get_decrypt_result(Some((junk, false))), Err(CoFHEError::DecryptionPending));
    assert_eq!(CoFHE::get_decrypt_result_safe(Some((junk, true))), Ok(DecryptPoll::Ready(junk)));
    assert_eq!(CoFHE::get_decrypt_result(Some((junk, true))), Ok(junk));
    assert_eq!(CoFHE::get_decrypt_result_safe(None), Err(CoFHEError::TaskManagerCallFailed));
    assert_eq!(CoFHE::get_decrypt_result(None), Err(CoFHEError::TaskManagerCallFailed));
}

#[test]
fn polling_is_idempotent() {
    let reply = Some(([3u8; 32], false));
    assert_eq!(CoFHE::get_decrypt_result_safe(reply), CoFHE::get_decrypt_result_safe(reply));
}

#[test]
fn grants_are_explicit_and_revocable() {
    let owner = [1u8; 20];
    let alice = [2u8; 20];
    let handle = [7u8; 32];
    let mut t = AccessTable::new();
    assert!(!t.is_allowed(&handle, &alice));
    assert_eq!(t.register(&handle, &owner), Ok(()));
    assert_eq!(t.get_owner(&handle), Some(owner));
    assert!(!t.is_allowed(&handle, &owner));
    assert!(!t.is_allowed(&handle, &alice));
    assert_eq!(t.allow(&owner, &handle, &alice), Ok(()));
    assert!(t.is_allowed(&handle, &alice));
    assert!(!t.is_allowed(&[8u8; 32], &alice));
    assert_eq!(t.revoke(&owner, &handle, &alice), Ok(()));
    assert!(!t.is_allowed(&handle, &alice));
}

#[test]
fn only_the_owner_grants_revokes_or_transfers() {
    let owner = [1u8; 20];
    let alice = [2u8; 20];
    let handle = [7u8; 32];
    let mut t = AccessTable::new();
    t.register(&handle, &owner).unwrap();
    assert_eq!(t.register(&handle, &alice), Err(CoFHEError::AccessDenied));
    assert_eq!(t.allow(&alice, &handle, &alice), Err(CoFHEError::AccessDenied));
    assert!(!t.is_allowed(&handle, &alice));
    t.allow(&owner, &handle, &alice).unwrap();
    assert_eq!(t.revoke(&alice, &handle, &alice), Err(CoFHEError::AccessDenied));
    assert!(t.is_allowed(&handle, &alice));
    assert_eq!(t.transfer_ownership(&alice, &handle, &alice), Err(CoFHEError::AccessDenied));
    assert_eq!(t.transfer_ownership(&owner, &handle, &alice), Ok(()));
    assert_eq!(t.get_owner(&handle), Some(alice));
    assert_eq!(t.allow(&owner, &handle, &owner), Err(CoFHEError::AccessDenied));
    assert_eq!(t.allow_global(&alice, &handle), Ok(()));
    assert!(t.is_allowed(&handle, &alice));
}

#[test]
fn transient_grants_end_with_the_request() {
    let owner = [1u8; 20];
    let bob = [3u8; 20];
    let handle = [7u8; 32];
    let mut t = AccessTable::new();
    t.register(&handle, &owner).unwrap();
    assert_eq!(t.allow_transient(&owner, &handle, &bob), Ok(()));
    assert!(t.is_allowed(&handle, &bob));
    t.end_request();
    assert!(!t.is_allowed(&handle, &bob));
    t.allow_transient(&owner, &handle, &bob).unwrap();
    t.revoke(&owner, &handle, &bob).unwrap();
    assert!(!t.is_allowed(&handle, &bob));
}

#[test]
fn external_input_request_is_exact() {
    let submitter = [0x44u8; 20];
    let r = FHE::from_external([6u8; 32], &[1, 2, 3], submitter);
    assert_eq!(r.input_handle, [6u8; 32]);
    assert_eq!(r.proof, vec![1, 2, 3]);
    assert_eq!(r.input_type, EUINT64_TYPE);
    assert_eq!(r.input_type, 3);
    assert_eq!(r.user, submitter);
}

#[test]
fn unattested_external_input_is_invalid() {
    assert_eq!(FHE::accept_external(None), Err(FHEError::InvalidInput));
    assert_eq!(FHE::accept_external(Some([9u8; 32])), Ok([9u8; 32]));
}

#[test]
fn precompile_operation_requests() {
    let a = [1u8; 32];
    let b = [2u8; 32];
    assert_eq!(FHE::add(a, b), BinaryOpRequest { op: PrecompileOp::Add, lhs: a, rhs: b, scalar_byte: 0 });
    assert_eq!(FHE::sub(a, b), BinaryOpRequest { op: PrecompileOp::Sub, lhs: a, rhs: b, scalar_byte: 0 });
    assert_eq!(FHE::mul(b, a), BinaryOpRequest { op: PrecompileOp::Mul, lhs: b, rhs: a, scalar_byte: 0 });
    assert_eq!(FHE::accept_result(Some(a)), Ok(a));
    assert_eq!(FHE::accept_result(None), Err(FHEError::PrecompileCallFailed));
}

#[test]
fn precompile_grant_request() {
    let acc = [3u8; 20];
    assert_eq!(FHE::allow([4u8; 32], acc), AclGrantRequest { handle: [4u8; 32], account: acc });
    assert_eq!(FHE::accept_grant(true), Ok(()));
    assert_eq!(FHE::accept_grant(false), Err(FHEError::PrecompileCallFailed));
}

#[test]
fn client_grant_requests_apply_to_the_table() {
    let owner = [1u8; 20];
    let alice = [2u8; 20];
    let ct = h(7, LogicalType::Uint64);
    let mut t = AccessTable::new();
    t.register(&ct.ct_hash, &owner).unwrap();
    assert_eq!(t.apply(&alice, &CoFHE::allow(ct, alice)), Err(CoFHEError::AccessDenied));
    assert!(!t.is_allowed(&ct.ct_hash, &alice));
    assert_eq!(t.apply(&owner, &CoFHE::allow(ct, alice)), Ok(()));
    assert!(t.is_allowed(&ct.ct_hash, &alice));
    assert_eq!(t.apply(&owner, &CoFHE::allow_this(ct)), Ok(()));
    assert!(t.is_allowed(&ct.ct_hash, &owner));
    let bob = [3u8; 20];
    assert_eq!(t.apply(&owner, &CoFHE::allow_transient(ct, bob)), Ok(()));
    assert!(t.is_allowed(&ct.ct_hash, &bob));
    t.end_request();
    assert!(!t.is_allowed(&ct.ct_hash, &bob));
    assert!(t.is_allowed(&ct.ct_hash, &alice));
}
