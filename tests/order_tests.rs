use alloy_primitives::eip191_hash_message;
use fhe_stylus::{Address, EVVMCafhe, InEuint64, NonceRegistry, OrderError, Word};
use k256::ecdsa::SigningKey;

fn signing_key() -> SigningKey {
    SigningKey::from_slice(&[7u8; 32]).unwrap()
}

fn address_of(key: &SigningKey) -> Address {
    alloy_primitives::Address::from_public_key(key.verifying_key()).0 .0
}

fn sign(key: &SigningKey, message: &[u8]) -> Vec<u8> {
    let digest = eip191_hash_message(message);
    let (sig, recid) = key.sign_prehash_recoverable(digest.as_slice()).unwrap();
    let mut out = sig.to_bytes().to_vec();
    out.push(27 + recid.to_byte());
    out
}

fn word(n: u64) -> Word {
    let mut w = [0u8; 32];
    w[24..].copy_from_slice(&n.to_be_bytes());
    w
}

fn input(tag: u8) -> InEuint64 {
    InEuint64 { ct_hash: [tag; 32], security_zone: 0, utype: 5, signature: vec![tag, tag] }
}

const SHOP: Address = [0xAAu8; 20];
const OWNER: Address = [0x0Bu8; 20];
const LEDGER: Address = [0x0Cu8; 20];

fn shop() -> EVVMCafhe {
    let mut s = EVVMCafhe::new();
    s.initialize(LEDGER, OWNER);
    s
}

fn place(
    s: &EVVMCafhe,
    client: Address,
    nonce: u64,
    sig: &[u8],
) -> Result<fhe_stylus::PendingOrder, OrderError> {
    s.order_coffee(
        &word(1),
        SHOP,
        client,
        "Latte",
        &word(2),
        &word(500),
        &input(1),
        &word(nonce),
        sig,
        &word(3),
        &input(2),
        &word(99),
        true,
    )
}

#[test]
fn order_is_settled_then_nonce_consumed() {
    let key = signing_key();
    let client = address_of(&key);
    let sig = sign(&key, b"1,orderCoffee,Latte,2,500,7");
    let mut s = shop();
    let pending = place(&s, client, 7, &sig).unwrap();
    assert!(!s.is_this_nonce_used(client, word(7)));
    assert_eq!(pending.client(), client);
    assert_eq!(pending.nonce(), word(7));
    let p = pending.payment();
    assert_eq!(p.from, client);
    assert_eq!(p.to, SHOP);
    assert_eq!(p.token, [0u8; 20]);
    assert_eq!(p.amount_plaintext, word(500));
    assert_eq!(p.amount.ct_hash, [1u8; 32]);
    assert_eq!(p.priority_fee_plaintext, word(3));
    assert_eq!(p.priority_fee.signature, vec![2u8, 2]);
    assert_eq!(p.nonce, word(99));
    assert!(p.priority_flag);
    assert_eq!(p.executor, [0u8; 20]);
    assert!(p.to_identity.is_empty());
    assert!(p.signature.is_empty());
    assert_eq!(s.complete_order(&pending, true), Ok(()));
    assert!(s.is_this_nonce_used(client, word(7)));
}

#[test]
fn replayed_nonce_is_rejected() {
    let key = signing_key();
    let client = address_of(&key);
    let sig = sign(&key, b"1,orderCoffee,Latte,2,500,7");
    let mut s = shop();
    let pending = place(&s, client, 7, &sig).unwrap();
    s.complete_order(&pending, true).unwrap();
    assert_eq!(place(&s, client, 7, &sig).err(), Some(OrderError::NonceAlreadyUsed));
}

#[test]
fn failed_settlement_leaves_nonce_unused() {
    let key = signing_key();
    let client = address_of(&key);
    let sig = sign(&key, b"1,orderCoffee,Latte,2,500,7");
    let mut s = shop();
    let pending = place(&s, client, 7, &sig).unwrap();
    assert_eq!(s.complete_order(&pending, false), Err(OrderError::PaymentFailed));
    assert!(!s.is_this_nonce_used(client, word(7)));
    assert!(place(&s, client, 7, &sig).is_ok());
}

#[test]
fn order_with_changed_nonce_is_invalid_signature() {
    let key = signing_key();
    let client = address_of(&key);
    let sig = sign(&key, b"1,orderCoffee,Latte,2,500,7");
    let s = shop();
    assert_eq!(place(&s, client, 8, &sig).err(), Some(OrderError::InvalidSignature));
}

#[test]
fn order_signed_by_someone_else_is_invalid_signature() {
    let key = signing_key();
    let sig = sign(&key, b"1,orderCoffee,Latte,2,500,7");
    let s = shop();
    assert_eq!(place(&s, [0x11u8; 20], 7, &sig).err(), Some(OrderError::InvalidSignature));
    assert_eq!(place(&s, address_of(&key), 7, &sig[..64]).err(), Some(OrderError::InvalidSignature));
}

#[test]
fn nonces_are_per_client() {
    let mut r = NonceRegistry::new();
    let a = [1u8; 20];
    let b = [2u8; 20];
    assert!(!r.is_used(&a, &word(7)));
    r.mark_used(&a, &word(7));
    assert!(r.is_used(&a, &word(7)));
    assert!(!r.is_used(&b, &word(7)));
    assert!(!r.is_used(&a, &word(8)));
    r.mark_used(&a, &word(7));
    r.mark_used(&b, &word(1));
    assert!(r.is_used(&a, &word(7)));
    assert!(r.is_used(&b, &word(1)));
}

#[test]
fn large_nonces_are_distinct() {
    let mut r = NonceRegistry::new();
    let a = [1u8; 20];
    let mut big = [0xFFu8; 32];
    r.mark_used(&a, &big);
    assert!(r.is_used(&a, &big));
    big[0] = 0xFE;
    assert!(!r.is_used(&a, &big));
}

#[test]
fn withdrawals_are_owner_only() {
    let s = shop();
    let stranger = [0x22u8; 20];
    let to = [0x33u8; 20];
    assert_eq!(
        s.withdraw_funds(stranger, SHOP, to, &input(1), &word(5), false, &input(2)).err(),
        Some(OrderError::Unauthorized)
    );
    assert_eq!(
        s.withdraw_rewards(stranger, SHOP, to, &input(1), &word(5), false, &input(2)).err(),
        Some(OrderError::Unauthorized)
    );
}

#[test]
fn withdraw_funds_pays_ether_to_recipient() {
    let s = shop();
    let to = [0x33u8; 20];
    let p = s.withdraw_funds(OWNER, SHOP, to, &input(1), &word(5), false, &input(2)).unwrap();
    assert_eq!(p.from, SHOP);
    assert_eq!(p.to, to);
    assert_eq!(p.token, [0u8; 20]);
    assert_eq!(p.amount_plaintext, [0u8; 32]);
    assert_eq!(p.priority_fee_plaintext, [0u8; 32]);
    assert_eq!(p.amount.ct_hash, [1u8; 32]);
    assert_eq!(p.nonce, word(5));
}

#[test]
fn withdraw_rewards_pays_principal_token() {
    let s = shop();
    let to = [0x33u8; 20];
    let p = s.withdraw_rewards(OWNER, SHOP, to, &input(1), &word(5), true, &input(2)).unwrap();
    let mut principal = [0u8; 20];
    principal[19] = 1;
    assert_eq!(p.token, principal);
    assert_eq!(p.from, SHOP);
    assert!(p.priority_flag);
}

#[test]
fn shop_getters() {
    let s = shop();
    assert_eq!(s.get_owner(), OWNER);
    assert_eq!(s.get_evvm_address(), LEDGER);
    assert_eq!(s.get_ether_address(), [0u8; 20]);
    let mut principal = [0u8; 20];
    principal[19] = 1;
    assert_eq!(s.get_principal_token_address(), principal);
    let fresh = EVVMCafhe::new();
    assert_eq!(fresh.get_owner(), [0u8; 20]);
}
