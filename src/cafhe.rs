//! The order orchestrator: a signed coffee order is authenticated, checked
//! against replay, settled on the ledger, and only then its nonce consumed.
//!
//! Settlement is outside work, so an order runs in two steps:
//! `order_coffee` decides whether the order may be settled and yields the
//! payment to send; `complete_order` takes the ledger's answer and consumes
//! the nonce only when the payment went through.
use vstd::prelude::*;
use vstd::string::StringSliceAdditionalSpecFns;
use crate::codec::{
    Address, Word, be_value, canonical_message, decimal, same_address, word_decimal,
};
use crate::cofhe_interfaces::{EncryptedInput, InEuint64};
use crate::nonce::NonceRegistry;
use crate::signature::{SignatureError, SignatureRecover, signature_check};

verus! {

/// Why an order or a withdrawal was refused.
#[derive(Debug, Clone, Copy, PartialEq, Eq, Structural)]
pub enum OrderError {
    /// The signature is malformed or not the client's.
    InvalidSignature,
    /// The client's nonce has already been consumed.
    NonceAlreadyUsed,
    /// The caller is not the shop owner.
    Unauthorized,
    /// The ledger did not accept the payment.
    PaymentFailed,
}

/// `n` zero bytes.
pub open spec fn zero_bytes(n: nat) -> Seq<u8> {
    Seq::new(n, |i: int| 0u8)
}

/// The token id of ether on the ledger: the zero address.
pub open spec fn ether_token() -> Seq<u8> {
    zero_bytes(20)
}

/// The token id of the ledger's principal token: the address 0x00..01.
pub open spec fn principal_token() -> Seq<u8> {
    zero_bytes(19).push(1u8)
}

/// The operation name that an order signature covers.
pub open spec fn order_operation() -> Seq<u8> {
    seq![111u8, 114u8, 100u8, 101u8, 114u8, 67u8, 111u8, 102u8, 102u8, 101u8, 101u8]
}

/// The canonical message that a client signs for an order:
/// "<evvmId>,orderCoffee,<coffeeType>,<quantity>,<totalPrice>,<nonce>", with
/// the numbers in decimal.
pub open spec fn order_message(
    evvm_id: Word,
    coffee_type: Seq<u8>,
    quantity: Word,
    total_price: Word,
    nonce: Word,
) -> Seq<u8> {
    canonical_message(
        decimal(be_value(evvm_id@)),
        order_operation(),
        seq![
            coffee_type,
            decimal(be_value(quantity@)),
            decimal(be_value(total_price@)),
            decimal(be_value(nonce@)),
        ],
    )
}

/// The decision on an order, before settlement: the signature must be the
/// client's, then the nonce must be fresh for the client.
pub open spec fn order_decision(
    used: Set<(Address, Word)>,
    message: Seq<u8>,
    signature: Seq<u8>,
    client: Address,
    nonce: Word,
) -> Result<(), OrderError> {
    if signature_check(message, signature, client) != Ok::<bool, SignatureError>(
        true,
    ) {
        Err(OrderError::InvalidSignature)
    } else if used.contains((client, nonce)) {
        Err(OrderError::NonceAlreadyUsed)
    } else {
        Ok(())
    }
}

/// Once a client's order is settled its nonce never authorizes another order:
/// whatever message and signature come with it the decision is a refusal, and
/// with a valid signature it is `NonceAlreadyUsed`, before any payment.
pub proof fn lemma_settled_nonce_cannot_be_replayed(
    used: Set<(Address, Word)>,
    message: Seq<u8>,
    signature: Seq<u8>,
    client: Address,
    nonce: Word,
)
    ensures
        order_decision(used.insert((client, nonce)), message, signature, client, nonce) is Err,
        signature_check(message, signature, client) == Ok::<bool, SignatureError>(true)
            ==> order_decision(used.insert((client, nonce)), message, signature, client, nonce)
            == Err::<(), _>(OrderError::NonceAlreadyUsed),
{
}

/// A consumed nonce stays consumed over any run of the shop. `history` holds
/// the shop after each call; every call keeps the consumed pairs (`initialize`
/// and `complete_order` state it, the other methods take `&self`). If the pair
/// is consumed in the first state, it is consumed in every later one.
pub proof fn lemma_consumed_nonce_persists(history: Seq<EVVMCafhe>, client: Address, nonce: Word)
    requires
        history.len() > 0,
        history[0].used_nonces().contains((client, nonce)),
        forall|i: int|
            0 <= i < history.len() - 1 ==> #[trigger] history[i].used_nonces().subset_of(
                history[i + 1].used_nonces(),
            ),
    ensures
        forall|i: int| 0 <= i < history.len() ==> #[trigger] history[i].used_nonces().contains(
            (client, nonce),
        ),
    decreases history.len(),
{
    if history.len() > 1 {
        let shorter = history.drop_last();
        assert forall|i: int| 0 <= i < shorter.len() - 1 implies #[trigger] shorter[i].used_nonces().subset_of(
            shorter[i + 1].used_nonces(),
        ) by {
            assert(history[i].used_nonces().subset_of(history[i + 1].used_nonces()));
        }
        lemma_consumed_nonce_persists(shorter, client, nonce);
        let last = history.len() - 1;
        let j = last - 1;
        assert(shorter[j].used_nonces().contains((client, nonce)));
        assert(history[j].used_nonces().subset_of(history[j + 1].used_nonces()));
        assert forall|i: int| 0 <= i < history.len() implies #[trigger] history[i].used_nonces().contains(
            (client, nonce),
        ) by {
            if i < last {
                assert(shorter[i].used_nonces().contains((client, nonce)));
            }
        }
    }
}

/// `e` carries the same ciphertext, zone, type and proof as `i`.
pub open spec fn same_input(e: EncryptedInput, i: InEuint64) -> bool {
    &&& e.ct_hash == i.ct_hash
    &&& e.security_zone == i.security_zone
    &&& e.utype == i.utype
    &&& e.signature@ == i.signature@
}

/// A two-leg payment request for the ledger.
#[derive(Debug, Clone)]
pub struct PaymentRequest {
    pub from: Address,
    pub to: Address,
    pub to_identity: Vec<u8>,
    pub token: Address,
    pub amount_plaintext: Word,
    pub amount: EncryptedInput,
    pub priority_fee_plaintext: Word,
    pub priority_fee: EncryptedInput,
    pub nonce: Word,
    pub priority_flag: bool,
    pub executor: Address,
    pub signature: Vec<u8>,
}

/// `p` pays from `from` to `to` in `token` with the given legs, no identity,
/// no executor and no signature of its own.
pub open spec fn payment_of(
    p: PaymentRequest,
    from: Address,
    to: Address,
    token: Seq<u8>,
    amount_plaintext: Seq<u8>,
    amount: InEuint64,
    priority_fee_plaintext: Seq<u8>,
    priority_fee: InEuint64,
    nonce: Word,
    priority_flag: bool,
) -> bool {
    &&& p.from == from
    &&& p.to == to
    &&& p.to_identity@.len() == 0
    &&& p.token@ == token
    &&& p.amount_plaintext@ == amount_plaintext
    &&& same_input(p.amount, amount)
    &&& p.priority_fee_plaintext@ == priority_fee_plaintext
    &&& same_input(p.priority_fee, priority_fee)
    &&& p.nonce == nonce
    &&& p.priority_flag == priority_flag
    &&& p.executor@ == zero_bytes(20)
    &&& p.signature@.len() == 0
}

/// An order that passed authentication and the replay check, waiting for
/// settlement. Only `EVVMCafhe::order_coffee` creates one.
#[derive(Debug, Clone)]
pub struct PendingOrder {
    client: Address,
    nonce: Word,
    payment: PaymentRequest,
}

impl PendingOrder {
    /// The client who signed the order.
    pub closed spec fn spec_client(&self) -> Address {
        self.client
    }

    /// The client's order nonce.
    pub closed spec fn spec_nonce(&self) -> Word {
        self.nonce
    }

    /// The payment that settles the order.
    pub closed spec fn spec_payment(&self) -> PaymentRequest {
        self.payment
    }

    /// The client who signed the order.
    pub fn client(&self) -> (r: Address)
        ensures
            r == self.spec_client(),
    {
        self.client
    }

    /// The client's order nonce.
    pub fn nonce(&self) -> (r: Word)
        ensures
            r == self.spec_nonce(),
    {
        self.nonce
    }

    /// The payment to send to the ledger.
    pub fn payment(&self) -> (r: &PaymentRequest)
        ensures
            *r == self.spec_payment(),
    {
        &self.payment
    }
}

fn to_encrypted_input(i: &InEuint64) -> (e: EncryptedInput)
    ensures
        same_input(e, *i),
{
    EncryptedInput {
        ct_hash: i.ct_hash,
        security_zone: i.security_zone,
        utype: i.utype,
        signature: i.signature.clone(),
    }
}

fn payment(
    from: Address,
    to: Address,
    token: Address,
    amount_plaintext: Word,
    amount: &InEuint64,
    priority_fee_plaintext: Word,
    priority_fee: &InEuint64,
    nonce: Word,
    priority_flag: bool,
) -> (p: PaymentRequest)
    ensures
        payment_of(
            p,
            from,
            to,
            token@,
            amount_plaintext@,
            *amount,
            priority_fee_plaintext@,
            *priority_fee,
            nonce,
            priority_flag,
        ),
{
    let executor: Address = [0u8; 20];
    proof {
        assert(executor@ =~= zero_bytes(20));
    }
    PaymentRequest {
        from,
        to,
        to_identity: Vec::new(),
        token,
        amount_plaintext,
        amount: to_encrypted_input(amount),
        priority_fee_plaintext,
        priority_fee: to_encrypted_input(priority_fee),
        nonce,
        priority_flag,
        executor,
        signature: Vec::new(),
    }
}

/// The coffee shop: the ledger it settles on, its owner, and the nonces its
/// clients have consumed.
pub struct EVVMCafhe {
    evvm_core: Address,
    owner_of_shop: Address,
    check_async_nonce: NonceRegistry,
}

impl EVVMCafhe {
    /// The ledger address.
    pub closed spec fn spec_evvm_core(&self) -> Address {
        self.evvm_core
    }

    /// The owner's address.
    pub closed spec fn spec_owner(&self) -> Address {
        self.owner_of_shop
    }

    /// The consumed (client, nonce) pairs.
    pub closed spec fn used_nonces(&self) -> Set<(Address, Word)> {
        self.check_async_nonce@
    }

    /// A shop with zero addresses and no consumed nonce.
    pub fn new() -> (r: Self)
        ensures
            r.spec_evvm_core()@ == zero_bytes(20),
            r.spec_owner()@ == zero_bytes(20),
            r.used_nonces() == Set::<(Address, Word)>::empty(),
    {
        let zero: Address = [0u8; 20];
        proof {
            assert(zero@ =~= zero_bytes(20));
        }
        EVVMCafhe { evvm_core: zero, owner_of_shop: zero, check_async_nonce: NonceRegistry::new() }
    }

    /// Sets the ledger and the owner; the consumed nonces stay.
    pub fn initialize(&mut self, evvm_core_address: Address, owner_of_shop: Address)
        ensures
            final(self).spec_evvm_core() == evvm_core_address,
            final(self).spec_owner() == owner_of_shop,
            final(self).used_nonces() == old(self).used_nonces(),
            old(self).used_nonces().subset_of(final(self).used_nonces()),
    {
        self.evvm_core = evvm_core_address;
        self.owner_of_shop = owner_of_shop;
    }

    /// Authenticates an order and checks its nonce. On success, yields the
    /// payment of the price and priority fee from the client to `shop`, in
    /// ether; nothing is consumed yet.
    pub fn order_coffee(
        &self,
        evvm_id: &Word,
        shop: Address,
        client_address: Address,
        coffee_type: &str,
        quantity: &Word,
        total_price_plaintext: &Word,
        input_encrypted_total_price: &InEuint64,
        nonce: &Word,
        signature: &[u8],
        priority_fee_plaintext: &Word,
        input_encrypted_priority_fee: &InEuint64,
        nonce_evvm: &Word,
        priority_flag_evvm: bool,
    ) -> (r: Result<PendingOrder, OrderError>)
        ensures
            ({
                let decision = order_decision(
                    self.used_nonces(),
                    order_message(*evvm_id, coffee_type.spec_bytes(), *quantity, *total_price_plaintext, *nonce),
                    signature@,
                    client_address,
                    *nonce,
                );
                match r {
                    Ok(p) => decision is Ok && p.spec_client() == client_address && p.spec_nonce() == *nonce
                        && payment_of(
                        p.spec_payment(),
                        client_address,
                        shop,
                        ether_token(),
                        total_price_plaintext@,
                        *input_encrypted_total_price,
                        priority_fee_plaintext@,
                        *input_encrypted_priority_fee,
                        *nonce_evvm,
                        priority_flag_evvm,
                    ),
                    Err(e) => decision == Err::<(), OrderError>(e),
                }
            }),
    {
        let fields: Vec<Vec<u8>> = vec![
            vstd::slice::slice_to_vec(coffee_type.as_bytes()),
            word_decimal(quantity),
            word_decimal(total_price_plaintext),
            word_decimal(nonce),
        ];
        let domain = word_decimal(evvm_id);
        let operation: Vec<u8> = vec![111u8, 114u8, 100u8, 101u8, 114u8, 67u8, 111u8, 102u8, 102u8, 101u8, 101u8];
        proof {
            assert(operation@ =~= order_operation());
            assert(fields@.map_values(|f: Vec<u8>| f@) =~= seq![
                coffee_type.spec_bytes(),
                decimal(be_value(quantity@)),
                decimal(be_value(total_price_plaintext@)),
                decimal(be_value(nonce@)),
            ]);
        }
        let verified = SignatureRecover::verify(
            domain.as_slice(),
            operation.as_slice(),
            fields.as_slice(),
            signature,
            client_address,
        );
        match verified {
            Ok(true) => {},
            _ => {
                return Err(OrderError::InvalidSignature);
            },
        }
        if self.check_async_nonce.is_used(&client_address, nonce) {
            return Err(OrderError::NonceAlreadyUsed);
        }
        let ether: Address = [0u8; 20];
        proof {
            assert(ether@ =~= ether_token());
        }
        let p = payment(
            client_address,
            shop,
            ether,
            *total_price_plaintext,
            input_encrypted_total_price,
            *priority_fee_plaintext,
            input_encrypted_priority_fee,
            *nonce_evvm,
            priority_flag_evvm,
        );
        Ok(PendingOrder { client: client_address, nonce: *nonce, payment: p })
    }

    /// Takes the ledger's answer on a pending order. When the payment went
    /// through the order's nonce is consumed, which cannot fail; when it did
    /// not, nothing changes and the order fails with `PaymentFailed`.
    pub fn complete_order(&mut self, order: &PendingOrder, settled: bool) -> (r: Result<(), OrderError>)
        ensures
            final(self).spec_evvm_core() == old(self).spec_evvm_core(),
            final(self).spec_owner() == old(self).spec_owner(),
            settled ==> r is Ok && final(self).used_nonces() == old(self).used_nonces().insert(
                (order.spec_client(), order.spec_nonce()),
            ),
            old(self).used_nonces().subset_of(final(self).used_nonces()),
            !settled ==> r == Err::<(), _>(OrderError::PaymentFailed) && final(self).used_nonces()
                == old(self).used_nonces(),
    {
        if !settled {
            return Err(OrderError::PaymentFailed);
        }
        self.check_async_nonce.mark_used(&order.client, &order.nonce);
        Ok(())
    }

    /// The payment that sends the shop's principal-token rewards to `to`;
    /// only the owner may ask for it.
    pub fn withdraw_rewards(
        &self,
        sender: Address,
        shop: Address,
        to: Address,
        input_encrypted_balance: &InEuint64,
        nonce_evvm: &Word,
        priority_flag_evvm: bool,
        input_encrypted_priority_fee: &InEuint64,
    ) -> (r: Result<PaymentRequest, OrderError>)
        ensures
            sender != self.spec_owner() ==> r == Err::<PaymentRequest, _>(OrderError::Unauthorized),
            sender == self.spec_owner() ==> (r matches Ok(p) && payment_of(
                p,
                shop,
                to,
                principal_token(),
                zero_bytes(32),
                *input_encrypted_balance,
                zero_bytes(32),
                *input_encrypted_priority_fee,
                *nonce_evvm,
                priority_flag_evvm,
            )),
    {
        if !same_address(&sender, &self.owner_of_shop) {
            return Err(OrderError::Unauthorized);
        }
        let mut token: Address = [0u8; 20];
        token[19] = 1u8;
        let zero: Word = [0u8; 32];
        proof {
            assert(token@ =~= principal_token());
            assert(zero@ =~= zero_bytes(32));
        }
        Ok(payment(
            shop,
            to,
            token,
            zero,
            input_encrypted_balance,
            zero,
            input_encrypted_priority_fee,
            *nonce_evvm,
            priority_flag_evvm,
        ))
    }

    /// The payment that sends the shop's ether to `to`; only the owner may
    /// ask for it.
    pub fn withdraw_funds(
        &self,
        sender: Address,
        shop: Address,
        to: Address,
        input_encrypted_balance: &InEuint64,
        nonce_evvm: &Word,
        priority_flag_evvm: bool,
        input_encrypted_priority_fee: &InEuint64,
    ) -> (r: Result<PaymentRequest, OrderError>)
        ensures
            sender != self.spec_owner() ==> r == Err::<PaymentRequest, _>(OrderError::Unauthorized),
            sender == self.spec_owner() ==> (r matches Ok(p) && payment_of(
                p,
                shop,
                to,
                ether_token(),
                zero_bytes(32),
                *input_encrypted_balance,
                zero_bytes(32),
                *input_encrypted_priority_fee,
                *nonce_evvm,
                priority_flag_evvm,
            )),
    {
        if !same_address(&sender, &self.owner_of_shop) {
            return Err(OrderError::Unauthorized);
        }
        let ether: Address = [0u8; 20];
        let zero: Word = [0u8; 32];
        proof {
            assert(ether@ =~= ether_token());
            assert(zero@ =~= zero_bytes(32));
        }
        Ok(payment(
            shop,
            to,
            ether,
            zero,
            input_encrypted_balance,
            zero,
            input_encrypted_priority_fee,
            *nonce_evvm,
            priority_flag_evvm,
        ))
    }

    /// Whether `nonce` has been consumed for `client_address`.
    pub fn is_this_nonce_used(&self, client_address: Address, nonce: Word) -> (r: bool)
        ensures
            r == self.used_nonces().contains((client_address, nonce)),
    {
        self.check_async_nonce.is_used(&client_address, &nonce)
    }

    /// The principal token's id, 0x00..01.
    pub fn get_principal_token_address(&self) -> (r: Address)
        ensures
            r@ == principal_token(),
    {
        let mut token: Address = [0u8; 20];
        token[19] = 1u8;
        proof {
            assert(token@ =~= principal_token());
        }
        token
    }

    /// Ether's token id, the zero address.
    pub fn get_ether_address(&self) -> (r: Address)
        ensures
            r@ == ether_token(),
    {
        let ether: Address = [0u8; 20];
        proof {
            assert(ether@ =~= ether_token());
        }
        ether
    }

    /// The ledger address.
    pub fn get_evvm_address(&self) -> (r: Address)
        ensures
            r == self.spec_evvm_core(),
    {
        self.evvm_core
    }

    /// The owner's address.
    pub fn get_owner(&self) -> (r: Address)
        ensures
            r == self.spec_owner(),
    {
        self.owner_of_shop
    }
}

} // verus!
