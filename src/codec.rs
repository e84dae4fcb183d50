//! Byte codec and hash utilities: canonical message construction, decimal
//! rendering, the personal-message frame and Keccak-256.
use vstd::prelude::*;

verus! {

/// A 256-bit unsigned integer or hash in big-endian byte order.
pub type Word = [u8; 32];

/// A 20-byte account identity.
pub type Address = [u8; 20];

/// The value of a big-endian byte string.
pub open spec fn be_value(s: Seq<u8>) -> nat
    decreases s.len(),
{
    if s.len() == 0 {
        0
    } else {
        be_value(s.drop_last()) * 256 + s.last() as nat
    }
}

/// The ASCII decimal digits of `n`, without leading zeros.
pub open spec fn decimal(n: nat) -> Seq<u8>
    decreases n,
{
    if n < 10 {
        seq![(48 + n) as u8]
    } else {
        decimal(n / 10).push((48 + n % 10) as u8)
    }
}

/// The parts joined by single commas.
pub open spec fn join_commas(parts: Seq<Seq<u8>>) -> Seq<u8>
    decreases parts.len(),
{
    if parts.len() == 0 {
        Seq::empty()
    } else if parts.len() == 1 {
        parts[0]
    } else {
        join_commas(parts.drop_last()).push(44u8) + parts.last()
    }
}

/// The canonical message "<domain>,<operation>,<field1>,...,<fieldN>".
pub open spec fn canonical_message(domain: Seq<u8>, operation: Seq<u8>, fields: Seq<Seq<u8>>) -> Seq<
    u8,
> {
    join_commas(seq![domain, operation] + fields)
}

/// The personal-message prefix "\x19Ethereum Signed Message:\n".
pub open spec fn personal_prefix() -> Seq<u8> {
    seq![
        0x19u8, 69u8, 116u8, 104u8, 101u8, 114u8, 101u8, 117u8, 109u8, 32u8,
        83u8, 105u8, 103u8, 110u8, 101u8, 100u8, 32u8,
        77u8, 101u8, 115u8, 115u8, 97u8, 103u8, 101u8, 58u8, 10u8,
    ]
}

/// The bytes that are hashed for a signed personal message: the prefix, the
/// message length in decimal, then the message.
pub open spec fn personal_frame(message: Seq<u8>) -> Seq<u8> {
    personal_prefix() + decimal(message.len()) + message
}

/// What Keccak-256 yields on `data`.
pub uninterp spec fn keccak256_of(data: Seq<u8>) -> Seq<u8>;

/// Relies on alloy_primitives::keccak256 (re-exported by stylus_sdk): the
/// 32-byte Keccak-256 digest of the input, a function of the input alone.
#[verifier::external_body]
pub(crate) fn keccak256(data: &[u8]) -> (r: Word)
    ensures
        r@ == keccak256_of(data@),
{
    stylus_sdk::alloy_primitives::keccak256(data).0
}

/// Relies on ruint's `Display` for `U256` (alloy_primitives::U256): the
/// decimal digits of the big-endian value, without leading zeros.
#[verifier::external_body]
pub(crate) fn word_decimal(w: &Word) -> (r: Vec<u8>)
    ensures
        r@ == decimal(be_value(w@)),
{
    stylus_sdk::alloy_primitives::U256::from_be_bytes(*w).to_string().into_bytes()
}

/// Appends the decimal digits of `n` to `out`.
pub fn push_decimal(n: usize, out: &mut Vec<u8>)
    ensures
        final(out)@ == old(out)@ + decimal(n as nat),
    decreases n,
{
    if n >= 10 {
        push_decimal(n / 10, out);
    }
    out.push((48 + n % 10) as u8);
    proof {
        assert(final(out)@ == old(out)@ + decimal(n as nat));
    }
}

/// Appends `part` to `out`, preceded by a comma when `out` is not the start
/// of the message.
fn push_part(out: &mut Vec<u8>, part: &[u8], first: bool)
    ensures
        first ==> final(out)@ == old(out)@ + part@,
        !first ==> final(out)@ == old(out)@.push(44u8) + part@,
{
    if !first {
        out.push(44u8);
    }
    out.extend_from_slice(part);
}

/// Builds the canonical message from a domain id, an operation name and the
/// fields in their declared order.
pub fn canonical_message_bytes(domain: &[u8], operation: &[u8], fields: &[Vec<u8>]) -> (r: Vec<u8>)
    ensures
        r@ == canonical_message(domain@, operation@, fields@.map_values(|f: Vec<u8>| f@)),
{
    let ghost parts = seq![domain@, operation@] + fields@.map_values(|f: Vec<u8>| f@);
    let mut out: Vec<u8> = Vec::new();
    push_part(&mut out, domain, true);
    proof {
        assert(parts.subrange(0, 1) =~= seq![domain@]);
    }
    push_part(&mut out, operation, false);
    proof {
        assert(parts.subrange(0, 2).drop_last() =~= parts.subrange(0, 1));
        assert(join_commas(parts.subrange(0, 1)) == domain@);
        assert(parts.subrange(0, 2).last() == operation@);
        assert(out@ == join_commas(parts.subrange(0, 2)));
    }
    let mut i: usize = 0;
    while i < fields.len()
        invariant
            i <= fields@.len(),
            parts == seq![domain@, operation@] + fields@.map_values(|f: Vec<u8>| f@),
            out@ == join_commas(parts.subrange(0, i + 2)),
        decreases fields@.len() - i,
    {
        push_part(&mut out, fields[i].as_slice(), false);
        proof {
            assert(parts.subrange(0, i + 3).drop_last() =~= parts.subrange(0, i + 2));
            assert(parts[i + 2] == fields@[i as int]@);
            assert(parts.subrange(0, i + 3).last() == parts[i + 2]);
        }
        i = i + 1;
    }
    proof {
        assert(parts.subrange(0, i + 2) =~= parts);
    }
    out
}

/// Frames a message as a signed personal message: prefix, decimal length,
/// message.
pub fn personal_frame_bytes(message: &[u8]) -> (r: Vec<u8>)
    ensures
        r@ == personal_frame(message@),
{
    let mut out: Vec<u8> = vec![
        0x19u8, 69u8, 116u8, 104u8, 101u8, 114u8, 101u8, 117u8, 109u8, 32u8,
        83u8, 105u8, 103u8, 110u8, 101u8, 100u8, 32u8,
        77u8, 101u8, 115u8, 115u8, 97u8, 103u8, 101u8, 58u8, 10u8,
    ];
    proof {
        assert(out@ =~= personal_prefix());
    }
    push_decimal(message.len(), &mut out);
    out.extend_from_slice(message);
    out
}

/// The digest that a personal-message signature commits to.
pub fn personal_digest(message: &[u8]) -> (r: Word)
    ensures
        r@ == keccak256_of(personal_frame(message@)),
{
    let framed = personal_frame_bytes(message);
    keccak256(framed.as_slice())
}

/// Whether two byte strings are equal.
pub fn bytes_equal(a: &[u8], b: &[u8]) -> (r: bool)
    ensures
        r == (a@ == b@),
{
    if a.len() != b.len() {
        return false;
    }
    let mut i: usize = 0;
    while i < a.len()
        invariant
            a@.len() == b@.len(),
            i <= a@.len(),
            forall|j: int| 0 <= j < i ==> a@[j] == b@[j],
        decreases a@.len() - i,
    {
        if a[i] != b[i] {
            return false;
        }
        i = i + 1;
    }
    proof {
        assert(a@ =~= b@);
    }
    true
}

/// Whether two addresses are equal.
pub fn same_address(a: &Address, b: &Address) -> (r: bool)
    ensures
        r == (*a == *b),
{
    let r = bytes_equal(a, b);
    proof {
        if r {
            assert(*a =~= *b);
        }
    }
    r
}

/// Whether two words are equal.
pub fn same_word(a: &Word, b: &Word) -> (r: bool)
    ensures
        r == (*a == *b),
{
    let r = bytes_equal(a, b);
    proof {
        if r {
            assert(*a =~= *b);
        }
    }
    r
}

} // verus!
