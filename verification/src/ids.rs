//! Identifiers of meetups, papers and users, and their 16-byte big-endian
//! storage encoding.

use vstd::prelude::*;

verus! {

/// A ULID, held as its 128-bit value.
#[derive(Clone, Copy, Debug, PartialEq, Eq, Structural)]
pub struct Ulid(pub u128);

/// The number that a byte sequence spells in big-endian order.
pub open spec fn be_value(bytes: Seq<u8>) -> nat
    decreases bytes.len(),
{
    if bytes.len() == 0 {
        0
    } else {
        be_value(bytes.drop_last()) * 256 + bytes.last() as nat
    }
}

/// The `n` lowest bytes of `value`, most significant first.
pub open spec fn be_bytes(value: nat, n: nat) -> Seq<u8>
    decreases n,
{
    if n == 0 {
        Seq::empty()
    } else {
        be_bytes(value / 256, (n - 1) as nat).push((value % 256) as u8)
    }
}

/// `256` raised to `n`.
pub open spec fn pow256(n: nat) -> nat
    decreases n,
{
    if n == 0 {
        1
    } else {
        256 * pow256((n - 1) as nat)
    }
}

/// Calls `ulid::Ulid::from_bytes`, which reads the array as a big-endian
/// `u128` (`u128::from_be_bytes`); the contract says exactly that.
#[verifier::external_body]
fn ulid_value_from_bytes(bytes: [u8; 16]) -> (value: u128)
    ensures
        value == be_value(bytes@),
{
    ulid::Ulid::from_bytes(bytes).0
}

/// Calls `ulid::Ulid::to_bytes`, which writes the value as 16 big-endian
/// bytes (`u128::to_be_bytes`); the contract says exactly that.
#[verifier::external_body]
fn ulid_value_to_bytes(value: u128) -> (bytes: [u8; 16])
    ensures
        bytes@ == be_bytes(value as nat, 16),
{
    ulid::Ulid(value).to_bytes()
}

impl Ulid {
    /// The identifier that 16 big-endian bytes encode.
    pub fn from_bytes(bytes: [u8; 16]) -> (id: Ulid)
        ensures
            id.0 == be_value(bytes@),
    {
        Ulid(ulid_value_from_bytes(bytes))
    }

    /// The 16 big-endian bytes of the identifier.
    pub fn to_bytes(&self) -> (bytes: [u8; 16])
        ensures
            bytes@ == be_bytes(self.0 as nat, 16),
            bytes@.len() == 16,
    {
        let bytes = ulid_value_to_bytes(self.0);
        proof {
            lemma_be_bytes_len(self.0 as nat, 16);
        }
        bytes
    }

    /// The identifier stored in a byte column: `None` unless the column
    /// holds exactly 16 bytes.
    pub fn from_slice(bytes: &[u8]) -> (id: Option<Ulid>)
        ensures
            id is Some <==> bytes@.len() == 16,
            id matches Some(id) ==> id.0 == be_value(bytes@),
    {
        if bytes.len() != 16 {
            return None;
        }
        let array: [u8; 16] = [
            bytes[0], bytes[1], bytes[2], bytes[3], bytes[4], bytes[5], bytes[6], bytes[7],
            bytes[8], bytes[9], bytes[10], bytes[11], bytes[12], bytes[13], bytes[14], bytes[15],
        ];
        assert(array@ =~= bytes@);
        Some(Ulid::from_bytes(array))
    }
}

/// `be_bytes` yields exactly `n` bytes.
pub proof fn lemma_be_bytes_len(value: nat, n: nat)
    ensures
        be_bytes(value, n).len() == n,
    decreases n,
{
    if n > 0 {
        lemma_be_bytes_len(value / 256, (n - 1) as nat);
    }
}

/// Every `n`-byte sequence spells a number below `256^n`.
pub proof fn lemma_be_value_bound(bytes: Seq<u8>)
    ensures
        be_value(bytes) < pow256(bytes.len()),
    decreases bytes.len(),
{
    if bytes.len() > 0 {
        let p = bytes.drop_last();
        lemma_be_value_bound(p);
        let a = be_value(p);
        let b = pow256(p.len());
        let l = bytes.last() as nat;
        assert(a * 256 + l < 256 * b) by (nonlinear_arith)
            requires
                a < b,
                l < 256,
        ;
    }
}

/// Writing a number below `256^n` as `n` bytes and reading them back gives
/// the number again.
pub proof fn lemma_be_value_of_be_bytes(value: nat, n: nat)
    requires
        value < pow256(n),
    ensures
        be_value(be_bytes(value, n)) == value,
    decreases n,
{
    if n > 0 {
        let q = value / 256;
        let r = value % 256;
        let b = pow256((n - 1) as nat);
        assert(q < b && value == q * 256 + r && r < 256) by (nonlinear_arith)
            requires
                value < 256 * b,
                q == value / 256,
                r == value % 256,
        ;
        lemma_be_value_of_be_bytes(q, (n - 1) as nat);
        let s = be_bytes(value, n);
        assert(s.drop_last() =~= be_bytes(q, (n - 1) as nat));
    } else {
        assert(be_bytes(value, 0) =~= Seq::<u8>::empty());
    }
}

/// Reading `n` bytes as a number and writing it back as `n` bytes gives the
/// same bytes.
pub proof fn lemma_be_bytes_of_be_value(bytes: Seq<u8>)
    ensures
        be_bytes(be_value(bytes), bytes.len()) == bytes,
    decreases bytes.len(),
{
    if bytes.len() == 0 {
        assert(be_bytes(0, 0) =~= bytes);
    } else {
        let p = bytes.drop_last();
        let a = be_value(p);
        let l = bytes.last() as nat;
        let v = a * 256 + l;
        assert(v / 256 == a && v % 256 == l) by (nonlinear_arith)
            requires
                v == a * 256 + l,
                l < 256,
        ;
        lemma_be_bytes_of_be_value(p);
        assert(be_bytes(v, bytes.len()) =~= bytes);
    }
}

/// `256^16` is one more than the largest `u128`.
pub proof fn lemma_pow256_16()
    ensures
        pow256(16) == u128::MAX + 1,
{
    reveal_with_fuel(pow256, 17);
}

/// Law: an identifier survives the trip through its 16-byte encoding.
pub proof fn law_ulid_bytes_round_trip(id: Ulid)
    ensures
        be_value(be_bytes(id.0 as nat, 16)) == id.0,
{
    lemma_pow256_16();
    lemma_be_value_of_be_bytes(id.0 as nat, 16);
}

/// Law: 16 bytes survive the trip through the identifier they encode.
pub proof fn law_bytes_ulid_round_trip(bytes: Seq<u8>)
    requires
        bytes.len() == 16,
    ensures
        be_value(bytes) <= u128::MAX,
        be_bytes(be_value(bytes), 16) == bytes,
{
    lemma_be_value_bound(bytes);
    lemma_pow256_16();
    lemma_be_bytes_of_be_value(bytes);
}

} // verus!
