use vstd::prelude::*;

verus! {

use crate::byte_ops::clone_bytes;

/// Numeric value of a big-endian byte string.
pub open spec fn be_nat(s: Seq<u8>) -> nat
    decreases s.len(),
{
    if s.len() == 0 {
        0
    } else {
        be_nat(s.drop_last()) * 256 + (s.last() as nat)
    }
}

/// Numeric value of a string of ASCII decimal digits.
pub open spec fn dec_nat(s: Seq<u8>) -> nat
    decreases s.len(),
{
    if s.len() == 0 {
        0
    } else {
        dec_nat(s.drop_last()) * 10 + ((s.last() - 48) as nat)
    }
}

/// True when the string is non-empty and all its bytes are ASCII decimal digits.
pub open spec fn is_dec_digits(s: Seq<u8>) -> bool {
    s.len() > 0 && forall|i: int| 0 <= i < s.len() ==> 48 <= #[trigger] s[i] <= 57
}

/// A non-negative arbitrary-precision amount, held as big-endian bytes.
/// The byte string is the value's only representation; its numeric value
/// is the view. Leading zero bytes are allowed and do not change the value.
#[derive(Debug)]
pub struct BigUint {
    pub bytes: Vec<u8>,
}

impl View for BigUint {
    type V = nat;

    open spec fn view(&self) -> nat {
        be_nat(self.bytes@)
    }
}

impl BigUint {
    /// The zero amount, with no bytes at all.
    pub fn new_zero() -> (r: BigUint)
        ensures
            r@ == 0,
    {
        BigUint { bytes: Vec::new() }
    }

    /// An exact copy of the amount.
    pub fn duplicate(&self) -> (r: BigUint)
        ensures
            r@ == self@,
            r.bytes@ == self.bytes@,
    {
        BigUint { bytes: clone_bytes(&self.bytes) }
    }
}

/// A leading zero byte does not change a big-endian value.
pub proof fn lemma_be_nat_drop_leading_zero(s: Seq<u8>)
    requires
        s.len() > 0,
        s[0] == 0,
    ensures
        be_nat(s) == be_nat(s.drop_first()),
    decreases s.len(),
{
    if s.len() == 1 {
        assert(s.drop_last() =~= Seq::<u8>::empty());
        assert(s.drop_first() =~= Seq::<u8>::empty());
        assert(be_nat(s) == be_nat(s.drop_last()) * 256 + (s.last() as nat));
        assert(s.last() == 0);
    } else {
        let sdl = s.drop_last();
        assert(sdl.len() > 0 && sdl[0] == 0);
        lemma_be_nat_drop_leading_zero(sdl);
        assert(sdl.drop_first() =~= s.drop_first().drop_last());
        assert(be_nat(s.drop_first()) == be_nat(s.drop_first().drop_last()) * 256 + (
        s.drop_first().last() as nat));
        assert(s.drop_first().last() == s.last());
    }
}

/// Extending a digit string can only grow the number it denotes.
pub proof fn lemma_dec_nat_prefix(s: Seq<u8>, i: int)
    requires
        0 <= i <= s.len(),
        forall|j: int| 0 <= j < s.len() ==> 48 <= #[trigger] s[j] <= 57,
    ensures
        dec_nat(s) >= dec_nat(s.subrange(0, i)),
    decreases s.len() - i,
{
    if i < s.len() {
        let p = s.subrange(0, i);
        let q = s.subrange(0, i + 1);
        assert(q.drop_last() =~= p);
        assert(dec_nat(q) == dec_nat(p) * 10 + ((q.last() - 48) as nat));
        lemma_dec_nat_prefix(s, i + 1);
    } else {
        assert(s.subrange(0, i) =~= s);
    }
}

/// The value's bytes with every leading zero byte removed: the value is
/// kept and the first remaining byte, if any, is not zero.
pub fn strip_leading_zeros(v: Vec<u8>) -> (r: Vec<u8>)
    ensures
        be_nat(r@) == be_nat(v@),
        r@.len() == 0 || r@[0] != 0,
{
    let mut r = v;
    while r.len() > 0 && r[0] == 0
        invariant
            be_nat(r@) == be_nat(v@),
        decreases r@.len(),
    {
        proof {
            lemma_be_nat_drop_leading_zero(r@);
            assert(r@.remove(0) =~= r@.drop_first());
        }
        let _ = r.remove(0);
    }
    r
}

/// Relies on num_traits::Zero for num_bigint::BigUint: `zero()` returns the
/// value 0, and `to_bytes_be` of it is a byte string of value 0.
#[verifier::external_body]
pub(crate) fn big_zero() -> (r: BigUint)
    ensures
        r@ == 0,
{
    BigUint { bytes: <num_bigint::BigUint as num_traits::Zero>::zero().to_bytes_be() }
}

/// Relies on num_traits::Zero::is_zero for num_bigint::BigUint, after
/// num_bigint::BigUint::from_bytes_be, which reads big-endian bytes.
#[verifier::external_body]
pub(crate) fn big_is_zero(a: &BigUint) -> (r: bool)
    ensures
        r == (a@ == 0),
{
    num_traits::Zero::is_zero(&num_bigint::BigUint::from_bytes_be(&a.bytes))
}

/// Relies on the Add impl of num_bigint::BigUint, with from_bytes_be and
/// to_bytes_be converting at the boundary: the result encodes the sum.
#[verifier::external_body]
pub(crate) fn big_add(a: &BigUint, b: &BigUint) -> (r: BigUint)
    ensures
        r@ == a@ + b@,
{
    let x = num_bigint::BigUint::from_bytes_be(&a.bytes);
    let y = num_bigint::BigUint::from_bytes_be(&b.bytes);
    BigUint { bytes: (x + y).to_bytes_be() }
}

/// Relies on num_traits::CheckedSub for num_bigint::BigUint: `checked_sub`
/// returns None exactly when the subtrahend is larger, and otherwise the
/// difference.
#[verifier::external_body]
pub(crate) fn big_checked_sub(a: &BigUint, b: &BigUint) -> (r: Option<BigUint>)
    ensures
        (r is Some) <==> a@ >= b@,
        r is Some ==> r->0@ == a@ - b@,
{
    let x = num_bigint::BigUint::from_bytes_be(&a.bytes);
    let y = num_bigint::BigUint::from_bytes_be(&b.bytes);
    match num_traits::CheckedSub::checked_sub(&x, &y) {
        Some(d) => Some(BigUint { bytes: d.to_bytes_be() }),
        None => None,
    }
}

/// Relies on num_bigint::BigUint::parse_bytes with radix 10: for a non-empty
/// all-digit input it returns the number those decimal digits denote.
#[verifier::external_body]
pub(crate) fn big_parse_dec(s: &Vec<u8>) -> (r: BigUint)
    requires
        is_dec_digits(s@),
    ensures
        r@ == dec_nat(s@),
{
    let parsed = num_bigint::BigUint::parse_bytes(s.as_slice(), 10).unwrap();
    BigUint { bytes: parsed.to_bytes_be() }
}

} // verus!
