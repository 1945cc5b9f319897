use vstd::prelude::*;

verus! {

use crate::big_uint::{
    be_nat, big_parse_dec, dec_nat, is_dec_digits, strip_leading_zeros, BigUint,
};
use crate::byte_ops::clone_bytes;
use crate::tx_input::{zero_32, Address, TxInput, TxInputDCT, H256};

/// Why a fixture field cannot be resolved to a typed value. An
/// interpretation error aborts fixture loading before any execution.
#[derive(Clone, Copy, Debug, PartialEq, Eq, Structural)]
pub enum InterpretError {
    BadHexLiteral,
    BadNumberLiteral,
    U64OutOfRange,
    AddressTooLong,
    BadAddressLiteral,
}

/// An ASCII hexadecimal digit, either case.
pub open spec fn is_hex_digit(b: u8) -> bool {
    (48 <= b <= 57) || (97 <= b <= 102) || (65 <= b <= 70)
}

/// The value of an ASCII hexadecimal digit.
pub open spec fn hex_val(b: u8) -> nat {
    if 48 <= b <= 57 {
        (b - 48) as nat
    } else if 97 <= b <= 102 {
        (b - 87) as nat
    } else if 65 <= b <= 70 {
        (b - 55) as nat
    } else {
        0
    }
}

/// A well-formed hexadecimal body: an even count of hex digits.
pub open spec fn hex_ok(h: Seq<u8>) -> bool {
    h.len() % 2 == 0 && forall|i: int| 0 <= i < h.len() ==> is_hex_digit(#[trigger] h[i])
}

/// The bytes a hexadecimal body denotes, two digits each.
pub open spec fn hex_bytes(h: Seq<u8>) -> Seq<u8> {
    Seq::new(h.len() / 2, |i: int| (hex_val(h[2 * i]) * 16 + hex_val(h[2 * i + 1])) as u8)
}

/// A literal starting with "0x".
pub open spec fn starts_0x(s: Seq<u8>) -> bool {
    s.len() >= 2 && s[0] == 48 && s[1] == 120
}

/// A literal starting with "str:".
pub open spec fn starts_str(s: Seq<u8>) -> bool {
    s.len() >= 4 && s[0] == 115 && s[1] == 116 && s[2] == 114 && s[3] == 58
}

/// A literal starting with "address:".
pub open spec fn starts_address(s: Seq<u8>) -> bool {
    s.len() >= 8 && s[0] == 97 && s[1] == 100 && s[2] == 100 && s[3] == 114 && s[4] == 101 && s[5]
        == 115 && s[6] == 115 && s[7] == 58
}

/// The error a byte-string literal carries, if any: a "0x" literal must be
/// well-formed hex; a "str:" literal and the empty literal always resolve;
/// anything else must be a decimal number.
pub open spec fn bytes_literal_err(s: Seq<u8>) -> Option<InterpretError> {
    if starts_0x(s) {
        if hex_ok(s.skip(2)) {
            None
        } else {
            Some(InterpretError::BadHexLiteral)
        }
    } else if starts_str(s) {
        None
    } else if s.len() == 0 {
        None
    } else if is_dec_digits(s) {
        None
    } else {
        Some(InterpretError::BadNumberLiteral)
    }
}

/// Whether `out` is what the byte-string literal `s` resolves to: hex
/// bytes for "0x", the verbatim tail for "str:", nothing for the empty
/// literal, and the minimal big-endian encoding for a decimal number.
pub open spec fn bytes_value_matches(s: Seq<u8>, out: Seq<u8>) -> bool {
    if starts_0x(s) {
        out == hex_bytes(s.skip(2))
    } else if starts_str(s) {
        out == s.skip(4)
    } else if s.len() == 0 {
        out.len() == 0
    } else {
        be_nat(out) == dec_nat(s) && (out.len() == 0 || out[0] != 0)
    }
}

/// The error an unsigned big-integer literal carries, if any: well-formed
/// "0x" hex, a decimal number, or the empty literal.
pub open spec fn biguint_literal_err(s: Seq<u8>) -> Option<InterpretError> {
    if starts_0x(s) {
        if hex_ok(s.skip(2)) {
            None
        } else {
            Some(InterpretError::BadHexLiteral)
        }
    } else if s.len() == 0 {
        None
    } else if is_dec_digits(s) {
        None
    } else {
        Some(InterpretError::BadNumberLiteral)
    }
}

/// The number an unsigned big-integer literal denotes, when it carries no
/// error.
pub open spec fn biguint_value_of(s: Seq<u8>) -> nat {
    if starts_0x(s) {
        be_nat(hex_bytes(s.skip(2)))
    } else {
        dec_nat(s)
    }
}

/// The error a u64 literal carries, if any: a decimal number that fits,
/// or the empty literal for 0.
pub open spec fn u64_literal_err(s: Seq<u8>) -> Option<InterpretError> {
    if s.len() == 0 {
        None
    } else if !is_dec_digits(s) {
        Some(InterpretError::BadNumberLiteral)
    } else if dec_nat(s) > u64::MAX {
        Some(InterpretError::U64OutOfRange)
    } else {
        None
    }
}

/// The error an address literal carries, if any: an "address:" shorthand
/// of at most 32 name bytes, or a "0x" literal of exactly 32 bytes.
pub open spec fn address_literal_err(s: Seq<u8>) -> Option<InterpretError> {
    if starts_address(s) {
        if s.len() - 8 <= 32 {
            None
        } else {
            Some(InterpretError::AddressTooLong)
        }
    } else if starts_0x(s) {
        if !hex_ok(s.skip(2)) {
            Some(InterpretError::BadHexLiteral)
        } else if s.skip(2).len() / 2 != 32 {
            Some(InterpretError::BadAddressLiteral)
        } else {
            None
        }
    } else {
        Some(InterpretError::BadAddressLiteral)
    }
}

/// The 32 address bytes a literal denotes, when it carries no error: the
/// shorthand's name padded on the right with '_' bytes, or the hex bytes.
pub open spec fn address_value_of(s: Seq<u8>) -> Seq<u8> {
    if starts_address(s) {
        s.skip(8) + Seq::new((32 - (s.len() - 8)) as nat, |i: int| 95u8)
    } else {
        hex_bytes(s.skip(2))
    }
}

/// The value of one hex digit byte, or None.
fn hex_digit_value(b: u8) -> (r: Option<u8>)
    ensures
        r is Some <==> is_hex_digit(b),
        r is Some ==> r->0 == hex_val(b),
{
    if 48 <= b && b <= 57 {
        Some(b - 48)
    } else if 97 <= b && b <= 102 {
        Some(b - 87)
    } else if 65 <= b && b <= 70 {
        Some(b - 55)
    } else {
        None
    }
}

/// Decodes the hex body of a "0x" literal: the bytes after the prefix.
#[verifier::loop_isolation(false)]
fn decode_hex_body(s: &Vec<u8>) -> (r: Result<Vec<u8>, InterpretError>)
    requires
        starts_0x(s@),
    ensures
        r is Ok <==> hex_ok(s@.skip(2)),
        r is Ok ==> r->Ok_0@ == hex_bytes(s@.skip(2)),
        r is Err ==> r->Err_0 == InterpretError::BadHexLiteral,
{
    let ghost h = s@.skip(2);
    if (s.len() - 2) % 2 != 0 {
        assert(h.len() % 2 != 0);
        return Err(InterpretError::BadHexLiteral);
    }
    let m = (s.len() - 2) / 2;
    let mut out: Vec<u8> = Vec::new();
    let mut k: usize = 0;
    while k < m
        invariant
            k <= m,
            out@.len() == k,
            forall|i: int| 0 <= i < 2 * k ==> is_hex_digit(#[trigger] h[i]),
            forall|i: int|
                0 <= i < k ==> out@[i] == (hex_val(h[2 * i]) * 16 + hex_val(h[2 * i + 1])) as u8,
        decreases m - k,
    {
        let hi = s[2 + 2 * k];
        let lo = s[3 + 2 * k];
        assert(hi == h[2 * k as int] && lo == h[2 * k as int + 1]);
        let hv = match hex_digit_value(hi) {
            Some(v) => v,
            None => {
                return Err(InterpretError::BadHexLiteral);
            },
        };
        let lv = match hex_digit_value(lo) {
            Some(v) => v,
            None => {
                return Err(InterpretError::BadHexLiteral);
            },
        };
        out.push(hv * 16 + lv);
        k += 1;
    }
    assert(out@ =~= hex_bytes(h));
    Ok(out)
}

/// Whether the literal is a non-empty string of decimal digits.
#[verifier::loop_isolation(false)]
fn check_dec_digits(s: &Vec<u8>) -> (r: bool)
    ensures
        r == is_dec_digits(s@),
{
    if s.len() == 0 {
        return false;
    }
    let mut i: usize = 0;
    while i < s.len()
        invariant
            i <= s@.len(),
            forall|j: int| 0 <= j < i ==> 48 <= #[trigger] s@[j] <= 57,
        decreases s@.len() - i,
    {
        let b = s[i];
        if b < 48 || b > 57 {
            return false;
        }
        i += 1;
    }
    true
}

/// Resolves a byte-string literal: "0x" hex, "str:" verbatim, the empty
/// literal, or a decimal number in its minimal big-endian encoding.
pub fn interpret_bytes(raw: &Vec<u8>) -> (r: Result<Vec<u8>, InterpretError>)
    ensures
        r is Ok <==> bytes_literal_err(raw@) is None,
        r is Ok ==> bytes_value_matches(raw@, r->Ok_0@),
        r is Err ==> Some(r->Err_0) == bytes_literal_err(raw@),
{
    if raw.len() >= 2 && raw[0] == 48 && raw[1] == 120 {
        decode_hex_body(raw)
    } else if raw.len() >= 4 && raw[0] == 115 && raw[1] == 116 && raw[2] == 114 && raw[3] == 58 {
        let mut out: Vec<u8> = Vec::new();
        let mut i: usize = 4;
        while i < raw.len()
            invariant
                4 <= i <= raw@.len(),
                out@ =~= raw@.subrange(4, i as int),
            decreases raw@.len() - i,
        {
            out.push(raw[i]);
            i += 1;
        }
        assert(out@ =~= raw@.skip(4));
        Ok(out)
    } else if raw.len() == 0 {
        Ok(Vec::new())
    } else if check_dec_digits(raw) {
        let n = big_parse_dec(raw);
        Ok(strip_leading_zeros(n.bytes))
    } else {
        Err(InterpretError::BadNumberLiteral)
    }
}

/// Resolves an unsigned big-integer literal: "0x" hex bytes, a decimal
/// number, or the empty literal for 0.
pub fn interpret_biguint_amount(raw: &Vec<u8>) -> (r: Result<BigUint, InterpretError>)
    ensures
        r is Ok <==> biguint_literal_err(raw@) is None,
        r is Ok ==> r->Ok_0@ == biguint_value_of(raw@),
        r is Err ==> Some(r->Err_0) == biguint_literal_err(raw@),
{
    if raw.len() >= 2 && raw[0] == 48 && raw[1] == 120 {
        match decode_hex_body(raw) {
            Ok(bytes) => Ok(BigUint { bytes }),
            Err(e) => Err(e),
        }
    } else if raw.len() == 0 {
        Ok(BigUint::new_zero())
    } else if check_dec_digits(raw) {
        Ok(big_parse_dec(raw))
    } else {
        Err(InterpretError::BadNumberLiteral)
    }
}

/// Resolves a u64 literal: a decimal number that fits in 64 bits, or the
/// empty literal for 0.
#[verifier::loop_isolation(false)]
pub fn interpret_u64(raw: &Vec<u8>) -> (r: Result<u64, InterpretError>)
    ensures
        r is Ok <==> u64_literal_err(raw@) is None,
        r is Ok ==> r->Ok_0 == dec_nat(raw@),
        r is Err ==> Some(r->Err_0) == u64_literal_err(raw@),
{
    if raw.len() == 0 {
        assert(dec_nat(raw@) == 0);
        return Ok(0);
    }
    if !check_dec_digits(raw) {
        return Err(InterpretError::BadNumberLiteral);
    }
    let mut v: u64 = 0;
    let mut i: usize = 0;
    while i < raw.len()
        invariant
            i <= raw@.len(),
            v == dec_nat(raw@.subrange(0, i as int)),
        decreases raw@.len() - i,
    {
        let d = raw[i] - 48;
        if v > (u64::MAX - (d as u64)) / 10 {
            proof {
                let q = raw@.subrange(0, i as int + 1);
                assert(q.drop_last() =~= raw@.subrange(0, i as int));
                assert(dec_nat(q) == dec_nat(raw@.subrange(0, i as int)) * 10 + ((q.last()
                    - 48) as nat));
                assert(dec_nat(q) > u64::MAX);
                crate::big_uint::lemma_dec_nat_prefix(raw@, i as int + 1);
            }
            return Err(InterpretError::U64OutOfRange);
        }
        proof {
            let q = raw@.subrange(0, i as int + 1);
            assert(q.drop_last() =~= raw@.subrange(0, i as int));
            assert(dec_nat(q) == dec_nat(raw@.subrange(0, i as int)) * 10 + ((q.last() - 48) as nat));
        }
        v = v * 10 + (d as u64);
        i += 1;
    }
    assert(raw@.subrange(0, raw@.len() as int) =~= raw@);
    Ok(v)
}

/// Resolves an address literal: an "address:" shorthand padded with '_'
/// bytes to 32, or exactly 32 "0x" hex bytes.
#[verifier::loop_isolation(false)]
pub fn interpret_address(raw: &Vec<u8>) -> (r: Result<Address, InterpretError>)
    ensures
        r is Ok <==> address_literal_err(raw@) is None,
        r is Ok ==> r->Ok_0@ == address_value_of(raw@) && r->Ok_0.wf(),
        r is Err ==> Some(r->Err_0) == address_literal_err(raw@),
{
    if raw.len() >= 8 && raw[0] == 97 && raw[1] == 100 && raw[2] == 100 && raw[3] == 114 && raw[4]
        == 101 && raw[5] == 115 && raw[6] == 115 && raw[7] == 58 {
        let name_len = raw.len() - 8;
        if name_len > 32 {
            return Err(InterpretError::AddressTooLong);
        }
        let mut bytes: Vec<u8> = Vec::new();
        let mut i: usize = 8;
        while i < raw.len()
            invariant
                8 <= i <= raw@.len(),
                bytes@ =~= raw@.subrange(8, i as int),
            decreases raw@.len() - i,
        {
            bytes.push(raw[i]);
            i += 1;
        }
        assert(bytes@ =~= raw@.skip(8));
        while bytes.len() < 32
            invariant
                raw@.skip(8).len() <= bytes@.len() <= 32,
                bytes@ =~= raw@.skip(8) + Seq::new(
                    (bytes@.len() - raw@.skip(8).len()) as nat,
                    |k: int| 95u8,
                ),
            decreases 32 - bytes@.len(),
        {
            bytes.push(95);
            assert(bytes@ =~= raw@.skip(8) + Seq::new(
                (bytes@.len() - raw@.skip(8).len()) as nat,
                |k: int| 95u8,
            ));
        }
        assert(bytes@ =~= address_value_of(raw@));
        Ok(Address { bytes })
    } else if raw.len() >= 2 && raw[0] == 48 && raw[1] == 120 {
        match decode_hex_body(raw) {
            Ok(bytes) => {
                if bytes.len() != 32 {
                    Err(InterpretError::BadAddressLiteral)
                } else {
                    Ok(Address { bytes })
                }
            },
            Err(e) => Err(e),
        }
    } else {
        Err(InterpretError::BadAddressLiteral)
    }
}

/// A resolved address: the 32 bytes and the literal they came from.
#[derive(Debug)]
pub struct AddressValue {
    pub value: Address,
    pub original: Vec<u8>,
}

impl AddressValue {
    /// Resolves an address literal, keeping the original text.
    pub fn interpret_from(raw: Vec<u8>) -> (r: Result<AddressValue, InterpretError>)
        ensures
            r is Ok <==> address_literal_err(raw@) is None,
            r is Ok ==> r->Ok_0.value@ == address_value_of(raw@) && r->Ok_0.original@ == raw@,
            r is Err ==> Some(r->Err_0) == address_literal_err(raw@),
    {
        match interpret_address(&raw) {
            Ok(value) => Ok(AddressValue { value, original: raw }),
            Err(e) => Err(e),
        }
    }

    /// The original literal back.
    pub fn into_raw(self) -> (r: Vec<u8>)
        ensures
            r@ == self.original@,
    {
        self.original
    }
}

/// A resolved unsigned big-integer amount and the literal it came from.
#[derive(Debug)]
pub struct BigUintValue {
    pub value: BigUint,
    pub original: Vec<u8>,
}

impl BigUintValue {
    /// Resolves an amount literal, keeping the original text.
    pub fn interpret_from(raw: Vec<u8>) -> (r: Result<BigUintValue, InterpretError>)
        ensures
            r is Ok <==> biguint_literal_err(raw@) is None,
            r is Ok ==> r->Ok_0.value@ == biguint_value_of(raw@) && r->Ok_0.original@ == raw@,
            r is Err ==> Some(r->Err_0) == biguint_literal_err(raw@),
    {
        match interpret_biguint_amount(&raw) {
            Ok(value) => Ok(BigUintValue { value, original: raw }),
            Err(e) => Err(e),
        }
    }

    /// The original literal back, as an optional raw field.
    pub fn into_raw_opt(self) -> (r: Option<Vec<u8>>)
        ensures
            r matches Some(v) && v@ == self.original@,
    {
        Some(self.original)
    }
}

/// A resolved u64 and the literal it came from.
#[derive(Debug)]
pub struct U64Value {
    pub value: u64,
    pub original: Vec<u8>,
}

impl U64Value {
    /// Resolves a u64 literal, keeping the original text.
    pub fn interpret_from(raw: Vec<u8>) -> (r: Result<U64Value, InterpretError>)
        ensures
            r is Ok <==> u64_literal_err(raw@) is None,
            r is Ok ==> r->Ok_0.value == dec_nat(raw@) && r->Ok_0.original@ == raw@,
            r is Err ==> Some(r->Err_0) == u64_literal_err(raw@),
    {
        match interpret_u64(&raw) {
            Ok(value) => Ok(U64Value { value, original: raw }),
            Err(e) => Err(e),
        }
    }

    /// The original literal back.
    pub fn into_raw(self) -> (r: Vec<u8>)
        ensures
            r@ == self.original@,
    {
        self.original
    }
}

/// A resolved byte string and the literal it came from.
#[derive(Debug)]
pub struct BytesValue {
    pub value: Vec<u8>,
    pub original: Vec<u8>,
}

impl BytesValue {
    /// Resolves a byte-string literal, keeping the original text.
    pub fn interpret_from(raw: Vec<u8>) -> (r: Result<BytesValue, InterpretError>)
        ensures
            r is Ok <==> bytes_literal_err(raw@) is None,
            r is Ok ==> bytes_value_matches(raw@, r->Ok_0.value@) && r->Ok_0.original@ == raw@,
            r is Err ==> Some(r->Err_0) == bytes_literal_err(raw@),
    {
        match interpret_bytes(&raw) {
            Ok(value) => Ok(BytesValue { value, original: raw }),
            Err(e) => Err(e),
        }
    }

    /// The original literal back.
    pub fn into_raw(self) -> (r: Vec<u8>)
        ensures
            r@ == self.original@,
    {
        self.original
    }
}

/// The native amount under the two legacy spellings: the explicit field
/// wins over the bare "value" field; with neither, the amount is 0. This
/// is the documented deterministic resolution policy — conflicting values
/// are resolved by precedence, not rejected.
pub open spec fn moax_literal_err(value: Option<Vec<u8>>, moax_value: Option<Vec<u8>>) -> Option<
    InterpretError,
> {
    match moax_value {
        Some(m) => biguint_literal_err(m@),
        None => match value {
            Some(v) => biguint_literal_err(v@),
            None => None,
        },
    }
}

/// The resolved native amount, by the same precedence.
pub open spec fn moax_value_of(value: Option<Vec<u8>>, moax_value: Option<Vec<u8>>) -> nat {
    match moax_value {
        Some(m) => biguint_value_of(m@),
        None => match value {
            Some(v) => biguint_value_of(v@),
            None => 0,
        },
    }
}

/// The literal the resolved native amount keeps, by the same precedence.
pub open spec fn moax_original_of(value: Option<Vec<u8>>, moax_value: Option<Vec<u8>>) -> Seq<u8> {
    match moax_value {
        Some(m) => m@,
        None => match value {
            Some(v) => v@,
            None => Seq::empty(),
        },
    }
}

/// Resolves the two native-amount spellings into one typed amount, the
/// explicit field taking precedence over the legacy bare field.
pub fn interpret_moax_value(value: &Option<Vec<u8>>, moax_value: &Option<Vec<u8>>) -> (r: Result<
    BigUintValue,
    InterpretError,
>)
    ensures
        r is Ok <==> moax_literal_err(*value, *moax_value) is None,
        r is Ok ==> r->Ok_0.value@ == moax_value_of(*value, *moax_value) && r->Ok_0.original@
            == moax_original_of(*value, *moax_value),
        r is Err ==> Some(r->Err_0) == moax_literal_err(*value, *moax_value),
{
    match moax_value {
        Some(m) => match interpret_biguint_amount(m) {
            Ok(v) => Ok(BigUintValue { value: v, original: clone_bytes(m) }),
            Err(e) => Err(e),
        },
        None => match value {
            Some(v) => match interpret_biguint_amount(v) {
                Ok(b) => Ok(BigUintValue { value: b, original: clone_bytes(v) }),
                Err(e) => Err(e),
            },
            None => Ok(BigUintValue { value: BigUint::new_zero(), original: Vec::new() }),
        },
    }
}

/// One raw token-transfer record of a fixture.
#[derive(Debug)]
pub struct TxDCTRaw {
    pub token_identifier: Vec<u8>,
    pub nonce: Vec<u8>,
    pub value: Vec<u8>,
}

/// One resolved token transfer of a fixture.
#[derive(Debug)]
pub struct TxDCT {
    pub token_identifier: BytesValue,
    pub nonce: U64Value,
    pub value: BigUintValue,
}

/// The first error of one raw token-transfer record, checking the
/// identifier, then the nonce, then the amount.
pub open spec fn dct_raw_err(e: TxDCTRaw) -> Option<InterpretError> {
    if bytes_literal_err(e.token_identifier@) is Some {
        bytes_literal_err(e.token_identifier@)
    } else if u64_literal_err(e.nonce@) is Some {
        u64_literal_err(e.nonce@)
    } else {
        biguint_literal_err(e.value@)
    }
}

impl TxDCT {
    /// Resolves one raw token-transfer record.
    pub fn interpret_from(raw: TxDCTRaw) -> (r: Result<TxDCT, InterpretError>)
        ensures
            r is Ok <==> dct_raw_err(raw) is None,
            r is Ok ==> ({
                let d = r->Ok_0;
                &&& bytes_value_matches(raw.token_identifier@, d.token_identifier.value@)
                &&& d.token_identifier.original@ == raw.token_identifier@
                &&& d.nonce.value == dec_nat(raw.nonce@)
                &&& d.nonce.original@ == raw.nonce@
                &&& d.value.value@ == biguint_value_of(raw.value@)
                &&& d.value.original@ == raw.value@
            }),
            r is Err ==> Some(r->Err_0) == dct_raw_err(raw),
    {
        let token_identifier = match BytesValue::interpret_from(raw.token_identifier) {
            Ok(t) => t,
            Err(e) => {
                return Err(e);
            },
        };
        let nonce = match U64Value::interpret_from(raw.nonce) {
            Ok(n) => n,
            Err(e) => {
                return Err(e);
            },
        };
        let value = match BigUintValue::interpret_from(raw.value) {
            Ok(v) => v,
            Err(e) => {
                return Err(e);
            },
        };
        Ok(TxDCT { token_identifier, nonce, value })
    }

    /// The original record back.
    pub fn into_raw(self) -> (r: TxDCTRaw)
        ensures
            r.token_identifier@ == self.token_identifier.original@,
            r.nonce@ == self.nonce.original@,
            r.value@ == self.value.original@,
    {
        TxDCTRaw {
            token_identifier: self.token_identifier.into_raw(),
            nonce: self.nonce.into_raw(),
            value: match self.value.into_raw_opt() {
                Some(v) => v,
                None => Vec::new(),
            },
        }
    }
}

/// The first error among the raw token-transfer records from index `i` on.
pub open spec fn first_dct_err(s: Seq<TxDCTRaw>, i: int) -> Option<InterpretError>
    decreases s.len() - i,
{
    if i < 0 || i >= s.len() {
        None
    } else {
        match dct_raw_err(s[i]) {
            Some(e) => Some(e),
            None => first_dct_err(s, i + 1),
        }
    }
}

/// The first error among the raw argument literals from index `i` on.
pub open spec fn first_arg_err(s: Seq<Vec<u8>>, i: int) -> Option<InterpretError>
    decreases s.len() - i,
{
    if i < 0 || i >= s.len() {
        None
    } else {
        match bytes_literal_err(s[i]@) {
            Some(e) => Some(e),
            None => first_arg_err(s, i + 1),
        }
    }
}

/// One raw call fixture, as a declarative record: loosely typed literals,
/// with the native amount present in either its legacy spelling ("value")
/// or its canonical one ("moaxValue").
#[derive(Debug)]
pub struct TxCallRaw {
    pub from: Vec<u8>,
    pub to: Vec<u8>,
    pub value: Option<Vec<u8>>,
    pub moax_value: Option<Vec<u8>>,
    pub dct_value: Vec<TxDCTRaw>,
    pub function: Vec<u8>,
    pub arguments: Vec<Vec<u8>>,
    pub gas_limit: Vec<u8>,
    pub gas_price: Vec<u8>,
}

/// The first interpretation error of a raw call fixture, in field order:
/// sender, receiver, native amount, token transfers, arguments, gas limit,
/// gas price. None when the whole fixture resolves.
pub open spec fn tx_call_interpret_err(raw: TxCallRaw) -> Option<InterpretError> {
    if address_literal_err(raw.from@) is Some {
        address_literal_err(raw.from@)
    } else if address_literal_err(raw.to@) is Some {
        address_literal_err(raw.to@)
    } else if moax_literal_err(raw.value, raw.moax_value) is Some {
        moax_literal_err(raw.value, raw.moax_value)
    } else if first_dct_err(raw.dct_value@, 0) is Some {
        first_dct_err(raw.dct_value@, 0)
    } else if first_arg_err(raw.arguments@, 0) is Some {
        first_arg_err(raw.arguments@, 0)
    } else if u64_literal_err(raw.gas_limit@) is Some {
        u64_literal_err(raw.gas_limit@)
    } else {
        u64_literal_err(raw.gas_price@)
    }
}

/// One resolved call of a scenario: the typed transaction descriptor the
/// mock engine executes.
#[derive(Debug)]
pub struct TxCall {
    pub from: AddressValue,
    pub to: AddressValue,
    pub moax_value: BigUintValue,
    pub dct_value: Vec<TxDCT>,
    pub function: Vec<u8>,
    pub arguments: Vec<BytesValue>,
    pub gas_limit: U64Value,
    pub gas_price: U64Value,
}

impl TxCall {
    /// Resolves a raw fixture into a typed descriptor, field by field; the
    /// first field that cannot be resolved aborts the whole fixture.
    #[verifier::loop_isolation(false)]
    pub fn interpret_from(raw: TxCallRaw) -> (r: Result<TxCall, InterpretError>)
        ensures
            r is Ok <==> tx_call_interpret_err(raw) is None,
            r is Err ==> Some(r->Err_0) == tx_call_interpret_err(raw),
            r is Ok ==> ({
                let c = r->Ok_0;
                &&& c.from.value@ == address_value_of(raw.from@)
                &&& c.from.original@ == raw.from@
                &&& c.to.value@ == address_value_of(raw.to@)
                &&& c.to.original@ == raw.to@
                &&& c.moax_value.value@ == moax_value_of(raw.value, raw.moax_value)
                &&& c.moax_value.original@ == moax_original_of(raw.value, raw.moax_value)
                &&& c.dct_value@.len() == raw.dct_value@.len()
                &&& forall|i: int|
                    0 <= i < raw.dct_value@.len() ==> {
                        let d = #[trigger] c.dct_value@[i];
                        let e = raw.dct_value@[i];
                        &&& bytes_value_matches(e.token_identifier@, d.token_identifier.value@)
                        &&& d.token_identifier.original@ == e.token_identifier@
                        &&& d.nonce.value == dec_nat(e.nonce@)
                        &&& d.nonce.original@ == e.nonce@
                        &&& d.value.value@ == biguint_value_of(e.value@)
                        &&& d.value.original@ == e.value@
                    }
                &&& c.function@ == raw.function@
                &&& c.arguments@.len() == raw.arguments@.len()
                &&& forall|i: int|
                    0 <= i < raw.arguments@.len() ==> bytes_value_matches(
                        raw.arguments@[i]@,
                        (#[trigger] c.arguments@[i]).value@,
                    ) && c.arguments@[i].original@ == raw.arguments@[i]@
                &&& c.gas_limit.value == dec_nat(raw.gas_limit@)
                &&& c.gas_limit.original@ == raw.gas_limit@
                &&& c.gas_price.value == dec_nat(raw.gas_price@)
                &&& c.gas_price.original@ == raw.gas_price@
            }),
    {
        let from = match AddressValue::interpret_from(raw.from) {
            Ok(a) => a,
            Err(e) => {
                return Err(e);
            },
        };
        let to = match AddressValue::interpret_from(raw.to) {
            Ok(a) => a,
            Err(e) => {
                return Err(e);
            },
        };
        let moax_value = match interpret_moax_value(&raw.value, &raw.moax_value) {
            Ok(m) => m,
            Err(e) => {
                return Err(e);
            },
        };
        let mut dct_value: Vec<TxDCT> = Vec::new();
        let ghost raw_dct = raw.dct_value@;
        let mut dv = raw.dct_value;
        let mut i: usize = 0;
        let n = dv.len();
        while i < n
            invariant
                i <= n,
                n == dv@.len(),
                dv@ == raw_dct,
                dct_value@.len() == i,
                first_dct_err(raw_dct, 0) == first_dct_err(raw_dct, i as int),
                forall|k: int|
                    0 <= k < i ==> {
                        let d = #[trigger] dct_value@[k];
                        let e = raw_dct[k];
                        &&& bytes_value_matches(e.token_identifier@, d.token_identifier.value@)
                        &&& d.token_identifier.original@ == e.token_identifier@
                        &&& d.nonce.value == dec_nat(e.nonce@)
                        &&& d.nonce.original@ == e.nonce@
                        &&& d.value.value@ == biguint_value_of(e.value@)
                        &&& d.value.original@ == e.value@
                    },
            decreases n - i,
        {
            let entry_raw = TxDCTRaw {
                token_identifier: clone_bytes(&dv[i].token_identifier),
                nonce: clone_bytes(&dv[i].nonce),
                value: clone_bytes(&dv[i].value),
            };
            assert(dct_raw_err(entry_raw) == dct_raw_err(raw_dct[i as int]));
            match TxDCT::interpret_from(entry_raw) {
                Ok(d) => {
                    dct_value.push(d);
                },
                Err(e) => {
                    return Err(e);
                },
            }
            i += 1;
        }
        let mut arguments: Vec<BytesValue> = Vec::new();
        let ghost raw_args = raw.arguments@;
        let args_raw = raw.arguments;
        let mut k: usize = 0;
        let m = args_raw.len();
        while k < m
            invariant
                k <= m,
                m == args_raw@.len(),
                args_raw@ == raw_args,
                arguments@.len() == k,
                first_arg_err(raw_args, 0) == first_arg_err(raw_args, k as int),
                forall|j: int|
                    0 <= j < k ==> bytes_value_matches(
                        raw_args[j]@,
                        (#[trigger] arguments@[j]).value@,
                    ) && arguments@[j].original@ == raw_args[j]@,
            decreases m - k,
        {
            match BytesValue::interpret_from(clone_bytes(&args_raw[k])) {
                Ok(b) => {
                    arguments.push(b);
                },
                Err(e) => {
                    return Err(e);
                },
            }
            k += 1;
        }
        let gas_limit = match U64Value::interpret_from(raw.gas_limit) {
            Ok(g) => g,
            Err(e) => {
                return Err(e);
            },
        };
        let gas_price = match U64Value::interpret_from(raw.gas_price) {
            Ok(g) => g,
            Err(e) => {
                return Err(e);
            },
        };
        Ok(
            TxCall {
                from,
                to,
                moax_value,
                dct_value,
                function: raw.function,
                arguments,
                gas_limit,
                gas_price,
            },
        )
    }

    /// The raw record back: every field keeps its original literal, and
    /// the native amount goes out under its canonical spelling alone.
    #[verifier::loop_isolation(false)]
    pub fn into_raw(self) -> (r: TxCallRaw)
        ensures
            r.from@ == self.from.original@,
            r.to@ == self.to.original@,
            r.value is None,
            r.moax_value matches Some(m) && m@ == self.moax_value.original@,
            r.dct_value@.len() == self.dct_value@.len(),
            forall|i: int|
                0 <= i < self.dct_value@.len() ==> {
                    let e = #[trigger] r.dct_value@[i];
                    let d = self.dct_value@[i];
                    &&& e.token_identifier@ == d.token_identifier.original@
                    &&& e.nonce@ == d.nonce.original@
                    &&& e.value@ == d.value.original@
                },
            r.function@ == self.function@,
            r.arguments@.len() == self.arguments@.len(),
            forall|i: int|
                0 <= i < self.arguments@.len() ==> (#[trigger] r.arguments@[i])@
                    == self.arguments@[i].original@,
            r.gas_limit@ == self.gas_limit.original@,
            r.gas_price@ == self.gas_price.original@,
    {
        let mut dct_raw: Vec<TxDCTRaw> = Vec::new();
        let ghost dct0 = self.dct_value@;
        let mut dv = self.dct_value;
        let n = dv.len();
        let mut i: usize = 0;
        while i < n
            invariant
                i <= n,
                n == dv@.len(),
                dv@ == dct0,
                dct_raw@.len() == i,
                forall|k: int|
                    0 <= k < i ==> {
                        let e = #[trigger] dct_raw@[k];
                        let d = dct0[k];
                        &&& e.token_identifier@ == d.token_identifier.original@
                        &&& e.nonce@ == d.nonce.original@
                        &&& e.value@ == d.value.original@
                    },
            decreases n - i,
        {
            let d = &dv[i];
            dct_raw.push(
                TxDCTRaw {
                    token_identifier: clone_bytes(&d.token_identifier.original),
                    nonce: clone_bytes(&d.nonce.original),
                    value: clone_bytes(&d.value.original),
                },
            );
            i += 1;
        }
        let mut args_raw: Vec<Vec<u8>> = Vec::new();
        let ghost args0 = self.arguments@;
        let av = self.arguments;
        let m = av.len();
        let mut k: usize = 0;
        while k < m
            invariant
                k <= m,
                m == av@.len(),
                av@ == args0,
                args_raw@.len() == k,
                forall|j: int|
                    0 <= j < k ==> (#[trigger] args_raw@[j])@ == args0[j].original@,
            decreases m - k,
        {
            args_raw.push(clone_bytes(&av[k].original));
            k += 1;
        }
        TxCallRaw {
            from: self.from.into_raw(),
            to: self.to.into_raw(),
            value: None,
            moax_value: self.moax_value.into_raw_opt(),
            dct_value: dct_raw,
            function: self.function,
            arguments: args_raw,
            gas_limit: self.gas_limit.into_raw(),
            gas_price: self.gas_price.into_raw(),
        }
    }

    /// The descriptor the mock engine executes, built from the resolved
    /// values; the transaction hash of a fixture call is all zero.
    #[verifier::loop_isolation(false)]
    pub fn to_tx_input(&self) -> (r: TxInput)
        ensures
            r@.from == self.from.value@,
            r@.to == self.to.value@,
            r@.moax_value == self.moax_value.value@,
            r@.dct_values.len() == self.dct_value@.len(),
            forall|i: int|
                0 <= i < self.dct_value@.len() ==> {
                    let t = #[trigger] r@.dct_values[i];
                    let d = self.dct_value@[i];
                    &&& t.token_identifier == d.token_identifier.value@
                    &&& t.nonce == d.nonce.value
                    &&& t.amount == d.value.value@
                },
            r@.func_name == self.function@,
            r@.args.len() == self.arguments@.len(),
            forall|i: int|
                0 <= i < self.arguments@.len() ==> #[trigger] r@.args[i]
                    == self.arguments@[i].value@,
            r@.gas_limit == self.gas_limit.value,
            r@.gas_price == self.gas_price.value,
            r@.tx_hash == zero_32(),
    {
        let mut dct_values: Vec<TxInputDCT> = Vec::new();
        let mut i: usize = 0;
        let n = self.dct_value.len();
        while i < n
            invariant
                i <= n,
                dct_values@.len() == i,
                forall|k: int|
                    0 <= k < i ==> {
                        let t = (#[trigger] dct_values@[k])@;
                        let d = self.dct_value@[k];
                        &&& t.token_identifier == d.token_identifier.value@
                        &&& t.nonce == d.nonce.value
                        &&& t.amount == d.value.value@
                    },
            decreases n - i,
        {
            let d = &self.dct_value[i];
            dct_values.push(
                TxInputDCT {
                    token_identifier: clone_bytes(&d.token_identifier.value),
                    nonce: d.nonce.value,
                    value: d.value.value.duplicate(),
                },
            );
            i += 1;
        }
        let mut args: Vec<Vec<u8>> = Vec::new();
        let mut k: usize = 0;
        let m = self.arguments.len();
        while k < m
            invariant
                k <= m,
                args@.len() == k,
                forall|j: int|
                    0 <= j < k ==> #[trigger] args@[j]@ == self.arguments@[j].value@,
            decreases m - k,
        {
            args.push(clone_bytes(&self.arguments[k].value));
            k += 1;
        }
        let r = TxInput {
            from: self.from.value.duplicate(),
            to: self.to.value.duplicate(),
            moax_value: self.moax_value.value.duplicate(),
            dct_values,
            func_name: clone_bytes(&self.function),
            args,
            gas_limit: self.gas_limit.value,
            gas_price: self.gas_price.value,
            tx_hash: H256::zero(),
        };
        r
    }
}

} // verus!
