use vstd::prelude::*;

verus! {

use crate::big_uint::be_nat;
use crate::byte_ops::{clone_bytes, eq_bytes};

/// The reserved 4-byte textual representation of the native MOAX coin,
/// the ASCII bytes of "MOAX".
pub open spec fn moax_marker() -> Seq<u8> {
    seq![77u8, 79u8, 65u8, 88u8]
}

/// The reserved marker as a byte string.
pub fn moax_representation() -> (r: Vec<u8>)
    ensures
        r@ == moax_marker(),
{
    let mut v: Vec<u8> = Vec::new();
    v.push(77);
    v.push(79);
    v.push(65);
    v.push(88);
    assert(v@ =~= moax_marker());
    v
}

/// An uppercase ASCII letter or a decimal digit, the alphabet of a ticker.
pub open spec fn is_ticker_byte(b: u8) -> bool {
    (65 <= b <= 90) || (48 <= b <= 57)
}

/// A lowercase hexadecimal digit, the alphabet of the random suffix.
pub open spec fn is_lower_hex_byte(b: u8) -> bool {
    (97 <= b <= 102) || (48 <= b <= 57)
}

/// The DCT token identifier grammar: a ticker of 3 to 10 uppercase
/// alphanumeric bytes, one '-', then a 6-byte lowercase-hex suffix.
pub open spec fn valid_dct_identifier(s: Seq<u8>) -> bool {
    &&& 10 <= s.len() <= 17
    &&& s[s.len() - 7] == 45
    &&& forall|i: int| 0 <= i < s.len() - 7 ==> is_ticker_byte(#[trigger] s[i])
    &&& forall|i: int| s.len() - 6 <= i < s.len() ==> is_lower_hex_byte(#[trigger] s[i])
}

/// A DCT token identifier, held as its byte string.
/// Validity is not an invariant: identifiers are checked on demand.
#[derive(Debug)]
pub struct TokenIdentifier {
    pub name: Vec<u8>,
}

impl View for TokenIdentifier {
    type V = Seq<u8>;

    open spec fn view(&self) -> Seq<u8> {
        self.name@
    }
}

impl TokenIdentifier {
    /// Wraps a byte string as a token identifier, unchecked.
    pub fn from_bytes(name: Vec<u8>) -> (r: TokenIdentifier)
        ensures
            r@ == name@,
    {
        TokenIdentifier { name }
    }

    /// Gives the identifier's bytes back, consuming it.
    pub fn into_bytes(self) -> (r: Vec<u8>)
        ensures
            r@ == self@,
    {
        self.name
    }

    /// An exact copy of the identifier.
    pub fn duplicate(&self) -> (r: TokenIdentifier)
        ensures
            r@ == self@,
    {
        TokenIdentifier { name: clone_bytes(&self.name) }
    }

    /// Decides whether the identifier satisfies the DCT grammar:
    /// ticker of 3 to 10 uppercase alphanumerics, '-', 6 lowercase-hex bytes.
    pub fn is_valid_dct_identifier(&self) -> (r: bool)
        ensures
            r == valid_dct_identifier(self@),
    {
        let n = self.name.len();
        if n < 10 || n > 17 {
            return false;
        }
        let dash_at = n - 7;
        if self.name[dash_at] != 45 {
            return false;
        }
        let mut i: usize = 0;
        while i < dash_at
            invariant
                i <= dash_at,
                dash_at == self.name@.len() - 7,
                forall|j: int| 0 <= j < i ==> is_ticker_byte(#[trigger] self.name@[j]),
            decreases dash_at - i,
        {
            let b = self.name[i];
            if !((65 <= b && b <= 90) || (48 <= b && b <= 57)) {
                return false;
            }
            i += 1;
        }
        let mut k: usize = n - 6;
        while k < n
            invariant
                n - 6 <= k <= n,
                n == self.name@.len(),
                forall|j: int| n - 6 <= j < k ==> is_lower_hex_byte(#[trigger] self.name@[j]),
            decreases n - k,
        {
            let b = self.name[k];
            if !((97 <= b && b <= 102) || (48 <= b && b <= 57)) {
                return false;
            }
            k += 1;
        }
        true
    }
}

impl PartialEq for TokenIdentifier {
    fn eq(&self, other: &TokenIdentifier) -> (r: bool) {
        eq_bytes(&self.name, &other.name)
    }
}

impl Eq for TokenIdentifier {}

impl vstd::std_specs::cmp::PartialEqSpecImpl for TokenIdentifier {
    open spec fn obeys_eq_spec() -> bool {
        true
    }

    open spec fn eq_spec(&self, other: &TokenIdentifier) -> bool {
        self.name@ == other.name@
    }
}

/// Either the chain's native MOAX coin or a DCT token identifier.
/// Its view is the resolved identifier: None for native, Some(bytes) for
/// a token, so that native is the absence of an identifier.
#[derive(Debug)]
pub enum MoaxOrDctTokenIdentifier {
    Moax,
    Dct(TokenIdentifier),
}

impl View for MoaxOrDctTokenIdentifier {
    type V = Option<Seq<u8>>;

    open spec fn view(&self) -> Option<Seq<u8>> {
        match self {
            MoaxOrDctTokenIdentifier::Moax => None,
            MoaxOrDctTokenIdentifier::Dct(t) => Some(t.name@),
        }
    }
}

/// What parsing a byte string yields: the marker is the native coin, any
/// other byte string is a token identifier equal to those bytes.
pub open spec fn parse_of(data: Seq<u8>) -> Option<Seq<u8>> {
    if data == moax_marker() {
        None
    } else {
        Some(data)
    }
}

/// What serializing yields: native writes the reserved marker, a token
/// identifier writes its bytes verbatim.
pub open spec fn encoded_of(id: Option<Seq<u8>>) -> Seq<u8> {
    match id {
        None => moax_marker(),
        Some(name) => name,
    }
}

/// A length as four big-endian bytes, as the nested form prefixes it.
pub open spec fn be32_of(n: nat) -> Seq<u8> {
    seq![
        (n / 16777216 % 256) as u8,
        (n / 65536 % 256) as u8,
        (n / 256 % 256) as u8,
        (n % 256) as u8,
    ]
}

/// Why reading a nested serialized value failed: the input ended before
/// the announced length was reached.
#[derive(Clone, Copy, Debug, PartialEq, Eq, Structural)]
pub enum DecodeError {
    InputTooShort,
}

impl MoaxOrDctTokenIdentifier {
    /// The native MOAX coin, represented as the absence of an identifier.
    pub fn moax() -> (r: MoaxOrDctTokenIdentifier)
        ensures
            r@ is None,
    {
        MoaxOrDctTokenIdentifier::Moax
    }

    /// A DCT instance holding a token identifier.
    pub fn dct(token_identifier: TokenIdentifier) -> (r: MoaxOrDctTokenIdentifier)
        ensures
            r@ == Some(token_identifier@),
    {
        MoaxOrDctTokenIdentifier::Dct(token_identifier)
    }

    /// Reads the serialized form: the reserved marker yields native, any
    /// other byte string is wrapped as a token identifier, unvalidated.
    pub fn parse(data: Vec<u8>) -> (r: MoaxOrDctTokenIdentifier)
        ensures
            r@ == parse_of(data@),
    {
        let marker = moax_representation();
        if eq_bytes(&data, &marker) {
            MoaxOrDctTokenIdentifier::Moax
        } else {
            MoaxOrDctTokenIdentifier::Dct(TokenIdentifier::from_bytes(data))
        }
    }

    pub fn is_moax(&self) -> (r: bool)
        ensures
            r == (self@ is None),
    {
        match self {
            MoaxOrDctTokenIdentifier::Moax => true,
            MoaxOrDctTokenIdentifier::Dct(_) => false,
        }
    }

    pub fn is_dct(&self) -> (r: bool)
        ensures
            r == (self@ is Some),
    {
        !self.is_moax()
    }

    /// Serializes: the marker for native, the identifier bytes verbatim
    /// for a token.
    pub fn into_name(self) -> (r: Vec<u8>)
        ensures
            r@ == encoded_of(self@),
    {
        match self {
            MoaxOrDctTokenIdentifier::Moax => moax_representation(),
            MoaxOrDctTokenIdentifier::Dct(t) => t.into_bytes(),
        }
    }

    /// The serialized form without consuming the value.
    pub fn top_encode(&self) -> (r: Vec<u8>)
        ensures
            r@ == encoded_of(self@),
    {
        match self {
            MoaxOrDctTokenIdentifier::Moax => moax_representation(),
            MoaxOrDctTokenIdentifier::Dct(t) => clone_bytes(&t.name),
        }
    }

    /// Reads the serialized form back; the inverse of `top_encode` on the
    /// native value.
    pub fn top_decode(data: Vec<u8>) -> (r: MoaxOrDctTokenIdentifier)
        ensures
            r@ == parse_of(data@),
    {
        MoaxOrDctTokenIdentifier::parse(data)
    }

    /// The nested serialized form: a 4-byte big-endian length, then the
    /// same bytes the top-level form writes.
    pub fn dep_encode(&self) -> (r: Vec<u8>)
        requires
            encoded_of(self@).len() <= u32::MAX,
        ensures
            r@ == be32_of(encoded_of(self@).len() as nat) + encoded_of(self@),
    {
        let payload = self.top_encode();
        let n = payload.len();
        let mut r: Vec<u8> = Vec::new();
        r.push((n / 16777216 % 256) as u8);
        r.push((n / 65536 % 256) as u8);
        r.push((n / 256 % 256) as u8);
        r.push((n % 256) as u8);
        let mut i: usize = 0;
        while i < payload.len()
            invariant
                i <= payload@.len(),
                r@.len() == 4 + i,
                r@.subrange(0, 4) =~= be32_of(payload@.len() as nat),
                forall|j: int| 0 <= j < i ==> r@[4 + j] == payload@[j],
            decreases payload@.len() - i,
        {
            r.push(payload[i]);
            i += 1;
        }
        assert(r@ =~= be32_of(payload@.len() as nat) + payload@);
        r
    }

    /// Reads one nested serialized value out of a byte string, starting
    /// at the offset: the 4-byte big-endian length, then that many bytes,
    /// parsed as the top-level form is. Returns the value and the offset
    /// of what follows; fails exactly when the bytes run out.
    #[verifier::loop_isolation(false)]
    pub fn dep_decode(data: &Vec<u8>, from: usize) -> (r: Result<
        (MoaxOrDctTokenIdentifier, usize),
        DecodeError,
    >)
        ensures
            r is Ok <==> (from + 4 <= data@.len() && from + 4 + be_nat(
                data@.subrange(from as int, from as int + 4),
            ) <= data@.len()),
            r is Err ==> r->Err_0 == DecodeError::InputTooShort,
            r is Ok ==> ({
                let n = be_nat(data@.subrange(from as int, from as int + 4));
                &&& r->Ok_0.0@ == parse_of(
                    data@.subrange(from as int + 4, from as int + 4 + n),
                )
                &&& r->Ok_0.1 == from + 4 + n
            }),
    {
        if data.len() < 4 || from > data.len() - 4 {
            return Err(DecodeError::InputTooShort);
        }
        let ghost header = data@.subrange(from as int, from as int + 4);
        let n: usize = ((data[from] as usize) * 16777216) + ((data[from + 1] as usize) * 65536) + (
        (data[from + 2] as usize) * 256) + (data[from + 3] as usize);
        proof {
            let b0 = header[0] as nat;
            let b1 = header[1] as nat;
            let b2 = header[2] as nat;
            let b3 = header[3] as nat;
            let h3 = header.drop_last();
            let h2 = h3.drop_last();
            let h1 = h2.drop_last();
            assert(header.len() == 4 && h3.len() == 3 && h2.len() == 2 && h1.len() == 1);
            assert(h1.drop_last() =~= Seq::<u8>::empty());
            assert(h1.last() == header[0] && h2.last() == header[1] && h3.last() == header[2]
                && header.last() == header[3]);
            assert(be_nat(Seq::<u8>::empty()) == 0);
            assert(be_nat(h1) == b0);
            assert(be_nat(h2) == b0 * 256 + b1);
            assert(be_nat(h3) == (b0 * 256 + b1) * 256 + b2);
            assert(be_nat(header) == ((b0 * 256 + b1) * 256 + b2) * 256 + b3);
            assert(((b0 * 256 + b1) * 256 + b2) * 256 + b3 == b0 * 16777216 + b1 * 65536 + b2 * 256
                + b3) by (nonlinear_arith);
            assert(be_nat(header) == n);
        }
        if n > data.len() - 4 - from {
            return Err(DecodeError::InputTooShort);
        }
        let mut payload: Vec<u8> = Vec::new();
        let mut i: usize = 0;
        while i < n
            invariant
                i <= n,
                payload@ =~= data@.subrange(from as int + 4, from as int + 4 + i),
            decreases n - i,
        {
            payload.push(data[from + 4 + i]);
            i += 1;
        }
        assert(payload@ =~= data@.subrange(from as int + 4, from as int + 4 + n));
        Ok((MoaxOrDctTokenIdentifier::parse(payload), from + 4 + n))
    }

    /// Native is always valid; a token identifier is valid exactly when it
    /// satisfies the DCT grammar.
    pub fn is_valid(&self) -> (r: bool)
        ensures
            r == match self@ {
                Option::None => true,
                Option::Some(name) => valid_dct_identifier(name),
            },
    {
        match self {
            MoaxOrDctTokenIdentifier::Moax => true,
            MoaxOrDctTokenIdentifier::Dct(t) => t.is_valid_dct_identifier(),
        }
    }

    /// The token identifier, on a value known to be a token.
    pub fn unwrap_dct(self) -> (r: TokenIdentifier)
        requires
            self@ is Some,
        ensures
            Some(r@) == self@,
    {
        match self {
            MoaxOrDctTokenIdentifier::Moax => TokenIdentifier { name: Vec::new() },
            MoaxOrDctTokenIdentifier::Dct(t) => t,
        }
    }

    /// The token identifier by reference, or None for native.
    pub fn as_dct_option(&self) -> (r: Option<&TokenIdentifier>)
        ensures
            match r {
                Option::None => self@ is None,
                Option::Some(t) => self@ == Some(t@),
            },
    {
        match self {
            MoaxOrDctTokenIdentifier::Moax => None,
            MoaxOrDctTokenIdentifier::Dct(t) => Some(t),
        }
    }

    /// The token identifier by value, or None for native.
    pub fn into_dct_option(self) -> (r: Option<TokenIdentifier>)
        ensures
            match r {
                Option::None => self@ is None,
                Option::Some(t) => self@ == Some(t@),
            },
    {
        match self {
            MoaxOrDctTokenIdentifier::Moax => None,
            MoaxOrDctTokenIdentifier::Dct(t) => Some(t),
        }
    }

    /// An exact copy.
    pub fn duplicate(&self) -> (r: MoaxOrDctTokenIdentifier)
        ensures
            r@ == self@,
    {
        match self {
            MoaxOrDctTokenIdentifier::Moax => MoaxOrDctTokenIdentifier::Moax,
            MoaxOrDctTokenIdentifier::Dct(t) => MoaxOrDctTokenIdentifier::Dct(t.duplicate()),
        }
    }
}

impl PartialEq for MoaxOrDctTokenIdentifier {
    fn eq(&self, other: &MoaxOrDctTokenIdentifier) -> (r: bool) {
        match (self, other) {
            (MoaxOrDctTokenIdentifier::Moax, MoaxOrDctTokenIdentifier::Moax) => true,
            (MoaxOrDctTokenIdentifier::Dct(a), MoaxOrDctTokenIdentifier::Dct(b)) => eq_bytes(
                &a.name,
                &b.name,
            ),
            _ => false,
        }
    }
}

impl Eq for MoaxOrDctTokenIdentifier {}

impl vstd::std_specs::cmp::PartialEqSpecImpl for MoaxOrDctTokenIdentifier {
    open spec fn obeys_eq_spec() -> bool {
        true
    }

    open spec fn eq_spec(&self, other: &MoaxOrDctTokenIdentifier) -> bool {
        self@ == other@
    }
}

/// A four-byte big-endian length prefix reads back as the length it was
/// written from.
pub proof fn lemma_be32_round_trip(n: nat)
    requires
        n <= u32::MAX,
    ensures
        be_nat(be32_of(n)) == n,
{
    let header = be32_of(n);
    let b0 = header[0] as nat;
    let b1 = header[1] as nat;
    let b2 = header[2] as nat;
    let b3 = header[3] as nat;
    let h3 = header.drop_last();
    let h2 = h3.drop_last();
    let h1 = h2.drop_last();
    assert(header.len() == 4 && h3.len() == 3 && h2.len() == 2 && h1.len() == 1);
    assert(h1.drop_last() =~= Seq::<u8>::empty());
    assert(h1.last() == header[0] && h2.last() == header[1] && h3.last() == header[2]
        && header.last() == header[3]);
    assert(be_nat(Seq::<u8>::empty()) == 0);
    assert(be_nat(h1) == b0);
    assert(be_nat(h2) == b0 * 256 + b1);
    assert(be_nat(h3) == (b0 * 256 + b1) * 256 + b2);
    assert(be_nat(header) == ((b0 * 256 + b1) * 256 + b2) * 256 + b3);
    assert((((n / 16777216 % 256) * 256 + (n / 65536 % 256)) * 256 + (n / 256 % 256)) * 256 + (n
        % 256) == n) by (nonlinear_arith)
        requires
            n <= u32::MAX,
    ;
}

/// A value written in the nested form reads back from the front of the
/// buffer: the length prefix announces exactly the payload written after
/// it, and the payload parses as the top-level form does.
pub proof fn lemma_dep_encode_decode(id: Option<Seq<u8>>)
    requires
        encoded_of(id).len() <= u32::MAX,
    ensures
        ({
            let p = encoded_of(id);
            let buf = be32_of(p.len()) + p;
            &&& be_nat(buf.subrange(0, 4)) == p.len()
            &&& buf.subrange(4, 4 + p.len() as int) == p
            &&& id is None ==> parse_of(buf.subrange(4, 4 + p.len() as int)) is None
        }),
{
    let p = encoded_of(id);
    let buf = be32_of(p.len()) + p;
    assert(buf.subrange(0, 4) =~= be32_of(p.len()));
    lemma_be32_round_trip(p.len());
    assert(buf.subrange(4, 4 + p.len() as int) =~= p);
}

/// Parsing the reserved marker always yields the native state; parsing any
/// other byte string yields a token identifier equal to those bytes; the
/// native value serializes back to the marker and round-trips through parse.
pub proof fn lemma_parse_encode_round_trip(data: Seq<u8>)
    ensures
        parse_of(moax_marker()) is None,
        data != moax_marker() ==> parse_of(data) == Some(data),
        encoded_of(None) == moax_marker(),
        parse_of(encoded_of(None)) is None,
{
}

/// A token identifier whose bytes differ from the marker round-trips
/// through serialization and parsing; one equal to the marker is
/// indistinguishable from native, the documented ambiguity.
pub proof fn lemma_token_round_trip(name: Seq<u8>)
    requires
        name != moax_marker(),
    ensures
        parse_of(encoded_of(Some(name))) == Some(name),
{
}

} // verus!
