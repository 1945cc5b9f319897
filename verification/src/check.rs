use vstd::prelude::*;

verus! {

use crate::byte_ops::eq_bytes;

/// The expectation on one byte-string field of a checked value: left
/// unspecified, an explicit "any value" wildcard, or an exact byte match.
#[derive(Debug)]
pub enum CheckBytes {
    Unspecified,
    Star,
    Equal(Vec<u8>),
}

/// Whether a byte-string expectation accepts an actual value: unspecified
/// and wildcard accept anything, an exact pattern requires equality.
pub open spec fn check_bytes_matches(p: CheckBytes, actual: Seq<u8>) -> bool {
    match p {
        CheckBytes::Unspecified => true,
        CheckBytes::Star => true,
        CheckBytes::Equal(v) => v@ == actual,
    }
}

/// A pattern that accepts every value: unspecified or the wildcard.
pub open spec fn is_wildcard_bytes(p: CheckBytes) -> bool {
    !(p is Equal)
}

impl CheckBytes {
    /// Decides whether the expectation accepts the actual bytes.
    pub fn check(&self, value: &Vec<u8>) -> (r: bool)
        ensures
            r == check_bytes_matches(*self, value@),
    {
        match self {
            CheckBytes::Unspecified => true,
            CheckBytes::Star => true,
            CheckBytes::Equal(v) => eq_bytes(v, value),
        }
    }
}

/// The expectation on a list of byte strings (a log's topics): unspecified,
/// wildcard, or an exact list matched position by position.
#[derive(Debug)]
pub enum CheckBytesList {
    Unspecified,
    Star,
    Equal(Vec<CheckBytes>),
}

/// Whether a list expectation accepts an actual list: an exact list must
/// have the same length and each entry must match at its position.
pub open spec fn check_bytes_list_matches(p: CheckBytesList, actual: Seq<Seq<u8>>) -> bool {
    match p {
        CheckBytesList::Unspecified => true,
        CheckBytesList::Star => true,
        CheckBytesList::Equal(ps) => {
            &&& ps@.len() == actual.len()
            &&& forall|i: int|
                0 <= i < actual.len() ==> check_bytes_matches(#[trigger] ps@[i], actual[i])
        },
    }
}

pub open spec fn is_wildcard_bytes_list(p: CheckBytesList) -> bool {
    !(p is Equal)
}

impl CheckBytesList {
    /// Decides whether the expectation accepts the actual list.
    #[verifier::loop_isolation(false)]
    pub fn check(&self, values: &Vec<Vec<u8>>) -> (r: bool)
        ensures
            r == check_bytes_list_matches(*self, values@.map_values(|v: Vec<u8>| v@)),
    {
        let ghost actual = values@.map_values(|v: Vec<u8>| v@);
        match self {
            CheckBytesList::Unspecified => true,
            CheckBytesList::Star => true,
            CheckBytesList::Equal(ps) => {
                assert(actual.len() == values@.len());
                assert(forall|j: int| 0 <= j < values@.len() ==> actual[j] == values@[j]@);
                if ps.len() != values.len() {
                    return false;
                }
                let mut i: usize = 0;
                while i < values.len()
                    invariant
                        i <= values.len(),
                        ps@.len() == values@.len(),
                        actual == values@.map_values(|v: Vec<u8>| v@),
                        forall|j: int| 0 <= j < i ==> check_bytes_matches(#[trigger] ps@[j], actual[j]),
                    decreases values.len() - i,
                {
                    if !ps[i].check(&values[i]) {
                        return false;
                    }
                    i += 1;
                }
                true
            },
        }
    }
}

} // verus!
