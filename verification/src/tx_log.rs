use vstd::prelude::*;
use vstd::assert_by_contradiction;

verus! {

use crate::byte_ops::{clone_bytes, clone_bytes_list};
use crate::check::{
    check_bytes_list_matches, check_bytes_matches, is_wildcard_bytes, is_wildcard_bytes_list,
    CheckBytes, CheckBytesList,
};
use crate::tx_input::Address;

/// One event emitted during a call: the emitting address, the endpoint or
/// event name, the ordered topics, and an opaque data payload.
#[derive(Debug)]
pub struct TxLog {
    pub address: Address,
    pub endpoint: Vec<u8>,
    pub topics: Vec<Vec<u8>>,
    pub data: Vec<u8>,
}

/// The mathematical content of one log entry.
pub struct TxLogV {
    pub address: Seq<u8>,
    pub endpoint: Seq<u8>,
    pub topics: Seq<Seq<u8>>,
    pub data: Seq<u8>,
}

impl View for TxLog {
    type V = TxLogV;

    open spec fn view(&self) -> TxLogV {
        TxLogV {
            address: self.address@,
            endpoint: self.endpoint@,
            topics: self.topics@.map_values(|t: Vec<u8>| t@),
            data: self.data@,
        }
    }
}

/// The per-field expectations on one log entry.
#[derive(Debug)]
pub struct CheckLog {
    pub address: CheckBytes,
    pub endpoint: CheckBytes,
    pub topics: CheckBytesList,
    pub data: CheckBytes,
}

/// Whether a log expectation accepts an actual log, field by field.
pub open spec fn check_log_matches(p: CheckLog, log: TxLogV) -> bool {
    &&& check_bytes_matches(p.address, log.address)
    &&& check_bytes_matches(p.endpoint, log.endpoint)
    &&& check_bytes_list_matches(p.topics, log.topics)
    &&& check_bytes_matches(p.data, log.data)
}

impl TxLog {
    /// Decides whether this log satisfies the expectation, field by field.
    pub fn denali_check(&self, check_log: &CheckLog) -> (r: bool)
        ensures
            r == check_log_matches(*check_log, self@),
    {
        let a = check_log.address.check(&self.address.bytes);
        let e = check_log.endpoint.check(&self.endpoint);
        let t = check_log.topics.check(&self.topics);
        let d = check_log.data.check(&self.data);
        a && e && t && d
    }

    /// An exact copy of the log entry.
    pub fn duplicate(&self) -> (r: TxLog)
        ensures
            r@ == self@,
    {
        let r = TxLog {
            address: self.address.duplicate(),
            endpoint: clone_bytes(&self.endpoint),
            topics: clone_bytes_list(&self.topics),
            data: clone_bytes(&self.data),
        };
        assert(r@.topics =~= self@.topics);
        r
    }
}

/// The expectation on the whole list of logs of a transaction:
/// unspecified, wildcard, an exact sequence matched position by position,
/// or an unordered set of required patterns that some actual log must
/// satisfy each.
#[derive(Debug)]
pub enum CheckLogList {
    Unspecified,
    Star,
    Equal(Vec<CheckLog>),
    Unordered(Vec<CheckLog>),
}

/// Whether a log-list expectation accepts the actual list: an exact
/// sequence must have the same length, and every actual log must be
/// matched by the pattern at its position; in the unordered mode every
/// required pattern must be matched by some actual log, and actual logs
/// beyond those are tolerated.
pub open spec fn check_log_list_matches(p: CheckLogList, logs: Seq<TxLogV>) -> bool {
    match p {
        CheckLogList::Unspecified => true,
        CheckLogList::Star => true,
        CheckLogList::Equal(ps) => {
            &&& ps@.len() == logs.len()
            &&& forall|i: int| 0 <= i < logs.len() ==> check_log_matches(#[trigger] ps@[i], logs[i])
        },
        CheckLogList::Unordered(ps) => forall|i: int|
            0 <= i < ps@.len() ==> some_log_matches(#[trigger] ps@[i], logs),
    }
}

/// Whether some actual log satisfies the pattern.
pub open spec fn some_log_matches(p: CheckLog, logs: Seq<TxLogV>) -> bool {
    exists|j: int| 0 <= j < logs.len() && check_log_matches(p, #[trigger] logs[j])
}

impl CheckLogList {
    /// Decides whether the expectation accepts the actual logs.
    #[verifier::loop_isolation(false)]
    pub fn check(&self, logs: &Vec<TxLog>) -> (r: bool)
        ensures
            r == check_log_list_matches(*self, logs@.map_values(|l: TxLog| l@)),
    {
        let ghost actual = logs@.map_values(|l: TxLog| l@);
        match self {
            CheckLogList::Unspecified => true,
            CheckLogList::Star => true,
            CheckLogList::Equal(ps) => {
                assert(actual.len() == logs@.len());
                assert(forall|j: int| 0 <= j < logs@.len() ==> actual[j] == logs@[j]@);
                if ps.len() != logs.len() {
                    return false;
                }
                let mut i: usize = 0;
                while i < logs.len()
                    invariant
                        i <= logs.len(),
                        ps@.len() == logs@.len(),
                        actual == logs@.map_values(|l: TxLog| l@),
                        forall|j: int| 0 <= j < i ==> check_log_matches(#[trigger] ps@[j], actual[j]),
                    decreases logs.len() - i,
                {
                    if !logs[i].denali_check(&ps[i]) {
                        return false;
                    }
                    i += 1;
                }
                true
            },
            CheckLogList::Unordered(ps) => {
                assert(actual.len() == logs@.len());
                assert(forall|j: int| 0 <= j < logs@.len() ==> actual[j] == logs@[j]@);
                let mut i: usize = 0;
                while i < ps.len()
                    invariant
                        i <= ps@.len(),
                        forall|k: int| 0 <= k < i ==> some_log_matches(#[trigger] ps@[k], actual),
                    decreases ps@.len() - i,
                {
                    let mut j: usize = 0;
                    let mut found = false;
                    while j < logs.len()
                        invariant
                            j <= logs@.len(),
                            found ==> some_log_matches(ps@[i as int], actual),
                            !found ==> forall|m: int|
                                0 <= m < j ==> !check_log_matches(ps@[i as int], #[trigger] actual[m]),
                        decreases logs@.len() - j,
                    {
                        if logs[j].denali_check(&ps[i]) {
                            found = true;
                            proof {
                                assert(check_log_matches(ps@[i as int], actual[j as int]));
                            }
                        }
                        j += 1;
                    }
                    if !found {
                        proof {
                            assert_by_contradiction!(!some_log_matches(ps@[i as int], actual), {
                                let m = choose|m: int|
                                    0 <= m < actual.len() && check_log_matches(
                                        ps@[i as int],
                                        #[trigger] actual[m],
                                    );
                                assert(!check_log_matches(ps@[i as int], actual[m]));
                            });
                        }
                        return false;
                    }
                    i += 1;
                }
                true
            },
        }
    }
}

/// A pattern whose fields are all unspecified or wildcard accepts every
/// actual log.
pub proof fn lemma_wildcard_pattern_matches_any(p: CheckLog, log: TxLogV)
    requires
        is_wildcard_bytes(p.address),
        is_wildcard_bytes(p.endpoint),
        is_wildcard_bytes_list(p.topics),
        is_wildcard_bytes(p.data),
    ensures
        check_log_matches(p, log),
{
}

/// A pattern whose fields are all exact copies of one log accepts an
/// actual log exactly when that log agrees with the copied one in every
/// field — so it rejects any log that differs in any single byte.
pub proof fn lemma_exact_pattern_matches_only_equal(p: CheckLog, log: TxLogV, actual: TxLogV)
    requires
        p.address matches CheckBytes::Equal(a) && a@ == log.address,
        p.endpoint matches CheckBytes::Equal(e) && e@ == log.endpoint,
        p.topics matches CheckBytesList::Equal(ts) && ts@.len() == log.topics.len() && forall|i: int|
            0 <= i < log.topics.len() ==> ((#[trigger] ts@[i]) matches CheckBytes::Equal(t)
                && t@ == log.topics[i]),
        p.data matches CheckBytes::Equal(d) && d@ == log.data,
    ensures
        check_log_matches(p, actual) <==> (actual.address == log.address && actual.endpoint
            == log.endpoint && actual.topics == log.topics && actual.data == log.data),
{
    if check_log_matches(p, actual) {
        assert(actual.topics.len() == log.topics.len());
        assert forall|i: int| 0 <= i < log.topics.len() implies actual.topics[i] == log.topics[i] by {
            let ts = p.topics->Equal_0;
            assert(check_bytes_matches(ts@[i], actual.topics[i]));
            assert(ts@[i] matches CheckBytes::Equal(t) && t@ == log.topics[i]);
        }
        assert(actual.topics =~= log.topics);
    }
}

} // verus!
