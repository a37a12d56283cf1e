//! How a controller identifier is derived from an endpoint identifier.
//!
//! The identifier of the controller behind an endpoint is a prefix of the
//! endpoint's own identifier, cut at a delimiter. Identifier formats differ
//! in the delimiter and in the side of it on which the cut falls, so both
//! are parameters of a policy, and a caller chooses one.

use vstd::prelude::*;
use crate::wide::{
    chars_of, lemma_wide_text_reads_back, logical_text, to_wide, utf16_units, TERMINATOR,
};

verus! {

/// On which side of the delimiter an identifier is cut.
#[derive(Clone, Copy, Debug, PartialEq, Eq, Structural)]
pub enum CutPoint {
    /// The prefix ends just before the delimiter.
    BeforeDelimiter,
    /// The prefix ends just behind the delimiter and holds it.
    AfterDelimiter,
}

/// `pattern` stands in `text` at index `at`.
pub open spec fn occurs_at(text: Seq<char>, pattern: Seq<char>, at: int) -> bool {
    &&& 0 <= at
    &&& at + pattern.len() <= text.len()
    &&& text.subrange(at, at + pattern.len()) == pattern
}

/// `pattern` stands in `text` at `at` and nowhere before.
pub open spec fn is_first_occurrence(text: Seq<char>, pattern: Seq<char>, at: int) -> bool {
    &&& occurs_at(text, pattern, at)
    &&& forall|j: int| 0 <= j < at ==> !occurs_at(text, pattern, j)
}

/// `pattern` stands nowhere in `text`.
pub open spec fn absent(text: Seq<char>, pattern: Seq<char>) -> bool {
    forall|j: int| !occurs_at(text, pattern, j)
}

/// Where `pattern` first stands in `text`, if anywhere.
pub open spec fn first_occurrence(text: Seq<char>, pattern: Seq<char>) -> Option<int> {
    if exists|at: int| occurs_at(text, pattern, at) {
        Some(choose|at: int| is_first_occurrence(text, pattern, at))
    } else {
        None
    }
}

/// A first occurrence is the first occurrence.
pub proof fn lemma_first_occurrence_found(text: Seq<char>, pattern: Seq<char>, at: int)
    requires
        is_first_occurrence(text, pattern, at),
    ensures
        first_occurrence(text, pattern) == Some(at),
{
    assert(occurs_at(text, pattern, at));
    let chosen = choose|k: int| is_first_occurrence(text, pattern, k);
    assert(is_first_occurrence(text, pattern, chosen));
    if chosen < at {
        assert(!occurs_at(text, pattern, chosen));
    }
    if at < chosen {
        assert(!occurs_at(text, pattern, at));
    }
}

/// Where a pattern stands nowhere, there is no first occurrence.
pub proof fn lemma_first_occurrence_absent(text: Seq<char>, pattern: Seq<char>)
    requires
        absent(text, pattern),
    ensures
        first_occurrence(text, pattern) is None,
{
}

/// Says whether `pattern` stands in `text` at `at`. It does not where it
/// would reach beyond the end of `text`.
pub fn matches_at(text: &[char], pattern: &[char], at: usize) -> (found: bool)
    ensures
        found == occurs_at(text@, pattern@, at as int),
{
    let n: usize = text.len();
    let m: usize = pattern.len();
    if at > n || m > n - at {
        return false;
    }
    let mut k: usize = 0;
    while k < m
        invariant
            n == text@.len(),
            m == pattern@.len(),
            k <= m,
            at + m <= n,
            forall|j: int| 0 <= j < k ==> text@[at + j] == pattern@[j],
        decreases m - k,
    {
        if text[at + k] != pattern[k] {
            proof {
                let window = text@.subrange(at as int, at + m);
                assert(window[k as int] == text@[at + k]);
            }
            return false;
        }
        k += 1;
    }
    assert(text@.subrange(at as int, at + m) =~= pattern@);
    true
}

/// Finds the first place at which `pattern` stands in `text`.
pub fn find_first(text: &[char], pattern: &[char]) -> (found: Option<usize>)
    ensures
        match found {
            Some(at) => {
                &&& is_first_occurrence(text@, pattern@, at as int)
                &&& first_occurrence(text@, pattern@) == Some(at as int)
            },
            None => absent(text@, pattern@) && first_occurrence(text@, pattern@) is None,
        },
{
    let n: usize = text.len();
    let m: usize = pattern.len();
    if m > n {
        proof {
            lemma_first_occurrence_absent(text@, pattern@);
        }
        return None;
    }
    let last: usize = n - m;
    let mut at: usize = 0;
    loop
        invariant
            n == text@.len(),
            m == pattern@.len(),
            last == n - m,
            at <= last,
            forall|j: int| 0 <= j < at ==> !occurs_at(text@, pattern@, j),
        decreases last - at,
    {
        if matches_at(text, pattern, at) {
            proof {
                lemma_first_occurrence_found(text@, pattern@, at as int);
            }
            return Some(at);
        }
        if at == last {
            proof {
                lemma_first_occurrence_absent(text@, pattern@);
            }
            return None;
        }
        at += 1;
    }
}

/// The rule by which an endpoint identifier is cut down to the identifier
/// that the device service is asked for.
#[derive(Clone, Debug, PartialEq, Eq)]
pub struct TruncationPolicy {
    /// The text that marks the place of the cut.
    pub delimiter: String,
    /// The side of the delimiter on which the cut falls.
    pub cut: CutPoint,
}

/// A `TruncationPolicy` as plain values.
pub struct PolicyView {
    pub delimiter: Seq<char>,
    pub cut: CutPoint,
}

impl View for TruncationPolicy {
    type V = PolicyView;

    open spec fn view(&self) -> PolicyView {
        PolicyView { delimiter: self.delimiter@, cut: self.cut }
    }
}

impl PolicyView {
    /// Number of characters of `text` that the policy keeps: up to the first
    /// delimiter, with or without it, or all of `text` where it holds no
    /// delimiter.
    pub open spec fn cut_len(self, text: Seq<char>) -> int {
        match first_occurrence(text, self.delimiter) {
            Some(at) => match self.cut {
                CutPoint::BeforeDelimiter => at,
                CutPoint::AfterDelimiter => at + self.delimiter.len(),
            },
            None => text.len() as int,
        }
    }

    /// The prefix of `text` that the policy keeps.
    pub open spec fn truncated(self, text: Seq<char>) -> Seq<char> {
        text.subrange(0, self.cut_len(text))
    }

    /// The terminated UTF-16 text by which the device service is asked for
    /// the controller behind the endpoint `endpoint_id`.
    pub open spec fn query(self, endpoint_id: Seq<char>) -> Seq<u16> {
        utf16_units(self.truncated(endpoint_id)).push(TERMINATOR)
    }
}

impl TruncationPolicy {
    /// A policy that cuts at the first `delimiter`, on the side `cut`.
    pub fn new(delimiter: &str, cut: CutPoint) -> (policy: Self)
        ensures
            policy@ == (PolicyView { delimiter: delimiter@, cut }),
    {
        TruncationPolicy { delimiter: delimiter.to_owned(), cut }
    }

    /// The policy that keeps what stands before the first `/`.
    pub fn before_first_slash() -> (policy: Self)
        ensures
            policy@ == (PolicyView { delimiter: seq!['/'], cut: CutPoint::BeforeDelimiter }),
    {
        proof {
            reveal_strlit("/");
        }
        assert("/"@ =~= seq!['/']);
        TruncationPolicy::new("/", CutPoint::BeforeDelimiter)
    }

    /// Cuts `identifier` down to the prefix that the policy keeps.
    pub fn truncate(&self, identifier: &str) -> (prefix: String)
        ensures
            prefix@ == self@.truncated(identifier@),
    {
        let text: Vec<char> = chars_of(identifier);
        let pattern: Vec<char> = chars_of(self.delimiter.as_str());
        let whole: usize = text.len();
        let keep: usize = match find_first(text.as_slice(), pattern.as_slice()) {
            Some(at) => {
                assert(occurs_at(text@, pattern@, at as int));
                match self.cut {
                    CutPoint::BeforeDelimiter => at,
                    CutPoint::AfterDelimiter => at + pattern.len(),
                }
            },
            None => whole,
        };
        identifier.substring_char(0, keep).to_owned()
    }

    /// The text by which the device service is asked for the controller
    /// behind the endpoint `endpoint_id`: the prefix that the policy keeps,
    /// as terminated UTF-16.
    pub fn controller_query(&self, endpoint_id: &str) -> (query: Vec<u16>)
        ensures
            query@ == self@.query(endpoint_id@),
    {
        let prefix: String = self.truncate(endpoint_id);
        to_wide(prefix.as_str())
    }
}

/// What a policy keeps is a prefix of the identifier, and the whole
/// identifier where it holds no delimiter.
pub proof fn lemma_truncated_is_prefix(policy: PolicyView, text: Seq<char>)
    ensures
        0 <= policy.cut_len(text) <= text.len(),
        policy.truncated(text).len() == policy.cut_len(text),
        policy.truncated(text).is_prefix_of(text),
        absent(text, policy.delimiter) ==> policy.truncated(text) == text,
{
    lemma_first_occurrence_cases(text, policy.delimiter);
    if first_occurrence(text, policy.delimiter) is None {
        assert(text.subrange(0, text.len() as int) =~= text);
    }
}

/// The first occurrence, where there is one, is an occurrence with none
/// before it; where there is none, the pattern is absent.
pub proof fn lemma_first_occurrence_cases(text: Seq<char>, pattern: Seq<char>)
    ensures
        match first_occurrence(text, pattern) {
            Some(at) => is_first_occurrence(text, pattern, at),
            None => absent(text, pattern),
        },
{
    if exists|at: int| occurs_at(text, pattern, at) {
        let some = choose|at: int| occurs_at(text, pattern, at);
        lemma_least_occurrence(text, pattern, some);
    }
}

/// An occurrence at `at` implies a first occurrence at or before `at`.
proof fn lemma_least_occurrence(text: Seq<char>, pattern: Seq<char>, at: int)
    requires
        occurs_at(text, pattern, at),
    ensures
        exists|first: int| is_first_occurrence(text, pattern, first),
    decreases at,
{
    if exists|j: int| 0 <= j < at && occurs_at(text, pattern, j) {
        let j = choose|j: int| 0 <= j < at && occurs_at(text, pattern, j);
        lemma_least_occurrence(text, pattern, j);
    } else {
        assert(is_first_occurrence(text, pattern, at));
    }
}

/// Cutting what was cut changes nothing: a policy keeps the whole of what it
/// has kept.
pub proof fn lemma_truncated_idempotent(policy: PolicyView, text: Seq<char>)
    ensures
        policy.truncated(policy.truncated(text)) == policy.truncated(text),
{
    let pattern = policy.delimiter;
    let kept = policy.truncated(text);
    lemma_truncated_is_prefix(policy, text);
    lemma_first_occurrence_cases(text, pattern);
    match first_occurrence(text, pattern) {
        None => {
            assert(kept == text);
        },
        Some(at) => {
            match policy.cut {
                CutPoint::BeforeDelimiter => {
                    if pattern.len() == 0 {
                        assert(at == 0) by {
                            if at > 0 {
                                assert(text.subrange(0, 0) =~= pattern);
                                assert(occurs_at(text, pattern, 0));
                            }
                        }
                        assert(kept.len() == 0);
                        assert(kept.subrange(0, 0) =~= pattern);
                        assert(is_first_occurrence(kept, pattern, 0));
                        lemma_first_occurrence_found(kept, pattern, 0);
                        assert(policy.truncated(kept) =~= kept);
                    } else {
                        assert forall|j: int| !occurs_at(kept, pattern, j) by {
                            if occurs_at(kept, pattern, j) {
                                assert(text.subrange(j, j + pattern.len()) =~= kept.subrange(
                                    j,
                                    j + pattern.len(),
                                ));
                                assert(occurs_at(text, pattern, j));
                            }
                        }
                        lemma_first_occurrence_absent(kept, pattern);
                        assert(policy.truncated(kept) =~= kept);
                    }
                },
                CutPoint::AfterDelimiter => {
                    assert(kept.subrange(at, at + pattern.len()) =~= text.subrange(
                        at,
                        at + pattern.len(),
                    ));
                    assert forall|j: int| 0 <= j < at implies !occurs_at(kept, pattern, j) by {
                        if occurs_at(kept, pattern, j) {
                            assert(text.subrange(j, j + pattern.len()) =~= kept.subrange(
                                j,
                                j + pattern.len(),
                            ));
                            assert(occurs_at(text, pattern, j));
                        }
                    }
                    assert(is_first_occurrence(kept, pattern, at));
                    lemma_first_occurrence_found(kept, pattern, at);
                    assert(policy.truncated(kept) =~= kept);
                },
            }
        },
    }
}

/// The device service, which reads a query up to its terminator, reads the
/// encoding of the prefix that the policy keeps, unless the identifier holds
/// the character zero.
pub proof fn lemma_query_reads_as_prefix(policy: PolicyView, endpoint_id: Seq<char>)
    requires
        forall|i: int| 0 <= i < endpoint_id.len() ==> endpoint_id[i] != '\0',
    ensures
        logical_text(policy.query(endpoint_id)) == utf16_units(policy.truncated(endpoint_id)),
{
    lemma_truncated_is_prefix(policy, endpoint_id);
    let kept = policy.truncated(endpoint_id);
    assert forall|i: int| 0 <= i < kept.len() implies kept[i] != '\0' by {
        assert(kept[i] == endpoint_id[i]);
    }
    lemma_wide_text_reads_back(kept);
}

} // verus!
