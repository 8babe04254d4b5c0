//! Blacklist filtering: a candidate address is checked against an ordered
//! sequence of optional pattern rules. Empty or absent rules are skipped,
//! a pattern that does not compile is skipped, and evaluation stops at the
//! first rule that matches.

use vstd::prelude::*;

verus! {

/// Whether `pattern` compiles as a regular expression under the default
/// configuration (syntactically valid and within the default size limit).
pub uninterp spec fn regex_accepts(pattern: Seq<char>) -> bool;

/// Whether the regular expression `pattern` matches anywhere in `text`.
pub uninterp spec fn regex_match(pattern: Seq<char>, text: Seq<char>) -> bool;

/// Relies on regex::Regex::new and regex::Regex::is_match: under the default
/// configuration, compilation fails exactly on patterns the crate rejects
/// (invalid syntax or over the size limit), and whether a compiled pattern
/// matches a haystack is a function of the pattern and the haystack alone.
#[verifier::external_body]
fn try_pattern_match(pattern: &str, text: &str) -> (r: Option<bool>)
    ensures
        r is Some <==> regex_accepts(pattern@),
        r matches Some(m) ==> m == regex_match(pattern@, text@),
{
    match regex::Regex::new(pattern) {
        Ok(re) => Some(re.is_match(text)),
        Err(_) => None,
    }
}

/// Whether one rule suppresses `candidate`: the rule must be present,
/// non-empty, accepted by the pattern compiler, and match the candidate.
pub open spec fn rule_matches(rule: Option<Seq<char>>, candidate: Seq<char>) -> bool {
    match rule {
        Some(p) => p.len() > 0 && regex_accepts(p) && regex_match(p, candidate),
        None => false,
    }
}

/// Whether any rule in the sequence suppresses `candidate`.
pub open spec fn blacklisted(rules: Seq<Option<Seq<char>>>, candidate: Seq<char>) -> bool {
    exists|i: int| 0 <= i < rules.len() && rule_matches(rules[i], candidate)
}

/// The index of the first rule that matches `candidate`, in rule order,
/// or `None` if no rule matches. Absent, empty and non-compiling rules
/// are skipped; evaluation stops at the first match.
#[verifier::loop_isolation(false)]
pub fn first_match(candidate: &str, rules: &Vec<Option<String>>) -> (r: Option<usize>)
    ensures
        match r {
            Some(i) => i < rules@.len() && rule_matches(rules.deep_view()[i as int], candidate@)
                && (forall|j: int|
                0 <= j < i ==> !rule_matches(rules.deep_view()[j], candidate@)),
            None => forall|j: int|
                0 <= j < rules@.len() ==> !rule_matches(rules.deep_view()[j], candidate@),
        },
{
    let mut idx: usize = 0;
    while idx < rules.len()
        invariant
            idx <= rules@.len(),
            forall|j: int| 0 <= j < idx ==> !rule_matches(rules.deep_view()[j], candidate@),
        decreases rules@.len() - idx,
    {
        match &rules[idx] {
            Some(p) => {
                if !p.as_str().is_empty() {
                    match try_pattern_match(p.as_str(), candidate) {
                        Some(true) => {
                            return Some(idx);
                        },
                        _ => {},
                    }
                }
            },
            None => {},
        }
        proof {
            assert(!rule_matches(rules.deep_view()[idx as int], candidate@));
        }
        idx = idx + 1;
    }
    None
}

/// Whether `candidate` is suppressed by the rule sequence.
pub fn matches(candidate: &str, rules: &Vec<Option<String>>) -> (r: bool)
    ensures
        r == blacklisted(rules.deep_view(), candidate@),
{
    let m = first_match(candidate, rules);
    m.is_some()
}

/// Law: with a single present, non-empty pattern that the compiler accepts,
/// the filter suppresses a candidate exactly when the pattern matches it.
pub proof fn lemma_single_rule_matches(p: Seq<char>, c: Seq<char>)
    requires
        p.len() > 0,
        regex_accepts(p),
    ensures
        blacklisted(seq![Some(p)], c) <==> regex_match(p, c),
{
    if regex_match(p, c) {
        assert(rule_matches(seq![Some(p)][0], c));
    }
}

} // verus!
