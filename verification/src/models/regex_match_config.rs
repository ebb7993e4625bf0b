//! Rename and emoji rules: a pattern, its replacement and an optional
//! script.
use crate::text::{chars_of, push_str, string_of};
use crate::utils::matcher::{reg_find, reg_find_spec, regex_replace_all, regex_replaced};
use vstd::prelude::*;

verus! {

/// A regular-expression rule for node remarks.
#[derive(Debug, Clone)]
pub struct RegexMatchConfig {
    /// The pattern that selects remarks.
    pub _match: String,
    /// What a match is replaced with.
    pub replace: String,
    /// A script that computes the result instead.
    pub script: String,
}

/// A list of remark rules, applied in order.
pub type RegexMatchConfigs = Vec<RegexMatchConfig>;

impl RegexMatchConfig {
    /// A rule from its pattern, replacement and script.
    pub fn new(_match: String, replace: String, script: String) -> (r: Self)
        ensures
            r._match == _match,
            r.replace == replace,
            r.script == script,
    {
        RegexMatchConfig { _match, replace, script }
    }

    /// A remark after this rule: where the pattern finds a match in it,
    /// ignoring case, every match is replaced (case ignored too); else the
    /// remark as it is.
    pub open spec fn applied(self, remark: Seq<char>) -> Seq<char> {
        if reg_find_spec(remark, self._match@) {
            regex_replaced("(?i)"@ + self._match@, remark, self.replace@)
        } else {
            remark
        }
    }

    /// Applies this rule to a remark (see [`Self::applied`]).
    pub fn process(&self, remark: &mut String)
        ensures
            final(remark)@ == self.applied(old(remark)@),
    {
        if reg_find(remark.as_str(), self._match.as_str()) {
            let mut p = chars_of("(?i)");
            push_str(&mut p, self._match.as_str());
            let pattern = string_of(p.as_slice());
            let r = regex_replace_all(remark.as_str(), pattern.as_str(), self.replace.as_str());
            *remark = r;
        }
    }
}

/// A remark after each rule in turn.
pub open spec fn renamed(rules: Seq<RegexMatchConfig>, remark: Seq<char>) -> Seq<char>
    decreases rules.len(),
{
    if rules.len() == 0 {
        remark
    } else {
        rules.last().applied(renamed(rules.drop_last(), remark))
    }
}

/// A remark after each rule in turn (see [`renamed`]).
pub fn rename_remark(rules: &Vec<RegexMatchConfig>, remark: &str) -> (r: String)
    ensures
        r@ == renamed(rules@, remark@),
{
    let mut out = string_of(chars_of(remark).as_slice());
    let mut i: usize = 0;
    assert(rules@.take(0) =~= Seq::<RegexMatchConfig>::empty());
    while i < rules.len()
        invariant
            i <= rules@.len(),
            out@ == renamed(rules@.take(i as int), remark@),
        decreases rules@.len() - i,
    {
        assert(rules@.take(i + 1).drop_last() =~= rules@.take(i as int));
        assert(rules@.take(i + 1).last() == rules@[i as int]);
        rules[i].process(&mut out);
        i = i + 1;
    }
    assert(rules@.take(i as int) =~= rules@);
    out
}

} // verus!
