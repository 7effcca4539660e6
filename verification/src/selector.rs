//! Choosing the rule for a merge: wildcard patterns against branch names.

use globset::Glob;
use regex::bytes::RegexBuilder;
use vstd::prelude::*;
use vstd::string::*;

use crate::config::{Merge, MergeModel, Workflow, WorkflowConfig, WorkflowModel};
use crate::text::{short_branch_name, short_name};

verus! {

/// The deepest nesting of braces with which a pattern is handed to the glob
/// matcher. The matcher's regular expression nests as deep as the braces of
/// the pattern that hold anything, and none is built that nests deeper than
/// this.
pub const MAX_BRACE_DEPTH: usize = 250;

/// The most levels of braces that are open at once from place `i` of a
/// pattern on, where `open` levels are open before that place. Every `{`
/// opens a level. A `}` closes one where `plain` holds: as long as no
/// backslash and no `[` came before it, after which a brace may stand for
/// itself.
pub open spec fn brace_depth_from(pattern: Seq<char>, i: int, open: int, plain: bool) -> int
    decreases pattern.len() - i,
{
    if i < 0 || i >= pattern.len() {
        open
    } else {
        let c = pattern[i];
        let open_after = if c == '{' {
            open + 1
        } else if c == '}' && plain && open > 0 {
            open - 1
        } else {
            open
        };
        let rest = brace_depth_from(pattern, i + 1, open_after, plain && c != '\\' && c != '[');
        if open >= rest {
            open
        } else {
            rest
        }
    }
}

/// A bound on the depth to which the braces of a pattern nest: the most
/// levels that are open at once, counted as [`brace_depth_from`] says.
pub open spec fn brace_depth(pattern: Seq<char>) -> int {
    brace_depth_from(pattern, 0, 0, true)
}

proof fn brace_depth_from_is_at_least_open(pattern: Seq<char>, i: int, open: int, plain: bool)
    ensures
        brace_depth_from(pattern, i, open, plain) >= open,
    decreases pattern.len() - i,
{
}

/// Whether the braces of a pattern nest no deeper than `limit`.
pub fn braces_nest_within(pattern: &str, limit: usize) -> (r: bool)
    ensures
        r == (brace_depth(pattern@) <= limit),
{
    broadcast use vstd::string::group_string_axioms;

    let mut open: usize = 0;
    let mut plain: bool = true;
    let ghost mut peak: int = 0;
    for c in it: pattern.chars()
        invariant
            it.seq() == pattern@,
            open <= peak <= limit,
            brace_depth(pattern@) == if peak >= brace_depth_from(pattern@, it.index() as int, open as int, plain) {
                peak
            } else {
                brace_depth_from(pattern@, it.index() as int, open as int, plain)
            },
    {
        if c == '{' {
            if open == limit {
                proof {
                    brace_depth_from_is_at_least_open(pattern@, it.index() + 1, open as int + 1, plain);
                }
                return false;
            }
            open = open + 1;
        } else if c == '}' && plain && open > 0 {
            open = open - 1;
        }
        if c == '\\' || c == '[' {
            plain = false;
        }
        proof {
            brace_depth_from_is_at_least_open(pattern@, it.index() + 1, open as int, plain);
            if open > peak {
                peak = open as int;
            }
        }
    }
    true
}

/// What the glob matcher says of a pattern and a text: `None` where the
/// pattern is no glob or no matcher can be built for it, else whether the
/// whole text matches the pattern.
///
/// The pattern is read as `globset` reads it on the target that the library
/// is built for. Where the backslash is a path separator, it is one in a
/// pattern too, and escapes nothing; elsewhere it escapes the character after
/// it. The text is matched as it stands on every target.
pub uninterp spec fn glob_match(pattern: Seq<char>, text: Seq<char>) -> Option<bool>;

/// Whether `text` matches the wildcard `pattern`. A pattern that is no glob,
/// or for which no matcher can be built, matches nothing, and so does one
/// whose braces may nest deeper than [`MAX_BRACE_DEPTH`].
pub open spec fn matches(pattern: Seq<char>, text: Seq<char>) -> bool {
    brace_depth(pattern) <= MAX_BRACE_DEPTH && glob_match(pattern, text) == Some(true)
}

/// Calls `globset::Glob::new`, hands the regular expression that
/// `Glob::regex` gives for the glob to `regex::bytes::RegexBuilder`, and asks
/// `Regex::is_match` of the text's bytes. The result is `None` where
/// `Glob::new` refuses the pattern or `RegexBuilder::build` the expression,
/// and it depends on the two texts alone.
///
/// This is the way to a matcher that `Glob::regex` documents. The matcher is
/// the one of `Glob::compile_matcher`: an expression over bytes, as the text
/// of the expression itself says, in which a dot matches a line feed too,
/// within ten megabytes and 250 levels of nesting. Only that
/// `compile_matcher` panics where the expression is over one of the two
/// limits, and `build` returns the error.
///
/// `Glob::new` writes the expression, and later drops what it has read, by
/// functions that call themselves once for each level of nested braces, so a
/// pattern of some thousand levels runs out of stack. The bound on the depth
/// leaves such patterns out. [`brace_depth`] is no less than the depth that
/// `Glob::new` sees. It reads every `{` as an opening one, which `Glob::new`
/// does too but for those that an escape or a class makes literal, and a `}`
/// as a closing one only before the first backslash or `[` of the pattern,
/// where `Glob::new` reads it so too.
#[verifier::external_body]
fn glob_is_match(pattern: &str, text: &str) -> (r: Option<bool>)
    requires
        brace_depth(pattern@) <= MAX_BRACE_DEPTH,
    ensures
        r == glob_match(pattern@, text@),
{
    let glob = Glob::new(pattern).ok()?;
    let matcher = RegexBuilder::new(glob.regex()).dot_matches_new_line(true).build().ok()?;
    Some(matcher.is_match(text.as_bytes()))
}

/// Whether `s` as a whole matches the wildcard.
pub fn wildcard_matches(wildcard: &str, s: &str) -> (r: bool)
    ensures
        r == matches(wildcard@, s@),
{
    if !braces_nest_within(wildcard, MAX_BRACE_DEPTH) {
        return false;
    }
    match glob_is_match(wildcard, s) {
        Some(found) => found,
        None => false,
    }
}

/// The bound on the depth of braces leaves a pattern without a `{` as it is:
/// such a pattern matches a text exactly where the glob matcher says so.
pub proof fn pattern_without_braces_is_left_to_the_matcher(pattern: Seq<char>, text: Seq<char>)
    requires
        forall|i: int| 0 <= i < pattern.len() ==> pattern[i] != '{',
    ensures
        brace_depth(pattern) == 0,
        matches(pattern, text) == (glob_match(pattern, text) == Some(true)),
{
    no_brace_no_depth(pattern, 0, true);
}

proof fn no_brace_no_depth(pattern: Seq<char>, i: int, plain: bool)
    requires
        0 <= i,
        forall|k: int| 0 <= k < pattern.len() ==> pattern[k] != '{',
    ensures
        brace_depth_from(pattern, i, 0, plain) == 0,
    decreases pattern.len() - i,
{
    if i < pattern.len() {
        no_brace_no_depth(pattern, i + 1, plain && pattern[i] != '\\' && pattern[i] != '[');
    }
}

/// Whether a pair of patterns applies to a merge: both sides must match.
pub open spec fn pair_matches(pair: MergeModel, from_branch: Seq<char>, to_branch: Seq<char>) -> bool {
    matches(pair.from, from_branch) && matches(pair.to, to_branch)
}

/// Whether a rule applies to a merge: one of its pairs must match.
pub open spec fn rule_matches(rule: WorkflowModel, from_branch: Seq<char>, to_branch: Seq<char>) -> bool {
    exists|j: int| 0 <= j < rule.merge.len() && pair_matches(#[trigger] rule.merge[j], from_branch, to_branch)
}

/// Whether rule `i` is the first of the rules that applies to a merge.
pub open spec fn is_first_match(
    rules: Seq<WorkflowModel>,
    from_branch: Seq<char>,
    to_branch: Seq<char>,
    i: int,
) -> bool {
    &&& 0 <= i < rules.len()
    &&& rule_matches(rules[i], from_branch, to_branch)
    &&& forall|k: int| 0 <= k < i ==> !rule_matches(#[trigger] rules[k], from_branch, to_branch)
}

/// Whether the merge of `from_branch` into `to_branch` is one that `merge`
/// names.
pub fn merge_matches(merge: &Merge, from_branch: &str, to_branch: &str) -> (r: bool)
    ensures
        r == pair_matches(merge@, from_branch@, to_branch@),
{
    wildcard_matches(merge.from.as_str(), from_branch) && wildcard_matches(merge.to.as_str(), to_branch)
}

/// Whether the rule names the merge of `from_branch` into `to_branch` in one
/// of its pairs.
pub fn workflow_matches(workflow: &Workflow, from_branch: &str, to_branch: &str) -> (r: bool)
    ensures
        r == rule_matches(workflow@, from_branch@, to_branch@),
{
    let mut j: usize = 0;
    while j < workflow.merge.len()
        invariant
            j <= workflow.merge@.len(),
            forall|k: int| 0 <= k < j ==> !pair_matches(#[trigger] workflow@.merge[k], from_branch@, to_branch@),
        decreases workflow.merge@.len() - j,
    {
        if merge_matches(&workflow.merge[j], from_branch, to_branch) {
            assert(pair_matches(workflow@.merge[j as int], from_branch@, to_branch@));
            return true;
        }
        j = j + 1;
    }
    false
}

/// The first rule at or after `start` that applies to a merge, by its place
/// among the rules.
pub open spec fn first_match_from(
    rules: Seq<WorkflowModel>,
    from_branch: Seq<char>,
    to_branch: Seq<char>,
    start: int,
) -> Option<int>
    decreases rules.len() - start,
{
    if start < 0 || start >= rules.len() {
        None
    } else if rule_matches(rules[start], from_branch, to_branch) {
        Some(start)
    } else {
        first_match_from(rules, from_branch, to_branch, start + 1)
    }
}

/// The first rule that applies to a merge, by its place among the rules.
pub open spec fn first_match(rules: Seq<WorkflowModel>, from_branch: Seq<char>, to_branch: Seq<char>) -> Option<int> {
    first_match_from(rules, from_branch, to_branch, 0)
}

/// The rule to run for a merge of `from_branch` into `to_branch`: the first
/// in the order of the file that names the merge, or none. The branches may
/// be given by their references or by their short names; the patterns are
/// held against the short names.
pub fn select_workflow<'w>(config: &'w WorkflowConfig, from_branch: &str, to_branch: &str) -> (r: Option<&'w Workflow>)
    ensures
        match first_match(config@, short_name(from_branch@), short_name(to_branch@)) {
            Some(i) => 0 <= i < config.workflow@.len() && r == Some(&config.workflow@[i]),
            None => r is None,
        },
{
    let from_name: &str = short_branch_name(from_branch);
    let to_name: &str = short_branch_name(to_branch);
    let mut i: usize = 0;
    while i < config.workflow.len()
        invariant
            i <= config.workflow@.len(),
            from_name@ == short_name(from_branch@),
            to_name@ == short_name(to_branch@),
            first_match_from(config@, from_name@, to_name@, i as int) == first_match(
                config@,
                from_name@,
                to_name@,
            ),
        decreases config.workflow@.len() - i,
    {
        let workflow: &Workflow = &config.workflow[i];
        if workflow_matches(workflow, from_name, to_name) {
            return Some(workflow);
        }
        i = i + 1;
    }
    None
}

/// The rule that is selected is the first that applies: it applies itself,
/// and no rule before it does. Where none is selected, no rule applies.
pub proof fn first_match_is_first(rules: Seq<WorkflowModel>, from_branch: Seq<char>, to_branch: Seq<char>)
    ensures
        match first_match(rules, from_branch, to_branch) {
            Some(i) => is_first_match(rules, from_branch, to_branch, i),
            None => forall|k: int| 0 <= k < rules.len() ==> !rule_matches(#[trigger] rules[k], from_branch, to_branch),
        },
{
    first_match_from_is_first(rules, from_branch, to_branch, 0);
}

proof fn first_match_from_is_first(
    rules: Seq<WorkflowModel>,
    from_branch: Seq<char>,
    to_branch: Seq<char>,
    start: int,
)
    requires
        0 <= start,
    ensures
        match first_match_from(rules, from_branch, to_branch, start) {
            Some(i) => {
                &&& start <= i < rules.len()
                &&& rule_matches(rules[i], from_branch, to_branch)
                &&& forall|k: int| start <= k < i ==> !rule_matches(#[trigger] rules[k], from_branch, to_branch)
            },
            None => forall|k: int|
                start <= k < rules.len() ==> !rule_matches(#[trigger] rules[k], from_branch, to_branch),
        },
    decreases rules.len() - start,
{
    if start < rules.len() && !rule_matches(rules[start], from_branch, to_branch) {
        first_match_from_is_first(rules, from_branch, to_branch, start + 1);
    }
}

/// Of two rules that both apply, the earlier one is selected: where rule `i`
/// applies, the selected rule is `i` or stands before it.
pub proof fn earlier_rule_wins(rules: Seq<WorkflowModel>, from_branch: Seq<char>, to_branch: Seq<char>, i: int)
    requires
        0 <= i < rules.len(),
        rule_matches(rules[i], from_branch, to_branch),
    ensures
        first_match(rules, from_branch, to_branch) is Some,
        first_match(rules, from_branch, to_branch)->0 <= i,
        i == 0 ==> first_match(rules, from_branch, to_branch) == Some(0int),
{
    first_match_is_first(rules, from_branch, to_branch);
}

/// A rule without pairs names no merge.
pub proof fn rule_without_pairs_matches_nothing(rule: WorkflowModel, from_branch: Seq<char>, to_branch: Seq<char>)
    requires
        rule.merge.len() == 0,
    ensures
        !rule_matches(rule, from_branch, to_branch),
{
}

/// A rule applies to a merge exactly where one of its pairs has both of its
/// sides match: the two sides of a pair are joined by "and", the pairs of a
/// rule by "or".
pub proof fn rule_matches_some_pair(rule: WorkflowModel, from_branch: Seq<char>, to_branch: Seq<char>)
    ensures
        rule_matches(rule, from_branch, to_branch) <==> exists|j: int|
            0 <= j < rule.merge.len() && matches(#[trigger] rule.merge[j].from, from_branch) && matches(
                rule.merge[j].to,
                to_branch,
            ),
{
    if rule_matches(rule, from_branch, to_branch) {
        let j = choose|j: int| 0 <= j < rule.merge.len() && pair_matches(#[trigger] rule.merge[j], from_branch, to_branch);
        assert(matches(rule.merge[j].from, from_branch) && matches(rule.merge[j].to, to_branch));
    }
    if exists|j: int|
        0 <= j < rule.merge.len() && matches(#[trigger] rule.merge[j].from, from_branch) && matches(
            rule.merge[j].to,
            to_branch,
        ) {
        let j = choose|j: int|
            0 <= j < rule.merge.len() && matches(#[trigger] rule.merge[j].from, from_branch) && matches(
                rule.merge[j].to,
                to_branch,
            );
        assert(pair_matches(rule.merge[j], from_branch, to_branch));
    }
}

} // verus!
