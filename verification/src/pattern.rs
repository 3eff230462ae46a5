//! Scanning patterns: regular expressions with two named capture groups,
//! one for the handle of a device and one for its vendor/product identifier.
//!
//! The regular expressions are compiled and run by the `regex` crate. What
//! it computes is not proved here; it enters the contracts by name.

use vstd::prelude::*;
use regex::Regex;
use crate::text::contains_text;

verus! {

/// The error of `regex::Regex::new`. Nothing is read from it.
#[verifier::external_type_specification]
#[verifier::external_body]
pub struct ExRegexError(regex::Error);

/// Whether `regex::Regex::new` accepts `pattern`: it is a regular expression
/// in the syntax of `regex`, and not larger than `regex` allows by default.
pub uninterp spec fn pattern_compiles(pattern: Seq<char>) -> bool;

/// What `regex::Regex::capture_names` yields for the regular expression
/// compiled from `pattern`: one item per capture group in the order of the
/// opening parentheses, `None` for a group without a name.
pub uninterp spec fn pattern_group_names(pattern: Seq<char>) -> Seq<Option<Seq<char>>>;

/// What `regex::Regex::captures_iter` finds in `text` for the regular
/// expression compiled from `pattern`: one item per match, in the order of
/// the matches, holding what `regex::Captures::name` gives for the groups
/// named `first` and `second` (the matched text, or `None` where there is
/// no such group or it took no part in the match).
pub uninterp spec fn pattern_captures(
    pattern: Seq<char>,
    text: Seq<char>,
    first: Seq<char>,
    second: Seq<char>,
) -> Seq<(Option<Seq<char>>, Option<Seq<char>>)>;

/// What a pair captured stands in `text`, character for character.
pub open spec fn captured_from(
    pair: (Option<Seq<char>>, Option<Seq<char>>),
    text: Seq<char>,
) -> bool {
    &&& pair.0 matches Some(first) ==> contains_text(text, first)
    &&& pair.1 matches Some(second) ==> contains_text(text, second)
}

/// Compiles `pattern` with `regex::Regex::new` and collects what
/// `regex::Regex::capture_names` yields.
///
/// Trusted: the call fails exactly on the patterns that do not compile, and
/// the names come back as the iterator yields them.
#[verifier::external_body]
pub(crate) fn compile_group_names(pattern: &str) -> (names: Result<
    Vec<Option<String>>,
    regex::Error,
>)
    ensures
        names is Ok == pattern_compiles(pattern@),
        names matches Ok(found) ==> found.deep_view() == pattern_group_names(pattern@),
{
    let re = Regex::new(pattern)?;
    Ok(re.capture_names().map(|name| name.map(|n| n.to_string())).collect())
}

/// Compiles `pattern` with `regex::Regex::new`, runs
/// `regex::Regex::captures_iter` over `text` and reads the groups named
/// `first` and `second` from each match with `regex::Captures::name` and
/// `regex::Match::as_str`.
///
/// Trusted: the call fails exactly on the patterns that do not compile, the
/// pairs come back match by match, and what a group matched is a piece of
/// `text` (`Match::as_str` is a slice of the text that was searched).
#[verifier::external_body]
pub(crate) fn capture_pairs(
    pattern: &str,
    text: &str,
    first: &str,
    second: &str,
) -> (pairs: Result<Vec<(Option<String>, Option<String>)>, regex::Error>)
    ensures
        pairs is Ok == pattern_compiles(pattern@),
        pairs matches Ok(found) ==> found.deep_view() == pattern_captures(
            pattern@,
            text@,
            first@,
            second@,
        ),
        pairs matches Ok(found) ==> forall|i: int|
            0 <= i < found.len() ==> captured_from(#[trigger] found.deep_view()[i], text@),
{
    let re = Regex::new(pattern)?;
    Ok(
        re.captures_iter(text).map(
            |found|
                (
                    found.name(first).map(|m| m.as_str().to_string()),
                    found.name(second).map(|m| m.as_str().to_string()),
                ),
        ).collect(),
    )
}

/// The names among `names`, without the groups that have none.
pub open spec fn named_groups(names: Seq<Option<Seq<char>>>) -> Set<Seq<char>> {
    Set::new(|name: Seq<char>| names.contains(Some(name)))
}

/// The named groups are `first` and `second`, no more and no fewer.
pub open spec fn declares_exactly(
    names: Seq<Option<Seq<char>>>,
    first: Seq<char>,
    second: Seq<char>,
) -> bool {
    named_groups(names) == set![first, second]
}

/// Whether the named capture groups among `names` are exactly `first` and
/// `second`. Groups without a name do not count, nor does the order.
pub fn has_exact_groups(names: &Vec<Option<String>>, first: &str, second: &str) -> (exact: bool)
    ensures
        exact == declares_exactly(names.deep_view(), first@, second@),
{
    let first_owned = first.to_owned();
    let second_owned = second.to_owned();
    let mut has_first = false;
    let mut has_second = false;
    let ghost view = names.deep_view();
    let mut i: usize = 0;
    while i < names.len()
        invariant
            i <= names.len(),
            view == names.deep_view(),
            first_owned@ == first@,
            second_owned@ == second@,
            has_first == exists|k: int| 0 <= k < i && view[k] == Some(first@),
            has_second == exists|k: int| 0 <= k < i && view[k] == Some(second@),
            forall|k: int|
                0 <= k < i ==> view[k] is None || view[k] == Some(first@) || view[k] == Some(
                    second@,
                ),
        decreases names.len() - i,
    {
        match &names[i] {
            Some(name) => {
                let is_first = *name == first_owned;
                let is_second = *name == second_owned;
                if !is_first && !is_second {
                    proof {
                        assert(named_groups(view).contains(name@));
                    }
                    return false;
                }
                has_first = has_first || is_first;
                has_second = has_second || is_second;
            },
            None => {
                assert(view[i as int] is None);
            },
        }
        i += 1;
    }
    proof {
        if has_first && has_second {
            assert(named_groups(view) =~= set![first@, second@]);
        } else if !has_first {
            assert(!named_groups(view).contains(first@));
        } else {
            assert(!named_groups(view).contains(second@));
        }
    }
    has_first && has_second
}

} // verus!
