//! Regular-expression matching, done by the `regex` crate.
//!
//! Each pattern is compiled with `regex::Regex::new` at the call; what a
//! compiled pattern finds in a text is named here and not restated, since
//! the crate's matching semantics (Unicode classes, word boundaries,
//! leftmost-first choice) take pages to state. The names are functions of
//! the pattern and the text alone.
use vstd::prelude::*;

use crate::embed::opt_view;
use crate::text::contains;

verus! {

/// Whether `pattern` compiles and matches somewhere in `haystack`.
pub uninterp spec fn regex_matches(pattern: Seq<char>, haystack: Seq<char>) -> bool;

/// The text of the leftmost-first match of `pattern` in `haystack`.
pub uninterp spec fn regex_first_match(pattern: Seq<char>, haystack: Seq<char>) -> Option<Seq<char>>;

/// The captures of every match of `pattern` in `haystack`, in order: for
/// each match, the text of each group (group 0 being the whole match), or
/// nothing where that group takes no part in the match.
pub uninterp spec fn regex_all_captures(pattern: Seq<char>, haystack: Seq<char>) -> Seq<Seq<Option<Seq<char>>>>;

/// The number of groups (the whole match included) that take part in every
/// match of `pattern`, when that number does not vary.
pub uninterp spec fn regex_static_captures_len(pattern: Seq<char>) -> Option<usize>;

/// `Regex::new(pattern)` then `Regex::is_match(haystack)`; a pattern that
/// does not compile matches nothing. The result is the named
/// [`regex_matches`]; nothing more is claimed of it.
#[verifier::external_body]
pub(crate) fn regex_is_match(pattern: &str, haystack: &str) -> (r: bool)
    ensures
        r == regex_matches(pattern@, haystack@),
{
    match regex::Regex::new(pattern) {
        Ok(re) => re.is_match(haystack),
        Err(_) => false,
    }
}

/// `Regex::new(pattern)` then `Regex::find(haystack)`, the matched text
/// copied out. The result is the named [`regex_first_match`]; beyond that it
/// is claimed only that a match is a piece of the haystack, as
/// `Match::as_str` documents.
#[verifier::external_body]
pub(crate) fn regex_find(pattern: &str, haystack: &str) -> (r: Option<String>)
    ensures
        r matches Some(m) ==> regex_first_match(pattern@, haystack@) == Some(m@) && contains(
            haystack@,
            m@,
        ),
        r is None ==> regex_first_match(pattern@, haystack@) is None,
{
    match regex::Regex::new(pattern) {
        Ok(re) => re.find(haystack).map(|m| m.as_str().to_string()),
        Err(_) => None,
    }
}

/// The views of the captures of a list of matches.
pub open spec fn captures_view(rows: Seq<Vec<Option<String>>>) -> Seq<Seq<Option<Seq<char>>>> {
    rows.map_values(|row: Vec<Option<String>>| row@.map_values(|c: Option<String>| opt_view(c)))
}

/// `Regex::new(pattern)` then `Regex::captures_iter(haystack)`, each match's
/// groups (`Captures::iter`) copied out one for one; a pattern that does not
/// compile matches nothing. The result is the named [`regex_all_captures`];
/// beyond that it is claimed, as `Captures::iter` and `Match::as_str`
/// document, that every match has its whole-match group first and that
/// each captured text is a piece of the haystack.
#[verifier::external_body]
pub(crate) fn regex_captures(pattern: &str, haystack: &str) -> (r: Vec<Vec<Option<String>>>)
    ensures
        captures_view(r@) == regex_all_captures(pattern@, haystack@),
        forall|i: int| 0 <= i < r@.len() ==> r@[i]@.len() >= 1 && (#[trigger] r@[i])@[0] is Some,
        forall|i: int, j: int|
            0 <= i < r@.len() && 0 <= j < r@[i]@.len() && (#[trigger] r@[i]@[j]) is Some ==> contains(
                haystack@,
                r@[i]@[j]->0@,
            ),
{
    match regex::Regex::new(pattern) {
        Ok(re) => re.captures_iter(haystack).map(
            |c| c.iter().map(|m| m.map(|m| m.as_str().to_string())).collect(),
        ).collect(),
        Err(_) => Vec::new(),
    }
}

/// `Regex::new(pattern)` then `Regex::static_captures_len`; a pattern that
/// does not compile gives `None`. The result is the named
/// [`regex_static_captures_len`]; nothing more is claimed of it.
#[verifier::external_body]
pub(crate) fn regex_static_group_count(pattern: &str) -> (r: Option<usize>)
    ensures
        r == regex_static_captures_len(pattern@),
{
    match regex::Regex::new(pattern) {
        Ok(re) => re.static_captures_len(),
        Err(_) => None,
    }
}

/// Going through the matches in order, the text of group `group` in the
/// first match in which that group takes part.
pub open spec fn first_group_capture(rows: Seq<Seq<Option<Seq<char>>>>, group: int) -> Option<Seq<char>>
    decreases rows.len(),
{
    if rows.len() == 0 {
        None
    } else if 0 <= group < rows[0].len() && rows[0][group] is Some {
        rows[0][group]
    } else {
        first_group_capture(rows.drop_first(), group)
    }
}

/// Match `row` has group `group`.
pub open spec fn has_group(row: Seq<Option<Seq<char>>>, group: int) -> bool {
    0 <= group < row.len() && row[group] is Some
}

/// The capture taken is that of the earliest match that has the group: a
/// capture is found exactly when some match has the group, and then it is
/// the group's text in a match `i` such that no match before `i` has it.
pub proof fn law_capture_from_earliest_match(rows: Seq<Seq<Option<Seq<char>>>>, group: int)
    ensures
        first_group_capture(rows, group) is None <==> forall|i: int|
            0 <= i < rows.len() ==> !has_group(#[trigger] rows[i], group),
        first_group_capture(rows, group) is Some ==> exists|i: int|
            0 <= i < rows.len() && has_group(#[trigger] rows[i], group) && first_group_capture(rows, group)
                == rows[i][group] && forall|j: int| 0 <= j < i ==> !has_group(#[trigger] rows[j], group),
    decreases rows.len(),
{
    if rows.len() > 0 {
        let rest = rows.drop_first();
        law_capture_from_earliest_match(rest, group);
        assert forall|i: int| 0 < i < rows.len() implies rows[i] == rest[i - 1] by {}
        if has_group(rows[0], group) {
            assert(has_group(rows[0], group));
        } else if first_group_capture(rest, group) is Some {
            let k = choose|k: int|
                0 <= k < rest.len() && has_group(#[trigger] rest[k], group) && first_group_capture(rest, group)
                    == rest[k][group] && forall|j: int| 0 <= j < k ==> !has_group(#[trigger] rest[j], group);
            assert(rows[k + 1] == rest[k]);
            assert forall|j: int| 0 <= j < k + 1 implies !has_group(#[trigger] rows[j], group) by {
                if j > 0 {
                    assert(rows[j] == rest[j - 1]);
                }
            }
        } else {
            assert forall|i: int| 0 <= i < rows.len() implies !has_group(#[trigger] rows[i], group) by {
                if i > 0 {
                    assert(rows[i] == rest[i - 1]);
                }
            }
        }
    }
}

/// The text of capture group `group` of `pattern` in the first match of it
/// in `haystack` in which that group takes part; a piece of the haystack.
pub fn group_capture(pattern: &str, haystack: &str, group: usize) -> (r: Option<String>)
    ensures
        opt_view(r) == first_group_capture(regex_all_captures(pattern@, haystack@), group as int),
        r matches Some(m) ==> contains(haystack@, m@),
{
    let rows = regex_captures(pattern, haystack);
    let ghost all = captures_view(rows@);
    let mut i: usize = 0;
    assert(all.skip(0) =~= all);
    while i < rows.len()
        invariant
            i <= rows.len(),
            all == captures_view(rows@),
            all == regex_all_captures(pattern@, haystack@),
            first_group_capture(all, group as int) == first_group_capture(all.skip(i as int), group as int),
            forall|k: int, j: int|
                0 <= k < rows@.len() && 0 <= j < rows@[k]@.len() && (#[trigger] rows@[k]@[j]) is Some
                    ==> contains(haystack@, rows@[k]@[j]->0@),
        decreases rows.len() - i,
    {
        let ghost rest = all.skip(i as int);
        assert(rest[0] == rows@[i as int]@.map_values(|c: Option<String>| opt_view(c)));
        if group < rows[i].len() {
            match &rows[i][group] {
                Some(m) => {
                    assert(rows@[i as int]@[group as int] is Some);
                    return Some(m.clone());
                },
                None => {},
            }
        }
        assert(rest.drop_first() =~= all.skip(i + 1));
        i += 1;
    }
    None
}

} // verus!
