//! Regular-expression matching, done by the `regex` crate.

use vstd::prelude::*;

verus! {

/// What matching `pattern` against `text` captures in group `group`: nothing
/// where the pattern is not a regular expression; otherwise one entry per
/// non-overlapping match, leftmost first, each the text of the group in that
/// match, or nothing where the group took no part in it.
pub uninterp spec fn regex_group_matches(pattern: Seq<char>, text: Seq<char>, group: int) -> Option<
    Seq<Option<Seq<char>>>,
>;

/// The character sequences held by a list of captures.
pub open spec fn captures_view(found: Option<Vec<Option<String>>>) -> Option<
    Seq<Option<Seq<char>>>,
> {
    match found {
        None => None,
        Some(v) => Some(
            Seq::new(
                v@.len(),
                |i: int|
                    match v@[i] {
                        None => None,
                        Some(s) => Some(s@),
                    },
            ),
        ),
    }
}

/// The character sequence of an optional string.
pub open spec fn text_view(t: Option<String>) -> Option<Seq<char>> {
    match t {
        Some(s) => Some(s@),
        None => None,
    }
}

/// The group's text in the first match, if there is a match and the group
/// took part in it.
pub open spec fn first_capture(found: Option<Seq<Option<Seq<char>>>>) -> Option<Seq<char>> {
    match found {
        Some(v) => if v.len() > 0 {
            v[0]
        } else {
            None
        },
        None => None,
    }
}

/// The group's text in the last match; the empty text where the group took
/// no part in that match.
pub open spec fn last_capture(found: Option<Seq<Option<Seq<char>>>>) -> Option<Seq<char>> {
    match found {
        Some(v) => if v.len() > 0 {
            match v.last() {
                Some(s) => Some(s),
                None => Some(Seq::<char>::empty()),
            }
        } else {
            None
        },
        None => None,
    }
}

/// Compiles `pattern` with `regex::Regex::new` and walks
/// `Regex::captures_iter` over `text`, reading group `group` of every match
/// with `Captures::get`. The contract names the outcome and claims only that
/// it is determined by the three arguments; nothing about which texts match
/// is proved or assumed.
#[verifier::external_body]
pub(crate) fn group_matches(pattern: &str, text: &str, group: usize) -> (r: Option<
    Vec<Option<String>>,
>)
    ensures
        captures_view(r) == regex_group_matches(pattern@, text@, group as int),
{
    match regex::Regex::new(pattern) {
        Err(_) => None,
        Ok(re) => Some(
            re.captures_iter(text).map(|c| c.get(group).map(|m| m.as_str().to_string())).collect(),
        ),
    }
}

/// Picks the first capture out of a list of matches.
pub fn take_first(found: &Option<Vec<Option<String>>>) -> (r: Option<String>)
    ensures
        text_view(r) == first_capture(captures_view(*found)),
{
    match found {
        None => None,
        Some(v) => {
            if v.len() > 0 {
                match &v[0] {
                    Some(s) => Some(s.clone()),
                    None => None,
                }
            } else {
                None
            }
        },
    }
}

/// Picks the last capture out of a list of matches.
pub fn take_last(found: &Option<Vec<Option<String>>>) -> (r: Option<String>)
    ensures
        text_view(r) == last_capture(captures_view(*found)),
{
    match found {
        None => None,
        Some(v) => {
            if v.len() > 0 {
                match &v[v.len() - 1] {
                    Some(s) => Some(s.clone()),
                    None => Some(String::new()),
                }
            } else {
                None
            }
        },
    }
}

} // verus!
