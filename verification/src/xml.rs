//! Reading the text between a pair of tags.

use vstd::prelude::*;
use vstd::string::*;
use crate::pattern::{first_capture, group_matches, regex_group_matches, take_first, text_view};

verus! {

/// The regular expression that finds `tag`: an opening tag, anything on the
/// same line, a closing tag; letter case is ignored.
pub open spec fn tag_pattern(tag: Seq<char>) -> Seq<char> {
    "(?im:<"@ + tag + ">(.*)</"@ + tag + ">)"@
}

/// The text between the first pair of `tag` tags in `xml`.
pub open spec fn tag_value(tag: Seq<char>, xml: Seq<char>) -> Option<Seq<char>> {
    first_capture(regex_group_matches(tag_pattern(tag), xml, 1))
}

/// Builds the regular expression that finds `tag_name`.
pub fn build_tag_pattern(tag_name: &str) -> (r: String)
    ensures
        r@ == tag_pattern(tag_name@),
{
    let mut pattern: String = "(?im:<".to_owned();
    pattern.append(tag_name);
    pattern.append(">(.*)</");
    pattern.append(tag_name);
    pattern.append(">)");
    pattern
}

/// Extracts the text between the first `<tag_name>` and `</tag_name>` that
/// stand on one line of `xml`. Gives nothing where no such pair exists, or
/// where the tag name does not make a regular expression.
pub fn find_tag_value(tag_name: &str, xml: &str) -> (r: Option<String>)
    ensures
        text_view(r) == tag_value(tag_name@, xml@),
{
    let pattern: String = build_tag_pattern(tag_name);
    let found: Option<Vec<Option<String>>> = group_matches(pattern.as_str(), xml, 1);
    take_first(&found)
}

} // verus!
