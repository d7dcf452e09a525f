//! Reading the device state out of the XML that devices send.

use vstd::prelude::*;
use crate::error::WemoError;
use crate::pattern::{first_capture, group_matches, regex_group_matches, take_first, text_view};
use crate::state::{state_of_code, WemoState};
use crate::text::{
    bounded_decimal, chars_of, fields_view, lemma_split_nonempty, parse_decimal, split,
    split_fields,
};

verus! {

/// The regular expression that finds the state in an event body: one digit,
/// then any number of further fields, each led by a vertical bar.
pub open spec fn state_pattern() -> Seq<char> {
    "<BinaryState>(\\d)(\\|\\d+)*</BinaryState>"@
}

/// The state written by the content of a `BinaryState` element. Only the
/// field before the first vertical bar counts; it has to be a decimal number
/// in `0..=65535`.
pub open spec fn state_of_text(text: Seq<char>) -> Option<WemoState> {
    match bounded_decimal(split(text, '|')[0], 65535) {
        Some(n) => state_of_code(n as int),
        None => None,
    }
}

/// The outcome of reading a state: the state, or a parsing failure.
pub open spec fn state_or_parsing_error(state: Option<WemoState>) -> Result<
    WemoState,
    WemoError,
> {
    match state {
        Some(s) => Ok(s),
        None => Err(WemoError::ParsingError),
    }
}

/// The outcome of reading the state out of a captured element content.
pub open spec fn state_of_capture(capture: Option<Seq<char>>) -> Result<WemoState, WemoError> {
    match capture {
        Some(text) => state_or_parsing_error(state_of_text(text)),
        None => Err(WemoError::ParsingError),
    }
}

/// Reads the state written by the content of a `BinaryState` element.
/// Trailing fields after a vertical bar are ignored. Fails with
/// `ParsingError` unless the leading field is a number in `0..=65535`.
pub fn state_from_text(text: &str) -> (r: Result<WemoState, WemoError>)
    ensures
        r == state_or_parsing_error(state_of_text(text@)),
{
    let chars: Vec<char> = chars_of(text);
    let fields: Vec<Vec<char>> = split_fields(&chars, '|');
    proof {
        lemma_split_nonempty(chars@, '|');
        assert(fields_view(fields@)[0] == fields@[0]@);
    }
    match parse_decimal(&fields[0], 65535) {
        None => Err(WemoError::ParsingError),
        Some(code) => match WemoState::from_u64(code as u64) {
            Some(state) => Ok(state),
            None => Err(WemoError::ParsingError),
        },
    }
}

/// Reads the state out of what the state pattern captured in an event body.
pub fn state_from_capture(capture: &Option<String>) -> (r: Result<WemoState, WemoError>)
    ensures
        r == state_of_capture(text_view(*capture)),
{
    match capture {
        Some(text) => state_from_text(text.as_str()),
        None => Err(WemoError::ParsingError),
    }
}

/// Parses the device state from the XML of a subscription event.
pub fn parse_state(xml: &str) -> (r: Result<WemoState, WemoError>)
    ensures
        r == state_of_capture(first_capture(regex_group_matches(state_pattern(), xml@, 1))),
{
    let found: Option<Vec<Option<String>>> = group_matches(
        "<BinaryState>(\\d)(\\|\\d+)*</BinaryState>",
        xml,
        1,
    );
    let capture: Option<String> = take_first(&found);
    state_from_capture(&capture)
}

} // verus!
