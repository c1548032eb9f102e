//! Reading constraints out of a control.
//!
//! A constraint is there only if its attribute is there and can be read. An
//! attribute that cannot be read (a length that is no number, a pattern that
//! does not compile) counts as an attribute that is not there: nothing in
//! this module fails.
use vstd::prelude::*;
use vstd::string::*;
use crate::control::{Control, ControlView};
use crate::number::Number;
use crate::pattern::{search, search_outcome, whole_match, whole_match_outcome};
use crate::text::{length_written, parse_length, same_text};

verus! {

/// The attribute that makes a value mandatory.
pub const REQUIRED: &'static str = "required";

/// The attribute that says what an input element takes.
pub const TYPE: &'static str = "type";

/// The attribute that holds a regular expression for the value.
pub const PATTERN: &'static str = "pattern";

/// The attribute that holds the least number of characters.
pub const MINLENGTH: &'static str = "minlength";

/// The attribute that holds the greatest number of characters.
pub const MAXLENGTH: &'static str = "maxlength";

/// The attribute that holds the least number.
pub const MIN: &'static str = "min";

/// The attribute that holds the greatest number.
pub const MAX: &'static str = "max";

/// The attribute that holds the step between allowed numbers.
pub const STEP: &'static str = "step";

/// The input type whose value is an e-mail address.
pub const EMAIL: &'static str = "email";

/// The input type whose value is a URL.
pub const URL: &'static str = "url";

/// The input type whose value is a number.
pub const NUMBER: &'static str = "number";

/// The form of an e-mail address, as a regular expression.
pub const EMAIL_FORMAT: &'static str =
    "^[a-zA-Z0-9.!#$%&'*+/=?^_`{|}~-]+@[a-zA-Z0-9](?:[a-zA-Z0-9-]{0,61}[a-zA-Z0-9])?(?:\\.[a-zA-Z0-9](?:[a-zA-Z0-9-]{0,61}[a-zA-Z0-9])?)*$";

/// The form of a URL, as a regular expression. It is empty: every value has
/// this form.
pub const URL_FORMAT: &'static str = "";

/// The form of a number, as a regular expression. It is empty: every value
/// has this form.
pub const NUMBER_FORMAT: &'static str = "";

/// The regular expression that a value of the given input type has to match,
/// for the three types that have one.
pub open spec fn format_of(input_type: Seq<char>) -> Option<Seq<char>> {
    if input_type == EMAIL@ {
        Some(EMAIL_FORMAT@)
    } else if input_type == URL@ {
        Some(URL_FORMAT@)
    } else if input_type == NUMBER@ {
        Some(NUMBER_FORMAT@)
    } else {
        None
    }
}

/// The regular expression that a value of the given input type has to match.
pub fn format_for(input_type: &str) -> (format: Option<&'static str>)
    ensures
        match format {
            Some(f) => format_of(input_type@) == Some(f@),
            None => format_of(input_type@) is None,
        },
{
    if same_text(input_type, EMAIL) {
        Some(EMAIL_FORMAT)
    } else if same_text(input_type, URL) {
        Some(URL_FORMAT)
    } else if same_text(input_type, NUMBER) {
        Some(NUMBER_FORMAT)
    } else {
        None
    }
}

impl ControlView {
    /// Whether a value is mandatory: the attribute is there, whatever it
    /// holds.
    pub open spec fn required(self) -> bool {
        self.has_attribute(REQUIRED@)
    }

    /// The length that the attribute of the given name holds.
    pub open spec fn length_limit(self, name: Seq<char>) -> Option<usize> {
        match self.attribute(name) {
            Some(text) => length_written(text.content),
            None => None,
        }
    }

    /// The number that the attribute of the given name holds.
    pub open spec fn number_limit(self, name: Seq<char>) -> Option<Number> {
        match self.attribute(name) {
            Some(text) => text.number,
            None => None,
        }
    }

    /// The number of characters of the value.
    pub open spec fn value_length(self) -> Option<nat> {
        match self.value {
            Some(text) => Some(text.content.len()),
            None => None,
        }
    }

    /// The number that the value holds.
    pub open spec fn value_number(self) -> Option<Number> {
        match self.value {
            Some(text) => text.number,
            None => None,
        }
    }

    /// Whether the whole of the value matches the `pattern` attribute:
    /// `None` where there is no such attribute, where it does not compile,
    /// or where there is no value.
    pub open spec fn pattern_found(self) -> Option<bool> {
        match (self.attribute(PATTERN@), self.value) {
            (Some(pattern), Some(value)) => whole_match_outcome(pattern.content, value.content),
            _ => None,
        }
    }

    /// Whether the value has the form that goes with the `type` attribute:
    /// `None` where there is no such attribute, where the type has no form,
    /// where the form does not compile, or where there is no value.
    pub open spec fn format_found(self) -> Option<bool> {
        match (self.attribute(TYPE@), self.value) {
            (Some(input_type), Some(value)) => match format_of(input_type.content) {
                Some(format) => search_outcome(format, value.content),
                None => None,
            },
            _ => None,
        }
    }
}

/// Whether a value is mandatory.
pub fn required(control: &Control) -> (r: bool)
    ensures
        r == control@.required(),
{
    control.has_attribute(REQUIRED)
}

/// The length that the attribute of the given name holds: `None` where the
/// attribute is not there or does not write a length.
pub fn length_limit(control: &Control, name: &str) -> (limit: Option<usize>)
    ensures
        limit == control@.length_limit(name@),
{
    match control.attribute(name) {
        Some(text) => parse_length(text.content.as_str()),
        None => None,
    }
}

/// The number that the attribute of the given name holds: `None` where the
/// attribute is not there or does not write a number.
pub fn number_limit(control: &Control, name: &str) -> (limit: Option<Number>)
    ensures
        limit == control@.number_limit(name@),
{
    match control.attribute(name) {
        Some(text) => text.number,
        None => None,
    }
}

/// The number of characters of the value: `None` where there is no value.
pub fn value_length(control: &Control) -> (length: Option<usize>)
    ensures
        match length {
            Some(n) => control@.value_length() == Some(n as nat),
            None => control@.value_length() is None,
        },
{
    match &control.value {
        Some(text) => Some(text.content.as_str().unicode_len()),
        None => None,
    }
}

/// The number that the value holds: `None` where there is no value or it
/// does not write a number.
pub fn value_number(control: &Control) -> (number: Option<Number>)
    ensures
        number == control@.value_number(),
{
    match &control.value {
        Some(text) => text.number,
        None => None,
    }
}

/// Matches the whole of the value against the `pattern` attribute.
pub fn pattern_found(control: &Control) -> (found: Option<bool>)
    ensures
        found == control@.pattern_found(),
{
    match control.attribute(PATTERN) {
        Some(pattern) => match &control.value {
            Some(value) => whole_match(pattern.content.as_str(), value.content.as_str()),
            None => None,
        },
        None => None,
    }
}

/// Searches the value for a match of the form that goes with the `type`
/// attribute.
pub fn format_found(control: &Control) -> (found: Option<bool>)
    ensures
        found == control@.format_found(),
{
    match control.attribute(TYPE) {
        Some(input_type) => match &control.value {
            Some(value) => match format_for(input_type.content.as_str()) {
                Some(format) => search(format, value.content.as_str()),
                None => None,
            },
            None => None,
        },
        None => None,
    }
}

} // verus!
