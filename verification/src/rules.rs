//! The ten rules, each as a function of a control's kind and of the
//! constraints read out of it. No rule looks at another rule's answer.
use vstd::prelude::*;
use crate::control::ControlKind;
use crate::number::Number;

verus! {

/// A mandatory value is missing. An input element or a text area misses its
/// value when it has none; a select element, when none of its options makes
/// a choice. Nothing else is ever missing a value.
pub fn value_missing(kind: ControlKind, required: bool, has_value: bool, choice_made: bool) -> (r:
    bool)
    ensures
        r == (required && if kind.holds_text() {
            !has_value
        } else if kind is Select {
            !choice_made
        } else {
            false
        }),
{
    if !required {
        false
    } else if kind.text() {
        !has_value
    } else {
        match kind {
            ControlKind::Select => !choice_made,
            _ => false,
        }
    }
}

/// The value of an input element does not have the form of its type.
/// `conforms` is the outcome of matching the value against that form, and
/// `None` where there was nothing to match or nothing to match against.
pub fn type_mismatch(kind: ControlKind, conforms: Option<bool>) -> (r: bool)
    ensures
        r == (kind.is_input() && conforms == Some(false)),
{
    kind.input() && match conforms {
        Some(found) => !found,
        None => false,
    }
}

/// The value of an input element does not match its pattern. `matches` is
/// the outcome of matching the whole value against the pattern, and `None`
/// where there was no pattern that compiles or no value.
pub fn pattern_mismatch(kind: ControlKind, matches: Option<bool>) -> (r: bool)
    ensures
        r == (kind.is_input() && matches == Some(false)),
{
    kind.input() && match matches {
        Some(found) => !found,
        None => false,
    }
}

/// The value has more characters than the greatest length allows.
pub fn too_long(kind: ControlKind, max_length: Option<usize>, value_length: Option<usize>) -> (r:
    bool)
    ensures
        r == (kind.holds_text() && max_length is Some && value_length is Some
            && value_length->0 > max_length->0),
{
    kind.text() && match (max_length, value_length) {
        (Some(max), Some(length)) => length > max,
        _ => false,
    }
}

/// The value has fewer characters than the least length asks for.
pub fn too_short(kind: ControlKind, min_length: Option<usize>, value_length: Option<usize>) -> (r:
    bool)
    ensures
        r == (kind.holds_text() && min_length is Some && value_length is Some
            && value_length->0 < min_length->0),
{
    kind.text() && match (min_length, value_length) {
        (Some(min), Some(length)) => length < min,
        _ => false,
    }
}

/// The value of an input element is a number less than the least number.
pub fn range_underflow(kind: ControlKind, min: Option<Number>, value: Option<Number>) -> (r: bool)
    ensures
        r == (kind.is_input() && min is Some && value is Some && (value->0).lt(min->0)),
{
    kind.input() && match (min, value) {
        (Some(least), Some(number)) => number.less_than(&least),
        _ => false,
    }
}

/// The value of an input element is a number greater than the greatest
/// number.
pub fn range_overflow(kind: ControlKind, max: Option<Number>, value: Option<Number>) -> (r: bool)
    ensures
        r == (kind.is_input() && max is Some && value is Some && (max->0).lt(value->0)),
{
    kind.input() && match (max, value) {
        (Some(greatest), Some(number)) => number.greater_than(&greatest),
        _ => false,
    }
}

/// The value of an input element is a number that is no whole multiple of
/// the step.
pub fn step_mismatch(kind: ControlKind, step: Option<Number>, value: Option<Number>) -> (r: bool)
    ensures
        r == (kind.is_input() && step is Some && value is Some && !(value->0).multiple_of(step->0)),
{
    kind.input() && match (step, value) {
        (Some(width), Some(number)) => !number.is_multiple_of(&width),
        _ => false,
    }
}

/// The control holds input that it could not turn into a value. No control
/// does: the answer is always `false`.
pub fn bad_input(kind: ControlKind) -> (r: bool)
    ensures
        !r,
{
    false
}

/// A custom error has been set on the control. None can be set: the answer
/// is always `false`.
pub fn custom_error(kind: ControlKind) -> (r: bool)
    ensures
        !r,
{
    false
}

} // verus!
