//! The validity of a control: ten flags, and whether none of them is set.
use vstd::prelude::*;
use crate::control::{Control, ControlKind, ControlView};
use crate::extract;
use crate::rules;

verus! {

/// The names of the eleven questions that can be asked about a control.
#[derive(Clone, Copy, Debug, PartialEq, Eq, Hash, Structural)]
pub enum ValidityStates {
    ValueMissing,
    TypeMismatch,
    PatternMismatch,
    TooLong,
    TooShort,
    RangeUnderflow,
    RangeOverflow,
    StepMismatch,
    BadInput,
    CustomError,
    Valid,
}

impl ControlView {
    /// A mandatory value is missing: the control has the `required`
    /// attribute, and either it is an input element or a text area without
    /// a value, or it is a select element none of whose options makes a
    /// choice.
    pub open spec fn value_missing(self) -> bool {
        self.required() && match self.kind() {
            ControlKind::TextInput | ControlKind::NumberInput | ControlKind::TextArea =>
                self.value is None,
            ControlKind::Select => !self.choice_made(),
            _ => false,
        }
    }

    /// The control is an input element with a value, its `type` attribute
    /// names a type that has a form, and the value does not have that form.
    pub open spec fn type_mismatch(self) -> bool {
        self.kind().is_input() && self.format_found() == Some(false)
    }

    /// The control is an input element with a value, its `pattern`
    /// attribute compiles, and the value as a whole does not match the
    /// pattern. A match of a part of the value is no match.
    pub open spec fn pattern_mismatch(self) -> bool {
        self.kind().is_input() && self.pattern_found() == Some(false)
    }

    /// The control is an input element or a text area with a value, its
    /// `maxlength` attribute writes a length, and the value has more
    /// characters than that.
    pub open spec fn too_long(self) -> bool {
        &&& self.kind().holds_text()
        &&& self.length_limit(extract::MAXLENGTH@) matches Some(max)
        &&& self.value_length() matches Some(length)
        &&& length > max
    }

    /// The control is an input element or a text area with a value, its
    /// `minlength` attribute writes a length, and the value has fewer
    /// characters than that.
    pub open spec fn too_short(self) -> bool {
        &&& self.kind().holds_text()
        &&& self.length_limit(extract::MINLENGTH@) matches Some(min)
        &&& self.value_length() matches Some(length)
        &&& length < min
    }

    /// The control is an input element, its `min` attribute and its value
    /// both write a number, and the value's number is the lesser.
    pub open spec fn range_underflow(self) -> bool {
        &&& self.kind().is_input()
        &&& self.number_limit(extract::MIN@) matches Some(min)
        &&& self.value_number() matches Some(number)
        &&& number.lt(min)
    }

    /// The control is an input element, its `max` attribute and its value
    /// both write a number, and the value's number is the greater.
    pub open spec fn range_overflow(self) -> bool {
        &&& self.kind().is_input()
        &&& self.number_limit(extract::MAX@) matches Some(max)
        &&& self.value_number() matches Some(number)
        &&& max.lt(number)
    }

    /// The control is an input element, its `step` attribute and its value
    /// both write a number, and the value's number is no whole multiple of
    /// the step.
    pub open spec fn step_mismatch(self) -> bool {
        &&& self.kind().is_input()
        &&& self.number_limit(extract::STEP@) matches Some(step)
        &&& self.value_number() matches Some(number)
        &&& !number.multiple_of(step)
    }

    /// Never set.
    pub open spec fn bad_input(self) -> bool {
        false
    }

    /// Never set.
    pub open spec fn custom_error(self) -> bool {
        false
    }

    /// None of the ten flags is set.
    pub open spec fn valid(self) -> bool {
        !(self.value_missing() || self.type_mismatch() || self.pattern_mismatch()
            || self.too_long() || self.too_short() || self.range_underflow()
            || self.range_overflow() || self.step_mismatch() || self.bad_input()
            || self.custom_error())
    }

    /// The answer to the question of the given name.
    pub open spec fn state(self, which: ValidityStates) -> bool {
        match which {
            ValidityStates::ValueMissing => self.value_missing(),
            ValidityStates::TypeMismatch => self.type_mismatch(),
            ValidityStates::PatternMismatch => self.pattern_mismatch(),
            ValidityStates::TooLong => self.too_long(),
            ValidityStates::TooShort => self.too_short(),
            ValidityStates::RangeUnderflow => self.range_underflow(),
            ValidityStates::RangeOverflow => self.range_overflow(),
            ValidityStates::StepMismatch => self.step_mismatch(),
            ValidityStates::BadInput => self.bad_input(),
            ValidityStates::CustomError => self.custom_error(),
            ValidityStates::Valid => self.valid(),
        }
    }
}

/// The validity of one control. It holds no answers: each question is
/// answered from the control as it is when asked.
#[derive(Clone, Copy, Debug)]
pub struct ValidityState<'a> {
    element: &'a Control,
}

impl<'a> View for ValidityState<'a> {
    type V = ControlView;

    closed spec fn view(&self) -> ControlView {
        self.element@
    }
}

impl<'a> ValidityState<'a> {
    /// The validity of the given control.
    pub fn new(element: &'a Control) -> (state: ValidityState<'a>)
        ensures
            state@ == element@,
    {
        ValidityState { element }
    }

    /// The control that the answers are about.
    pub fn element(&self) -> (element: &'a Control)
        ensures
            element@ == self@,
    {
        self.element
    }

    /// Whether a mandatory value is missing.
    pub fn value_missing(&self) -> (r: bool)
        ensures
            r == self@.value_missing(),
    {
        let kind = self.element.classify();
        rules::value_missing(
            kind,
            extract::required(self.element),
            self.element.value.is_some(),
            self.element.choice_made(),
        )
    }

    /// Whether the value does not have the form of the control's type.
    pub fn type_mismatch(&self) -> (r: bool)
        ensures
            r == self@.type_mismatch(),
    {
        let kind = self.element.classify();
        if !kind.input() {
            return false;
        }
        rules::type_mismatch(kind, extract::format_found(self.element))
    }

    /// Whether the value does not match the control's pattern.
    pub fn pattern_mismatch(&self) -> (r: bool)
        ensures
            r == self@.pattern_mismatch(),
    {
        let kind = self.element.classify();
        if !kind.input() {
            return false;
        }
        rules::pattern_mismatch(kind, extract::pattern_found(self.element))
    }

    /// Whether the value is longer than the control allows.
    pub fn too_long(&self) -> (r: bool)
        ensures
            r == self@.too_long(),
    {
        rules::too_long(
            self.element.classify(),
            extract::length_limit(self.element, extract::MAXLENGTH),
            extract::value_length(self.element),
        )
    }

    /// Whether the value is shorter than the control asks for.
    pub fn too_short(&self) -> (r: bool)
        ensures
            r == self@.too_short(),
    {
        rules::too_short(
            self.element.classify(),
            extract::length_limit(self.element, extract::MINLENGTH),
            extract::value_length(self.element),
        )
    }

    /// Whether the value is a number below the control's least.
    pub fn range_underflow(&self) -> (r: bool)
        ensures
            r == self@.range_underflow(),
    {
        rules::range_underflow(
            self.element.classify(),
            extract::number_limit(self.element, extract::MIN),
            extract::value_number(self.element),
        )
    }

    /// Whether the value is a number above the control's greatest.
    pub fn range_overflow(&self) -> (r: bool)
        ensures
            r == self@.range_overflow(),
    {
        rules::range_overflow(
            self.element.classify(),
            extract::number_limit(self.element, extract::MAX),
            extract::value_number(self.element),
        )
    }

    /// Whether the value is a number off the control's steps.
    pub fn step_mismatch(&self) -> (r: bool)
        ensures
            r == self@.step_mismatch(),
    {
        rules::step_mismatch(
            self.element.classify(),
            extract::number_limit(self.element, extract::STEP),
            extract::value_number(self.element),
        )
    }

    /// Whether the control holds input that it could not turn into a value.
    pub fn bad_input(&self) -> (r: bool)
        ensures
            r == self@.bad_input(),
    {
        rules::bad_input(self.element.classify())
    }

    /// Whether a custom error has been set on the control.
    pub fn custom_error(&self) -> (r: bool)
        ensures
            r == self@.custom_error(),
    {
        rules::custom_error(self.element.classify())
    }

    /// Whether none of the ten flags is set.
    pub fn valid(&self) -> (r: bool)
        ensures
            r == self@.valid(),
            r == !(self@.value_missing() || self@.type_mismatch() || self@.pattern_mismatch()
                || self@.too_long() || self@.too_short() || self@.range_underflow()
                || self@.range_overflow() || self@.step_mismatch() || self@.bad_input()
                || self@.custom_error()),
    {
        !(self.value_missing() || self.type_mismatch() || self.pattern_mismatch()
            || self.too_long() || self.too_short() || self.range_underflow()
            || self.range_overflow() || self.step_mismatch() || self.bad_input()
            || self.custom_error())
    }

    /// The answer to the question of the given name.
    pub fn state(&self, which: ValidityStates) -> (r: bool)
        ensures
            r == self@.state(which),
    {
        match which {
            ValidityStates::ValueMissing => self.value_missing(),
            ValidityStates::TypeMismatch => self.type_mismatch(),
            ValidityStates::PatternMismatch => self.pattern_mismatch(),
            ValidityStates::TooLong => self.too_long(),
            ValidityStates::TooShort => self.too_short(),
            ValidityStates::RangeUnderflow => self.range_underflow(),
            ValidityStates::RangeOverflow => self.range_overflow(),
            ValidityStates::StepMismatch => self.step_mismatch(),
            ValidityStates::BadInput => self.bad_input(),
            ValidityStates::CustomError => self.custom_error(),
            ValidityStates::Valid => self.valid(),
        }
    }
}

} // verus!
