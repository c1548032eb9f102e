//! What holds of every control, proved from the definitions of the flags.
use vstd::prelude::*;
use crate::control::ControlView;
use crate::extract;
use crate::pattern::{compiles, search_outcome, whole};
use crate::validitystate::ValidityStates;

verus! {

/// A node that is none of the six form controls is valid, and none of its
/// ten flags is set, whatever its attributes, value and options are.
pub proof fn lemma_other_is_valid(control: ControlView)
    requires
        control.kind() is Other,
    ensures
        control.valid(),
        !control.value_missing(),
        !control.type_mismatch(),
        !control.pattern_mismatch(),
        !control.too_long(),
        !control.too_short(),
        !control.range_underflow(),
        !control.range_overflow(),
        !control.step_mismatch(),
        !control.bad_input(),
        !control.custom_error(),
        forall|which: ValidityStates| control.state(which) == (which is Valid),
{
}

/// A node that is not an element (character data, a document, a document
/// fragment, a document type) is valid, and none of its ten flags is set.
pub proof fn lemma_non_element_is_valid(control: ControlView)
    requires
        !control.node.is_element(),
    ensures
        control.kind() is Other,
        control.valid(),
        forall|which: ValidityStates| control.state(which) == (which is Valid),
{
    lemma_other_is_valid(control);
}

/// A button and an object never miss a value, and no flag of theirs is
/// ever set.
pub proof fn lemma_button_and_object_are_valid(control: ControlView)
    requires
        control.kind() is Button || control.kind() is Object,
    ensures
        control.valid(),
        forall|which: ValidityStates| control.state(which) == (which is Valid),
{
}

/// Without the `required` attribute no value is missing, whatever the kind
/// of the control.
pub proof fn lemma_not_required_not_missing(control: ControlView)
    requires
        !control.has_attribute(extract::REQUIRED@),
    ensures
        !control.value_missing(),
{
}

/// A control without a value can have no flag set but `value_missing`.
pub proof fn lemma_only_value_missing_without_value(control: ControlView)
    requires
        control.value is None,
    ensures
        !control.type_mismatch(),
        !control.pattern_mismatch(),
        !control.too_long(),
        !control.too_short(),
        !control.range_underflow(),
        !control.range_overflow(),
        !control.step_mismatch(),
        control.valid() == !control.value_missing(),
{
}

/// A control with none of the eight attributes that the rules read is
/// valid, whatever its kind and its value.
pub proof fn lemma_no_constraint_no_flag(control: ControlView)
    requires
        !control.has_attribute(extract::REQUIRED@),
        !control.has_attribute(extract::TYPE@),
        !control.has_attribute(extract::PATTERN@),
        !control.has_attribute(extract::MAXLENGTH@),
        !control.has_attribute(extract::MINLENGTH@),
        !control.has_attribute(extract::MIN@),
        !control.has_attribute(extract::MAX@),
        !control.has_attribute(extract::STEP@),
    ensures
        control.valid(),
{
}

/// An attribute that cannot be read counts as one that is not there: a
/// length that writes no number, or a limit or a value that holds none, sets
/// no flag.
pub proof fn lemma_unreadable_constraint_sets_no_flag(control: ControlView)
    ensures
        control.length_limit(extract::MAXLENGTH@) is None ==> !control.too_long(),
        control.length_limit(extract::MINLENGTH@) is None ==> !control.too_short(),
        control.number_limit(extract::MIN@) is None ==> !control.range_underflow(),
        control.number_limit(extract::MAX@) is None ==> !control.range_overflow(),
        control.number_limit(extract::STEP@) is None ==> !control.step_mismatch(),
        control.value_number() is None ==> !control.range_underflow() && !control.range_overflow()
            && !control.step_mismatch(),
{
}

/// The pattern of an input element is held against the whole of the value:
/// the value mismatches exactly when the pattern compiles and, put as a
/// group between the anchors of start and end, finds no match. That a part
/// of the value matches the pattern does not make the value match.
pub proof fn lemma_pattern_takes_the_whole_value(control: ControlView)
    ensures
        control.pattern_mismatch() <==> {
            &&& control.kind().is_input()
            &&& control.attribute(extract::PATTERN@) matches Some(pattern)
            &&& control.value matches Some(value)
            &&& compiles(pattern.content)
            &&& search_outcome(whole(pattern.content), value.content) == Some(false)
        },
{
}

/// A pattern that does not compile mismatches no value.
pub proof fn lemma_malformed_pattern_never_mismatches(control: ControlView)
    requires
        control.attribute(extract::PATTERN@) matches Some(pattern) && !compiles(pattern.content),
    ensures
        !control.pattern_mismatch(),
{
}

/// A select element that is required misses its value exactly when none of
/// its options is at once selected, enabled and of a value that is not
/// empty.
pub proof fn lemma_required_select_needs_a_choice(control: ControlView)
    requires
        control.kind() is Select,
        control.has_attribute(extract::REQUIRED@),
    ensures
        control.value_missing() <==> forall|i: int|
            0 <= i < control.options.len() ==> !({
                let option = #[trigger] control.options[i];
                option.selected && option.enabled && option.value.len() > 0
            }),
{
    if !control.value_missing() {
        let i = choose|i: int| 0 <= i < control.options.len() && (#[trigger] control.options[i]).counts();
        assert(control.options[i].counts());
    }
}

/// Asking again gives the same answer: each of the eleven answers is a
/// function of what the control holds, and of nothing else. Two controls
/// that hold the same give the same answers.
pub proof fn lemma_answers_follow_the_snapshot(
    first: ControlView,
    second: ControlView,
    which: ValidityStates,
)
    requires
        first == second,
    ensures
        first.state(which) == second.state(which),
{
}

/// A control is valid exactly when none of its ten flags is set.
pub proof fn lemma_valid_is_no_flag_set(control: ControlView)
    ensures
        control.valid() == !(control.value_missing() || control.type_mismatch()
            || control.pattern_mismatch() || control.too_long() || control.too_short()
            || control.range_underflow() || control.range_overflow() || control.step_mismatch()
            || control.bad_input() || control.custom_error()),
        control.valid() <==> forall|which: ValidityStates|
            !(which is Valid) ==> !control.state(which),
{
    if control.valid() {
        assert forall|which: ValidityStates| !(which is Valid) implies !control.state(which) by {
        }
    } else {
        if control.value_missing() {
            assert(control.state(ValidityStates::ValueMissing));
        } else if control.type_mismatch() {
            assert(control.state(ValidityStates::TypeMismatch));
        } else if control.pattern_mismatch() {
            assert(control.state(ValidityStates::PatternMismatch));
        } else if control.too_long() {
            assert(control.state(ValidityStates::TooLong));
        } else if control.too_short() {
            assert(control.state(ValidityStates::TooShort));
        } else if control.range_underflow() {
            assert(control.state(ValidityStates::RangeUnderflow));
        } else if control.range_overflow() {
            assert(control.state(ValidityStates::RangeOverflow));
        } else {
            assert(control.state(ValidityStates::StepMismatch));
        }
    }
}

} // verus!
