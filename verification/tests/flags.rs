use form_validity::control::{Attribute, ChoiceOption, Control, NodeType, Text};
use form_validity::number::Number;
use form_validity::validitystate::{ValidityState, ValidityStates};

fn text(s: &str) -> Text {
    let number = s.parse::<f32>().ok().map(|x| Number::from_bits(x.to_bits()));
    Text { content: s.to_string(), number }
}

fn attribute(name: &str, value: &str) -> Attribute {
    Attribute { name: name.to_string(), value: text(value) }
}

fn control(node: NodeType, attributes: &[(&str, &str)], value: Option<&str>) -> Control {
    Control {
        node,
        attributes: attributes.iter().map(|(n, v)| attribute(n, v)).collect(),
        value: value.map(text),
        options: Vec::new(),
    }
}

fn select(attributes: &[(&str, &str)], options: &[(bool, bool, &str)]) -> Control {
    Control {
        node: NodeType::Select,
        attributes: attributes.iter().map(|(n, v)| attribute(n, v)).collect(),
        value: None,
        options: options
            .iter()
            .map(|(selected, enabled, value)| ChoiceOption {
                selected: *selected,
                enabled: *enabled,
                value: value.to_string(),
            })
            .collect(),
    }
}

fn ten() -> [ValidityStates; 10] {
    [
        ValidityStates::ValueMissing,
        ValidityStates::TypeMismatch,
        ValidityStates::PatternMismatch,
        ValidityStates::TooLong,
        ValidityStates::TooShort,
        ValidityStates::RangeUnderflow,
        ValidityStates::RangeOverflow,
        ValidityStates::StepMismatch,
        ValidityStates::BadInput,
        ValidityStates::CustomError,
    ]
}

fn every_node() -> [NodeType; 11] {
    [
        NodeType::TextInput,
        NodeType::NumberInput,
        NodeType::Button,
        NodeType::Object,
        NodeType::Select,
        NodeType::TextArea,
        NodeType::OtherElement,
        NodeType::CharacterData,
        NodeType::Document,
        NodeType::DocumentFragment,
        NodeType::DocumentType,
    ]
}

fn loaded() -> Vec<(&'static str, &'static str)> {
    vec![
        ("required", ""),
        ("type", "email"),
        ("pattern", "^[0-9]+$"),
        ("maxlength", "1"),
        ("minlength", "9"),
        ("min", "100"),
        ("max", "1"),
        ("step", "7"),
    ]
}

#[test]
fn other_nodes_are_valid_with_no_flag_set() {
    let nodes = [
        NodeType::OtherElement,
        NodeType::CharacterData,
        NodeType::Document,
        NodeType::DocumentFragment,
        NodeType::DocumentType,
    ];
    for node in nodes {
        for value in [None, Some(""), Some("abc"), Some("50")] {
            let c = control(node, &loaded(), value);
            let state = ValidityState::new(&c);
            assert!(state.valid(), "{node:?} {value:?}");
            for which in ten() {
                assert!(!state.state(which), "{node:?} {value:?} {which:?}");
            }
            assert!(!state.value_missing());
            assert!(!state.type_mismatch());
            assert!(!state.pattern_mismatch());
            assert!(!state.too_long());
            assert!(!state.too_short());
            assert!(!state.range_underflow());
            assert!(!state.range_overflow());
            assert!(!state.step_mismatch());
            assert!(!state.bad_input());
            assert!(!state.custom_error());
        }
    }
}

#[test]
fn buttons_and_objects_are_valid_with_no_flag_set() {
    for node in [NodeType::Button, NodeType::Object] {
        for value in [None, Some("abc"), Some("50")] {
            let c = control(node, &loaded(), value);
            let state = ValidityState::new(&c);
            assert!(state.valid());
            for which in ten() {
                assert!(!state.state(which), "{node:?} {value:?} {which:?}");
            }
        }
    }
}

#[test]
fn value_missing_of_a_text_input() {
    let c = control(NodeType::TextInput, &[("required", "")], None);
    assert!(ValidityState::new(&c).value_missing());
    assert!(!ValidityState::new(&c).valid());

    let c = control(NodeType::TextInput, &[("required", "")], Some("x"));
    assert!(!ValidityState::new(&c).value_missing());

    let c = control(NodeType::TextInput, &[], None);
    assert!(!ValidityState::new(&c).value_missing());
    assert!(ValidityState::new(&c).valid());
}

#[test]
fn value_missing_looks_at_presence_only() {
    let c = control(NodeType::TextInput, &[("required", "false")], None);
    assert!(ValidityState::new(&c).value_missing());
    let c = control(NodeType::TextInput, &[("required", "required")], None);
    assert!(ValidityState::new(&c).value_missing());
    let c = control(NodeType::TextInput, &[("Required", "")], None);
    assert!(!ValidityState::new(&c).value_missing());
    let c = control(NodeType::TextInput, &[("required", "")], Some(""));
    assert!(!ValidityState::new(&c).value_missing());
}

#[test]
fn value_missing_of_the_other_kinds() {
    let c = control(NodeType::TextArea, &[("required", "")], None);
    assert!(ValidityState::new(&c).value_missing());
    let c = control(NodeType::TextArea, &[("required", "")], Some("text"));
    assert!(!ValidityState::new(&c).value_missing());
    let c = control(NodeType::TextArea, &[], None);
    assert!(!ValidityState::new(&c).value_missing());
    let c = control(NodeType::NumberInput, &[("required", "")], None);
    assert!(ValidityState::new(&c).value_missing());
    let c = control(NodeType::Button, &[("required", "")], None);
    assert!(!ValidityState::new(&c).value_missing());
    let c = control(NodeType::Object, &[("required", "")], None);
    assert!(!ValidityState::new(&c).value_missing());
}

#[test]
fn value_missing_of_a_select() {
    let required = [("required", "")];
    assert!(ValidityState::new(&select(&required, &[])).value_missing());
    assert!(ValidityState::new(&select(&required, &[(false, true, "a")])).value_missing());
    assert!(ValidityState::new(&select(&required, &[(true, false, "a")])).value_missing());
    assert!(ValidityState::new(&select(&required, &[(true, true, "")])).value_missing());
    assert!(ValidityState::new(&select(
        &required,
        &[(false, true, "a"), (true, false, "b"), (true, true, "")]
    ))
    .value_missing());

    assert!(!ValidityState::new(&select(&required, &[(true, true, "a")])).value_missing());
    assert!(!ValidityState::new(&select(
        &required,
        &[(false, true, "a"), (true, true, "b"), (false, false, "")]
    ))
    .value_missing());
    assert!(!ValidityState::new(&select(
        &required,
        &[(true, true, ""), (true, false, "x"), (true, true, "last")]
    ))
    .value_missing());

    assert!(!ValidityState::new(&select(&[], &[])).value_missing());
    assert!(!ValidityState::new(&select(&[], &[(false, true, "a")])).value_missing());
}

#[test]
fn a_select_has_no_other_flag() {
    let mut c = select(&loaded(), &[(true, true, "a")]);
    c.value = Some(text("abc"));
    let state = ValidityState::new(&c);
    assert!(state.valid());
    for which in ten() {
        assert!(!state.state(which), "{which:?}");
    }
}

#[test]
fn pattern_mismatch_of_a_text_input() {
    let c = control(NodeType::TextInput, &[("pattern", "^[0-9]+$")], Some("42"));
    assert!(!ValidityState::new(&c).pattern_mismatch());
    let c = control(NodeType::TextInput, &[("pattern", "^[0-9]+$")], Some("4a"));
    assert!(ValidityState::new(&c).pattern_mismatch());
    assert!(!ValidityState::new(&c).valid());
}

#[test]
fn a_malformed_pattern_mismatches_nothing() {
    for pattern in ["[0-9", "(", "a)", "*", "a{2,1}", "\\"] {
        for value in [None, Some(""), Some("42"), Some("4a"), Some("[0-9")] {
            let c = control(NodeType::TextInput, &[("pattern", pattern)], value);
            assert!(!ValidityState::new(&c).pattern_mismatch(), "{pattern:?} {value:?}");
            assert!(ValidityState::new(&c).valid(), "{pattern:?} {value:?}");
        }
    }
}

#[test]
fn pattern_mismatch_needs_a_pattern_and_a_value() {
    let c = control(NodeType::TextInput, &[("pattern", "^[0-9]+$")], None);
    assert!(!ValidityState::new(&c).pattern_mismatch());
    let c = control(NodeType::TextInput, &[], Some("4a"));
    assert!(!ValidityState::new(&c).pattern_mismatch());
    let c = control(NodeType::TextInput, &[("pattern", "^[0-9]+$")], Some(""));
    assert!(ValidityState::new(&c).pattern_mismatch());
    let c = control(NodeType::TextInput, &[("pattern", "")], Some("anything"));
    assert!(ValidityState::new(&c).pattern_mismatch());
    let c = control(NodeType::TextInput, &[("pattern", "")], Some(""));
    assert!(!ValidityState::new(&c).pattern_mismatch());
}

#[test]
fn a_pattern_has_to_match_the_whole_value() {
    let c = control(NodeType::TextInput, &[("pattern", "[0-9]+")], Some("a1b"));
    assert!(ValidityState::new(&c).pattern_mismatch());
    assert!(!ValidityState::new(&c).valid());
    let c = control(NodeType::TextInput, &[("pattern", "[0-9]+")], Some("ab42cd"));
    assert!(ValidityState::new(&c).pattern_mismatch());
    let c = control(NodeType::TextInput, &[("pattern", "[0-9]+")], Some("42cd"));
    assert!(ValidityState::new(&c).pattern_mismatch());
    let c = control(NodeType::TextInput, &[("pattern", "[0-9]+")], Some("ab42"));
    assert!(ValidityState::new(&c).pattern_mismatch());
    let c = control(NodeType::TextInput, &[("pattern", "[0-9]+")], Some("abcd"));
    assert!(ValidityState::new(&c).pattern_mismatch());
    let c = control(NodeType::TextInput, &[("pattern", "[0-9]+")], Some("42"));
    assert!(!ValidityState::new(&c).pattern_mismatch());
    assert!(ValidityState::new(&c).valid());
}

#[test]
fn every_branch_of_a_pattern_has_to_match_the_whole_value() {
    for (value, mismatch) in [("a", false), ("b", false), ("ab", true), ("xb", true), ("ax", true)] {
        let c = control(NodeType::TextInput, &[("pattern", "a|b")], Some(value));
        assert_eq!(ValidityState::new(&c).pattern_mismatch(), mismatch, "{value:?}");
    }
}

#[test]
fn a_malformed_pattern_is_not_mended_by_the_anchors() {
    for pattern in [")(?:", "a)|(?:b", ")|("] {
        for value in [None, Some(""), Some("a"), Some("b"), Some("42")] {
            let c = control(NodeType::TextInput, &[("pattern", pattern)], value);
            assert!(!ValidityState::new(&c).pattern_mismatch(), "{pattern:?} {value:?}");
            assert!(ValidityState::new(&c).valid(), "{pattern:?} {value:?}");
        }
    }
}

#[test]
fn pattern_mismatch_is_for_input_elements() {
    let c = control(NodeType::NumberInput, &[("pattern", "^[0-9]+$")], Some("4a"));
    assert!(ValidityState::new(&c).pattern_mismatch());
    for node in [NodeType::TextArea, NodeType::Select, NodeType::Button, NodeType::Object] {
        let c = control(node, &[("pattern", "^[0-9]+$")], Some("4a"));
        assert!(!ValidityState::new(&c).pattern_mismatch(), "{node:?}");
    }
}

#[test]
fn too_long_of_a_text_input() {
    let c = control(NodeType::TextInput, &[("maxlength", "3")], Some("abcd"));
    assert!(ValidityState::new(&c).too_long());
    assert!(!ValidityState::new(&c).valid());
    let c = control(NodeType::TextInput, &[("maxlength", "3")], Some("abc"));
    assert!(!ValidityState::new(&c).too_long());
    assert!(ValidityState::new(&c).valid());
}

#[test]
fn too_long_counts_characters() {
    let c = control(NodeType::TextInput, &[("maxlength", "3")], Some("äöü"));
    assert!(!ValidityState::new(&c).too_long());
    let c = control(NodeType::TextInput, &[("maxlength", "3")], Some("äöüß"));
    assert!(ValidityState::new(&c).too_long());
    let c = control(NodeType::TextInput, &[("maxlength", "0")], Some(""));
    assert!(!ValidityState::new(&c).too_long());
    let c = control(NodeType::TextInput, &[("maxlength", "0")], Some("a"));
    assert!(ValidityState::new(&c).too_long());
}

#[test]
fn too_long_needs_a_length_and_a_value() {
    let c = control(NodeType::TextInput, &[("maxlength", "3")], None);
    assert!(!ValidityState::new(&c).too_long());
    let c = control(NodeType::TextArea, &[("maxlength", "3")], None);
    assert!(!ValidityState::new(&c).too_long());
    let c = control(NodeType::TextInput, &[], Some("abcd"));
    assert!(!ValidityState::new(&c).too_long());
    for malformed in ["", "three", "-1", "3.0", " 3", "3 "] {
        let c = control(NodeType::TextInput, &[("maxlength", malformed)], Some("abcd"));
        assert!(!ValidityState::new(&c).too_long(), "{malformed:?}");
    }
    let c = control(NodeType::TextInput, &[("maxlength", "+3")], Some("abcd"));
    assert!(ValidityState::new(&c).too_long());
}

#[test]
fn too_long_is_for_text() {
    for node in [NodeType::TextInput, NodeType::NumberInput, NodeType::TextArea] {
        let c = control(node, &[("maxlength", "3")], Some("abcd"));
        assert!(ValidityState::new(&c).too_long(), "{node:?}");
    }
    for node in [NodeType::Select, NodeType::Button, NodeType::Object, NodeType::OtherElement] {
        let c = control(node, &[("maxlength", "3")], Some("abcd"));
        assert!(!ValidityState::new(&c).too_long(), "{node:?}");
    }
}

#[test]
fn too_short_of_a_text_input() {
    let c = control(NodeType::TextInput, &[("minlength", "3")], Some("ab"));
    assert!(ValidityState::new(&c).too_short());
    let c = control(NodeType::TextInput, &[("minlength", "3")], Some("abc"));
    assert!(!ValidityState::new(&c).too_short());
    let c = control(NodeType::TextInput, &[("minlength", "3")], Some("abcd"));
    assert!(!ValidityState::new(&c).too_short());
    let c = control(NodeType::TextArea, &[("minlength", "3")], Some(""));
    assert!(ValidityState::new(&c).too_short());
    let c = control(NodeType::TextArea, &[("minlength", "3")], None);
    assert!(!ValidityState::new(&c).too_short());
    let c = control(NodeType::TextInput, &[("minlength", "x")], Some("ab"));
    assert!(!ValidityState::new(&c).too_short());
    let c = control(NodeType::TextInput, &[("minlength", "0")], Some(""));
    assert!(!ValidityState::new(&c).too_short());
    let c = control(NodeType::Select, &[("minlength", "3")], Some("ab"));
    assert!(!ValidityState::new(&c).too_short());
}

#[test]
fn range_underflow_of_a_number_input() {
    let c = control(NodeType::NumberInput, &[("min", "5")], Some("3"));
    assert!(ValidityState::new(&c).range_underflow());
    assert!(!ValidityState::new(&c).valid());
    let c = control(NodeType::NumberInput, &[("min", "5")], Some("5"));
    assert!(!ValidityState::new(&c).range_underflow());
    let c = control(NodeType::NumberInput, &[("min", "5")], Some("10"));
    assert!(!ValidityState::new(&c).range_underflow());
}

#[test]
fn range_underflow_needs_two_numbers() {
    let c = control(NodeType::NumberInput, &[("min", "5")], None);
    assert!(!ValidityState::new(&c).range_underflow());
    let c = control(NodeType::NumberInput, &[("min", "5")], Some("three"));
    assert!(!ValidityState::new(&c).range_underflow());
    let c = control(NodeType::NumberInput, &[("min", "five")], Some("3"));
    assert!(!ValidityState::new(&c).range_underflow());
    let c = control(NodeType::NumberInput, &[], Some("3"));
    assert!(!ValidityState::new(&c).range_underflow());
    let c = control(NodeType::NumberInput, &[("min", "NaN")], Some("3"));
    assert!(!ValidityState::new(&c).range_underflow());
    let c = control(NodeType::NumberInput, &[("min", "-2.5")], Some("-2.75"));
    assert!(ValidityState::new(&c).range_underflow());
    let c = control(NodeType::NumberInput, &[("min", "0")], Some("-0"));
    assert!(!ValidityState::new(&c).range_underflow());
    let c = control(NodeType::TextInput, &[("min", "5")], Some("3"));
    assert!(ValidityState::new(&c).range_underflow());
    let c = control(NodeType::TextArea, &[("min", "5")], Some("3"));
    assert!(!ValidityState::new(&c).range_underflow());
}

#[test]
fn range_overflow_of_a_number_input() {
    let c = control(NodeType::NumberInput, &[("max", "5")], Some("10"));
    assert!(ValidityState::new(&c).range_overflow());
    let c = control(NodeType::NumberInput, &[("max", "5")], Some("5"));
    assert!(!ValidityState::new(&c).range_overflow());
    let c = control(NodeType::NumberInput, &[("max", "5")], Some("3"));
    assert!(!ValidityState::new(&c).range_overflow());
    let c = control(NodeType::NumberInput, &[("max", "5")], None);
    assert!(!ValidityState::new(&c).range_overflow());
    let c = control(NodeType::NumberInput, &[("max", "5")], Some("lots"));
    assert!(!ValidityState::new(&c).range_overflow());
    let c = control(NodeType::NumberInput, &[("max", "lots")], Some("10"));
    assert!(!ValidityState::new(&c).range_overflow());
    let c = control(NodeType::NumberInput, &[("max", "5")], Some("inf"));
    assert!(ValidityState::new(&c).range_overflow());
    let c = control(NodeType::TextArea, &[("max", "5")], Some("10"));
    assert!(!ValidityState::new(&c).range_overflow());
}

#[test]
fn step_mismatch_of_a_number_input() {
    let c = control(NodeType::NumberInput, &[("step", "2")], Some("5"));
    assert!(ValidityState::new(&c).step_mismatch());
    assert!(!ValidityState::new(&c).valid());
    let c = control(NodeType::NumberInput, &[("step", "2")], Some("4"));
    assert!(!ValidityState::new(&c).step_mismatch());
    assert!(ValidityState::new(&c).valid());
}

#[test]
fn step_mismatch_needs_two_numbers() {
    let c = control(NodeType::NumberInput, &[("step", "2")], None);
    assert!(!ValidityState::new(&c).step_mismatch());
    let c = control(NodeType::NumberInput, &[("step", "2")], Some("five"));
    assert!(!ValidityState::new(&c).step_mismatch());
    let c = control(NodeType::NumberInput, &[("step", "two")], Some("5"));
    assert!(!ValidityState::new(&c).step_mismatch());
    let c = control(NodeType::NumberInput, &[], Some("5"));
    assert!(!ValidityState::new(&c).step_mismatch());
    let c = control(NodeType::NumberInput, &[("step", "0.5")], Some("2.5"));
    assert!(!ValidityState::new(&c).step_mismatch());
    let c = control(NodeType::NumberInput, &[("step", "0.5")], Some("2.25"));
    assert!(ValidityState::new(&c).step_mismatch());
    let c = control(NodeType::NumberInput, &[("step", "0")], Some("5"));
    assert!(ValidityState::new(&c).step_mismatch());
    let c = control(NodeType::NumberInput, &[("step", "-2")], Some("-8"));
    assert!(!ValidityState::new(&c).step_mismatch());
    let c = control(NodeType::TextArea, &[("step", "2")], Some("5"));
    assert!(!ValidityState::new(&c).step_mismatch());
}

#[test]
fn numbers_come_from_the_reading_not_from_the_characters() {
    let c = Control {
        node: NodeType::NumberInput,
        attributes: vec![Attribute {
            name: "min".to_string(),
            value: Text { content: "5".to_string(), number: None },
        }],
        value: Some(text("3")),
        options: vec![],
    };
    assert!(!ValidityState::new(&c).range_underflow());
    let c = Control {
        node: NodeType::NumberInput,
        attributes: vec![attribute("min", "5")],
        value: Some(Text { content: "3".to_string(), number: None }),
        options: vec![],
    };
    assert!(!ValidityState::new(&c).range_underflow());
}

#[test]
fn type_mismatch_of_an_email() {
    let email = [("type", "email")];
    for good in ["a@b", "someone@example.org", "first.last+tag@sub.example.co", "x_y@host-1.example"] {
        let c = control(NodeType::TextInput, &email, Some(good));
        assert!(!ValidityState::new(&c).type_mismatch(), "{good:?}");
    }
    for bad in ["", "plain", "@example.org", "someone@", "a b@example.org", "a@-example.org", "a@b..c"] {
        let c = control(NodeType::TextInput, &email, Some(bad));
        assert!(ValidityState::new(&c).type_mismatch(), "{bad:?}");
        assert!(!ValidityState::new(&c).valid(), "{bad:?}");
    }
}

#[test]
fn type_mismatch_needs_a_type_and_a_value() {
    let c = control(NodeType::TextInput, &[("type", "email")], None);
    assert!(!ValidityState::new(&c).type_mismatch());
    let c = control(NodeType::TextInput, &[], Some("plain"));
    assert!(!ValidityState::new(&c).type_mismatch());
    let c = control(NodeType::TextInput, &[("type", "text")], Some("plain"));
    assert!(!ValidityState::new(&c).type_mismatch());
    let c = control(NodeType::TextInput, &[("type", "Email")], Some("plain"));
    assert!(!ValidityState::new(&c).type_mismatch());
    let c = control(NodeType::TextInput, &[("type", "url")], Some("not a url"));
    assert!(!ValidityState::new(&c).type_mismatch());
    let c = control(NodeType::NumberInput, &[("type", "number")], Some("12"));
    assert!(!ValidityState::new(&c).type_mismatch());
    let c = control(NodeType::TextArea, &[("type", "email")], Some("plain"));
    assert!(!ValidityState::new(&c).type_mismatch());
    let c = control(NodeType::NumberInput, &[("type", "email")], Some("plain"));
    assert!(ValidityState::new(&c).type_mismatch());
}

#[test]
fn bad_input_and_custom_error_are_never_set() {
    for node in every_node() {
        for value in [None, Some(""), Some("abc"), Some("50")] {
            let c = control(node, &loaded(), value);
            let state = ValidityState::new(&c);
            assert!(!state.bad_input());
            assert!(!state.custom_error());
            assert!(!state.state(ValidityStates::BadInput));
            assert!(!state.state(ValidityStates::CustomError));
        }
    }
}

#[test]
fn the_last_attribute_of_a_name_counts() {
    let c = control(NodeType::TextInput, &[("maxlength", "10"), ("maxlength", "3")], Some("abcd"));
    assert!(ValidityState::new(&c).too_long());
    let c = control(NodeType::TextInput, &[("maxlength", "3"), ("maxlength", "10")], Some("abcd"));
    assert!(!ValidityState::new(&c).too_long());
    let c = control(NodeType::TextInput, &[("maxlength", "3"), ("maxlength", "x")], Some("abcd"));
    assert!(!ValidityState::new(&c).too_long());
}

#[test]
fn asking_again_gives_the_same_answer() {
    let values = [None, Some(""), Some("4a"), Some("42"), Some("someone@example.org"), Some("7")];
    for node in every_node() {
        for value in values {
            let c = control(node, &loaded(), value);
            let same = c.clone();
            let state = ValidityState::new(&c);
            let again = ValidityState::new(&same);
            for which in ten() {
                let first = state.state(which);
                assert_eq!(state.state(which), first);
                assert_eq!(again.state(which), first);
            }
            let first = state.valid();
            assert_eq!(state.valid(), first);
            assert_eq!(again.valid(), first);
            assert_eq!(c, same);
        }
    }
}

#[test]
fn valid_is_no_flag_set() {
    let names = ["required", "type", "pattern", "maxlength", "minlength", "min", "max", "step"];
    let contents = ["", "email", "^[0-9]+$", "2", "4", "5", "x[", "0.5"];
    let values = [None, Some(""), Some("abc"), Some("42"), Some("4.25"), Some("a@b"), Some("123456")];
    let mut seen_valid = 0;
    let mut seen_invalid = 0;
    let mut state: u64 = 0x0123_4567_89ab_cdef;
    for node in every_node() {
        for value in values {
            for _ in 0..40 {
                let mut attributes: Vec<(&str, &str)> = Vec::new();
                for name in names {
                    state = state.wrapping_mul(6364136223846793005).wrapping_add(1442695040888963407);
                    let pick = (state >> 33) as usize;
                    if pick % 3 != 0 {
                        attributes.push((name, contents[(pick / 3) % contents.len()]));
                    }
                }
                let mut c = control(node, &attributes, value);
                if pick_bit(&mut state) {
                    c.options.push(ChoiceOption {
                        selected: pick_bit(&mut state),
                        enabled: pick_bit(&mut state),
                        value: if pick_bit(&mut state) { "v".to_string() } else { String::new() },
                    });
                }
                let validity = ValidityState::new(&c);
                let any = validity.value_missing()
                    | validity.type_mismatch()
                    | validity.pattern_mismatch()
                    | validity.too_long()
                    | validity.too_short()
                    | validity.range_underflow()
                    | validity.range_overflow()
                    | validity.step_mismatch()
                    | validity.bad_input()
                    | validity.custom_error();
                assert_eq!(validity.valid(), !any, "{c:?}");
                assert_eq!(validity.state(ValidityStates::Valid), !any);
                let by_name = ten().iter().any(|which| validity.state(*which));
                assert_eq!(by_name, any);
                if any {
                    seen_invalid += 1;
                } else {
                    seen_valid += 1;
                }
            }
        }
    }
    assert!(seen_valid > 100);
    assert!(seen_invalid > 100);
}

fn pick_bit(state: &mut u64) -> bool {
    *state = state.wrapping_mul(6364136223846793005).wrapping_add(1442695040888963407);
    (*state >> 40) & 1 == 1
}

#[test]
fn state_answers_by_name() {
    let c = control(
        NodeType::TextInput,
        &[("required", ""), ("maxlength", "2"), ("min", "10"), ("step", "2"), ("pattern", "^a")],
        Some("7"),
    );
    let state = ValidityState::new(&c);
    assert_eq!(state.state(ValidityStates::ValueMissing), false);
    assert_eq!(state.state(ValidityStates::TypeMismatch), false);
    assert_eq!(state.state(ValidityStates::PatternMismatch), true);
    assert_eq!(state.state(ValidityStates::TooLong), false);
    assert_eq!(state.state(ValidityStates::TooShort), false);
    assert_eq!(state.state(ValidityStates::RangeUnderflow), true);
    assert_eq!(state.state(ValidityStates::RangeOverflow), false);
    assert_eq!(state.state(ValidityStates::StepMismatch), true);
    assert_eq!(state.state(ValidityStates::BadInput), false);
    assert_eq!(state.state(ValidityStates::CustomError), false);
    assert_eq!(state.state(ValidityStates::Valid), false);
}

#[test]
fn the_state_keeps_its_element() {
    let c = control(NodeType::TextInput, &[("required", "")], None);
    let state = ValidityState::new(&c);
    assert_eq!(state.element(), &c);
    let copy = state;
    assert_eq!(copy.element(), state.element());
}
