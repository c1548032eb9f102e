//! The snapshot of a form control that the validity rules read.
use vstd::prelude::*;
use crate::number::Number;
use crate::text::same_text;

verus! {

/// What the element model reports a node to be.
#[derive(Clone, Copy, Debug, PartialEq, Eq, Structural)]
pub enum NodeType {
    /// An input element that takes text.
    TextInput,
    /// An input element that takes a number.
    NumberInput,
    /// A button element.
    Button,
    /// An object element.
    Object,
    /// A select element.
    Select,
    /// A text area element.
    TextArea,
    /// Any other element.
    OtherElement,
    /// Text, a comment or a processing instruction.
    CharacterData,
    /// A document.
    Document,
    /// A document fragment.
    DocumentFragment,
    /// A document type declaration.
    DocumentType,
}

/// The kinds of control that the validity rules tell apart.
#[derive(Clone, Copy, Debug, PartialEq, Eq, Structural)]
pub enum ControlKind {
    TextInput,
    NumberInput,
    Button,
    Object,
    Select,
    TextArea,
    /// A node that takes no part in validation.
    Other,
}

impl NodeType {
    /// The kind of control that a node of this type is.
    pub open spec fn kind(self) -> ControlKind {
        match self {
            NodeType::TextInput => ControlKind::TextInput,
            NodeType::NumberInput => ControlKind::NumberInput,
            NodeType::Button => ControlKind::Button,
            NodeType::Object => ControlKind::Object,
            NodeType::Select => ControlKind::Select,
            NodeType::TextArea => ControlKind::TextArea,
            NodeType::OtherElement => ControlKind::Other,
            NodeType::CharacterData => ControlKind::Other,
            NodeType::Document => ControlKind::Other,
            NodeType::DocumentFragment => ControlKind::Other,
            NodeType::DocumentType => ControlKind::Other,
        }
    }

    /// Whether a node of this type is an element.
    pub open spec fn is_element(self) -> bool {
        !(self is CharacterData || self is Document || self is DocumentFragment
            || self is DocumentType)
    }
}

impl ControlKind {
    /// An input element, whatever it takes.
    pub open spec fn is_input(self) -> bool {
        self is TextInput || self is NumberInput
    }

    /// A control that holds text: an input element or a text area.
    pub open spec fn holds_text(self) -> bool {
        self.is_input() || self is TextArea
    }

    /// Whether this kind is an input element.
    pub fn input(self) -> (r: bool)
        ensures
            r == self.is_input(),
    {
        match self {
            ControlKind::TextInput => true,
            ControlKind::NumberInput => true,
            _ => false,
        }
    }

    /// Whether this kind holds text.
    pub fn text(self) -> (r: bool)
        ensures
            r == self.holds_text(),
    {
        match self {
            ControlKind::TextInput => true,
            ControlKind::NumberInput => true,
            ControlKind::TextArea => true,
            _ => false,
        }
    }
}

/// Maps a node type to the kind of control it is. Every node that is not one
/// of the six interactive elements is `Other`.
pub fn classify(node: NodeType) -> (kind: ControlKind)
    ensures
        kind == node.kind(),
        !node.is_element() ==> kind is Other,
{
    match node {
        NodeType::TextInput => ControlKind::TextInput,
        NodeType::NumberInput => ControlKind::NumberInput,
        NodeType::Button => ControlKind::Button,
        NodeType::Object => ControlKind::Object,
        NodeType::Select => ControlKind::Select,
        NodeType::TextArea => ControlKind::TextArea,
        _ => ControlKind::Other,
    }
}

/// A string of the element model, with its reading as a number.
///
/// The reading is `None` where the string does not write a number. It is
/// made by whoever takes the snapshot: the rules never read a number out of
/// `content` themselves.
#[derive(Clone, Debug, PartialEq, Eq)]
pub struct Text {
    /// The characters.
    pub content: String,
    /// The number that the characters write, if they write one.
    pub number: Option<Number>,
}

/// What a [`Text`] holds.
pub ghost struct TextView {
    pub content: Seq<char>,
    pub number: Option<Number>,
}

impl View for Text {
    type V = TextView;

    open spec fn view(&self) -> TextView {
        TextView { content: self.content@, number: self.number }
    }
}

/// One attribute of a control: a name and a value.
#[derive(Clone, Debug, PartialEq, Eq)]
pub struct Attribute {
    pub name: String,
    pub value: Text,
}

/// What an [`Attribute`] holds.
pub ghost struct AttributeView {
    pub name: Seq<char>,
    pub value: TextView,
}

impl View for Attribute {
    type V = AttributeView;

    open spec fn view(&self) -> AttributeView {
        AttributeView { name: self.name@, value: self.value@ }
    }
}

/// One option below a choice control, as the traversal of the control's
/// descendants reports it.
#[derive(Clone, Debug, PartialEq, Eq)]
pub struct ChoiceOption {
    /// The option is currently chosen.
    pub selected: bool,
    /// The option is not disabled, by itself or by what it stands in.
    pub enabled: bool,
    /// The value that the option stands for.
    pub value: String,
}

/// What a [`ChoiceOption`] holds.
pub ghost struct ChoiceOptionView {
    pub selected: bool,
    pub enabled: bool,
    pub value: Seq<char>,
}

impl View for ChoiceOption {
    type V = ChoiceOptionView;

    open spec fn view(&self) -> ChoiceOptionView {
        ChoiceOptionView { selected: self.selected, enabled: self.enabled, value: self.value@ }
    }
}

impl ChoiceOptionView {
    /// An option that makes a choice: selected, enabled, and with a value
    /// that is not empty.
    pub open spec fn counts(self) -> bool {
        self.selected && self.enabled && self.value.len() > 0
    }
}

impl ChoiceOption {
    /// Whether this option makes a choice.
    pub fn counts(&self) -> (r: bool)
        ensures
            r == self@.counts(),
    {
        self.selected && self.enabled && !self.value.as_str().is_empty()
    }
}

/// The snapshot of one control.
#[derive(Clone, Debug, PartialEq, Eq)]
pub struct Control {
    /// What the element model reports the node to be.
    pub node: NodeType,
    /// The attributes, in document order.
    pub attributes: Vec<Attribute>,
    /// The value used for validation. `None` is a control without a value,
    /// which is not the same as one whose value is the empty string.
    pub value: Option<Text>,
    /// The options below a choice control, in document order.
    pub options: Vec<ChoiceOption>,
}

/// What a [`Control`] holds.
pub ghost struct ControlView {
    pub node: NodeType,
    pub attributes: Seq<AttributeView>,
    pub value: Option<TextView>,
    pub options: Seq<ChoiceOptionView>,
}

impl View for Control {
    type V = ControlView;

    open spec fn view(&self) -> ControlView {
        ControlView {
            node: self.node,
            attributes: Seq::new(self.attributes@.len(), |i: int| self.attributes@[i]@),
            value: match self.value {
                Some(text) => Some(text@),
                None => None,
            },
            options: Seq::new(self.options@.len(), |i: int| self.options@[i]@),
        }
    }
}

/// The value of the last attribute of the given name, if there is one.
pub open spec fn lookup(attributes: Seq<AttributeView>, name: Seq<char>) -> Option<TextView>
    decreases attributes.len(),
{
    if attributes.len() == 0 {
        None
    } else if attributes.last().name == name {
        Some(attributes.last().value)
    } else {
        lookup(attributes.drop_last(), name)
    }
}

/// An attribute is found exactly where some attribute has the name.
pub proof fn lemma_lookup_finds_a_name(attributes: Seq<AttributeView>, name: Seq<char>)
    ensures
        lookup(attributes, name) is Some <==> exists|i: int|
            0 <= i < attributes.len() && (#[trigger] attributes[i]).name == name,
    decreases attributes.len(),
{
    if attributes.len() > 0 {
        let rest = attributes.drop_last();
        lemma_lookup_finds_a_name(rest, name);
        if attributes.last().name == name {
            assert(attributes[attributes.len() - 1].name == name);
        } else if lookup(rest, name) is Some {
            let i = choose|i: int| 0 <= i < rest.len() && (#[trigger] rest[i]).name == name;
            assert(attributes[i].name == name);
        } else if exists|i: int| 0 <= i < attributes.len() && (#[trigger] attributes[i]).name == name {
            let i = choose|i: int|
                0 <= i < attributes.len() && (#[trigger] attributes[i]).name == name;
            assert(rest[i].name == name);
        }
    }
}

/// The value found is that of the last attribute of the name. Where no name
/// occurs twice, it is that of the one attribute of the name.
pub proof fn lemma_lookup_takes_the_last(attributes: Seq<AttributeView>, i: int)
    requires
        0 <= i < attributes.len(),
        forall|j: int| i < j < attributes.len() ==> (#[trigger] attributes[j]).name != attributes[i].name,
    ensures
        lookup(attributes, attributes[i].name) == Some(attributes[i].value),
    decreases attributes.len(),
{
    if i < attributes.len() - 1 {
        assert(attributes[attributes.len() - 1].name != attributes[i].name);
        let rest = attributes.drop_last();
        assert(rest[i] == attributes[i]);
        assert forall|j: int| i < j < rest.len() implies (#[trigger] rest[j]).name != rest[i].name by {
            assert(rest[j] == attributes[j]);
        }
        lemma_lookup_takes_the_last(rest, i);
    }
}

impl ControlView {
    /// The kind of control this is.
    pub open spec fn kind(self) -> ControlKind {
        self.node.kind()
    }

    /// The value of the attribute of the given name. Where a name occurs
    /// more than once, the last occurrence counts.
    pub open spec fn attribute(self, name: Seq<char>) -> Option<TextView> {
        lookup(self.attributes, name)
    }

    /// Whether the control has an attribute of the given name.
    pub open spec fn has_attribute(self, name: Seq<char>) -> bool {
        self.attribute(name) is Some
    }

    /// Whether one of the options makes a choice.
    pub open spec fn choice_made(self) -> bool {
        exists|i: int| 0 <= i < self.options.len() && (#[trigger] self.options[i]).counts()
    }
}

impl Text {
    /// A string with its reading as a number.
    pub fn new(content: String, number: Option<Number>) -> (text: Text)
        ensures
            text@ == (TextView { content: content@, number }),
    {
        Text { content, number }
    }

    /// A string that writes no number.
    pub fn plain(content: String) -> (text: Text)
        ensures
            text@ == (TextView { content: content@, number: None }),
    {
        Text { content, number: None }
    }
}

impl Attribute {
    /// The attribute of the given name and value.
    pub fn new(name: String, value: Text) -> (attribute: Attribute)
        ensures
            attribute@ == (AttributeView { name: name@, value: value@ }),
    {
        Attribute { name, value }
    }
}

impl ChoiceOption {
    /// The option with the given state and value.
    pub fn new(selected: bool, enabled: bool, value: String) -> (option: ChoiceOption)
        ensures
            option@ == (ChoiceOptionView { selected, enabled, value: value@ }),
    {
        ChoiceOption { selected, enabled, value }
    }
}

impl Control {
    /// A control of the given node type, without attributes, value or
    /// options.
    pub fn new(node: NodeType) -> (control: Control)
        ensures
            control@ == (ControlView {
                node,
                attributes: Seq::empty(),
                value: None,
                options: Seq::empty(),
            }),
    {
        let control = Control { node, attributes: Vec::new(), value: None, options: Vec::new() };
        assert(control@.attributes =~= Seq::empty());
        assert(control@.options =~= Seq::empty());
        control
    }

    /// Sets the attribute of the given name. An earlier attribute of that
    /// name no longer counts; every other attribute stays as it is.
    pub fn set_attribute(&mut self, name: String, value: Text)
        ensures
            final(self)@ == (ControlView {
                attributes: old(self)@.attributes.push(
                    AttributeView { name: name@, value: value@ },
                ),
                ..old(self)@
            }),
            final(self)@.attribute(name@) == Some(value@),
            forall|other: Seq<char>|
                other != name@ ==> final(self)@.attribute(other) == old(self)@.attribute(other),
    {
        let ghost before = self@;
        let ghost added = AttributeView { name: name@, value: value@ };
        self.attributes.push(Attribute { name, value });
        proof {
            assert(self@.attributes =~= before.attributes.push(added));
            assert(self@.options =~= before.options);
            assert(self@.attributes.drop_last() =~= before.attributes);
        }
    }

    /// Sets the value used for validation, or takes it away.
    pub fn set_value(&mut self, value: Option<Text>)
        ensures
            final(self)@ == (ControlView {
                value: match value {
                    Some(text) => Some(text@),
                    None => None,
                },
                ..old(self)@
            }),
    {
        let ghost before = self@;
        self.value = value;
        proof {
            assert(self@.attributes =~= before.attributes);
            assert(self@.options =~= before.options);
        }
    }

    /// Adds an option after those that are there.
    pub fn add_option(&mut self, option: ChoiceOption)
        ensures
            final(self)@ == (ControlView {
                options: old(self)@.options.push(option@),
                ..old(self)@
            }),
    {
        let ghost before = self@;
        let ghost added = option@;
        self.options.push(option);
        proof {
            assert(self@.attributes =~= before.attributes);
            assert(self@.options =~= before.options.push(added));
        }
    }

    /// The kind of control this is.
    pub fn classify(&self) -> (kind: ControlKind)
        ensures
            kind == self@.kind(),
    {
        classify(self.node)
    }

    /// The attribute of the given name; the last one, where the name occurs
    /// more than once.
    pub fn attribute(&self, name: &str) -> (found: Option<&Text>)
        ensures
            match found {
                Some(text) => self@.attribute(name@) == Some(text@),
                None => self@.attribute(name@) is None,
            },
    {
        let mut i: usize = self.attributes.len();
        assert(self@.attributes.take(i as int) =~= self@.attributes);
        while i > 0
            invariant
                i <= self.attributes@.len(),
                lookup(self@.attributes, name@) == lookup(self@.attributes.take(i as int), name@),
            decreases i,
        {
            i -= 1;
            let ghost upto = self@.attributes.take(i + 1);
            assert(upto.drop_last() =~= self@.attributes.take(i as int));
            assert(upto.last() == self.attributes@[i as int]@);
            if same_text(self.attributes[i].name.as_str(), name) {
                return Some(&self.attributes[i].value);
            }
        }
        None
    }

    /// Whether the control has an attribute of the given name.
    pub fn has_attribute(&self, name: &str) -> (r: bool)
        ensures
            r == self@.has_attribute(name@),
    {
        self.attribute(name).is_some()
    }

    /// Whether one of the options makes a choice.
    pub fn choice_made(&self) -> (r: bool)
        ensures
            r == self@.choice_made(),
    {
        let mut i: usize = 0;
        while i < self.options.len()
            invariant
                i <= self.options@.len(),
                forall|j: int| 0 <= j < i ==> !(#[trigger] self@.options[j]).counts(),
            decreases self.options@.len() - i,
        {
            if self.options[i].counts() {
                assert(self@.options[i as int].counts());
                return true;
            }
            i += 1;
        }
        false
    }
}

} // verus!
