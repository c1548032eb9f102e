//! What a control has to offer to be validated.
use vstd::prelude::*;
use crate::control::Control;

verus! {

/// Something whose attributes can be looked up by name.
pub trait Validatable {
    /// The value of the attribute of the given name, if there is one.
    spec fn attribute_value(&self, name: Seq<char>) -> Option<Seq<char>>;

    /// Looks up the attribute of the given name and gives its value, or
    /// `None` where there is no such attribute.
    fn get_attribute_value(&self, input_attr_name: &String) -> (value: Option<&str>)
        ensures
            match value {
                Some(found) => self.attribute_value(input_attr_name@) == Some(found@),
                None => self.attribute_value(input_attr_name@) is None,
            },
    ;
}

impl Validatable for Control {
    open spec fn attribute_value(&self, name: Seq<char>) -> Option<Seq<char>> {
        match self@.attribute(name) {
            Some(text) => Some(text.content),
            None => None,
        }
    }

    fn get_attribute_value(&self, input_attr_name: &String) -> (value: Option<&str>) {
        match self.attribute(input_attr_name.as_str()) {
            Some(text) => Some(text.content.as_str()),
            None => None,
        }
    }
}

} // verus!
