//! Constraint validation for form controls.
//!
//! A [`Control`] is a snapshot of one form control: what kind of node it is,
//! its attributes, its current value and, for a choice control, its options.
//! A [`ValidityState`] answers eleven questions about such a snapshot: the
//! ten validity flags, and whether none of them is set.
//!
//! The flags are worked out in three steps, one module each: [`control`]
//! tells the kind of control, [`extract`] reads the constraints out of its
//! attributes, and [`rules`] holds the ten rules. [`validitystate`] puts them
//! together, and [`laws`] states what holds of every control.
//!
//! Two things are taken from outside. Regular expressions are compiled and
//! run by the `regex` crate, through the items of [`pattern`]. Numbers are
//! held as the bits of a single-precision floating-point number
//! ([`number::Number`]); reading such a number out of a string is left to
//! whoever takes the snapshot.
pub mod control;
pub mod extract;
pub mod laws;
pub mod number;
pub mod pattern;
pub mod rules;
pub mod text;
pub mod validation;
pub mod validitystate;

pub use control::{classify, Attribute, ChoiceOption, Control, ControlKind, NodeType, Text};
pub use number::Number;
pub use validation::Validatable;
pub use validitystate::{ValidityState, ValidityStates};
