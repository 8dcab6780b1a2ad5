//! Descriptions of configurable fields, from which forms are rendered.
use vstd::prelude::*;

verus! {

/// The kind of input a field takes.
#[derive(Debug, Clone, Copy, PartialEq, Eq, Structural)]
pub enum FieldType {
    Number,
    Boolean,
}

/// A configurable field: its identifier, label, input kind, help and, for
/// a field with a fixed set of values, its choices.
#[derive(Debug, Clone, Copy)]
pub struct FieldDefinition {
    pub id: &'static str,
    pub label: &'static str,
    pub field_type: FieldType,
    pub placeholder: Option<&'static str>,
    pub secret: bool,
    pub optional: bool,
    pub help_text: Option<&'static str>,
    pub default_value: Option<&'static str>,
    pub category: Option<&'static str>,
    /// The choices of a field that takes one of a fixed set of values.
    pub options: Option<&'static [&'static str]>,
}

} // verus!
