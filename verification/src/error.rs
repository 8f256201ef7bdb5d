//! Error taxonomy for parsing and serializing style data.

use vstd::prelude::*;

verus! {

/// An error produced while parsing or serializing style data.
///
/// Unknown attribute names on the attribute-string surface are not errors
/// (the caller may route the attribute to another handler); these variants
/// cover values that fail their grammar, unknown keys on the structured
/// (closed-schema) surface, and attribute variants with no string form.
#[derive(Debug, Clone, PartialEq, Eq)]
pub enum GuiseError {
    /// A recognized enumerated attribute was given a literal outside its
    /// vocabulary; carries the offending literal.
    UnknownAttributeValue(String),
    /// A recognized attribute value failed its grammar (malformed length,
    /// rect, color, or numeric); carries the offending literal.
    InvalidAttributeValue(String),
    /// A structured-document key is not a recognized property name; carries
    /// the offending key.
    InvalidProperty(String),
    /// The attribute variant has no canonical string form, so it cannot be
    /// serialized; the serializer reports this instead of aborting.
    UnsupportedAttribute,
}

impl GuiseError {
    /// A human-readable description of the error.
    pub fn message(&self) -> (r: String)
        ensures
            r@ == match self {
                GuiseError::UnknownAttributeValue(v) => "unknown attribute value: "@ + v@,
                GuiseError::InvalidAttributeValue(v) => "invalid attribute value: "@ + v@,
                GuiseError::InvalidProperty(k) => "invalid property: "@ + k@,
                GuiseError::UnsupportedAttribute => "unsupported attribute"@,
            },
    {
        match self {
            GuiseError::UnknownAttributeValue(v) => {
                String::from_str("unknown attribute value: ").concat(v.as_str())
            },
            GuiseError::InvalidAttributeValue(v) => {
                String::from_str("invalid attribute value: ").concat(v.as_str())
            },
            GuiseError::InvalidProperty(k) => {
                String::from_str("invalid property: ").concat(k.as_str())
            },
            GuiseError::UnsupportedAttribute => String::from_str("unsupported attribute"),
        }
    }
}

} // verus!
