//! The single error kind of the library, with the precise rule it reports.

use vstd::prelude::*;

verus! {

/// The structural rule a candidate string broke.
#[derive(Clone, Copy, Debug, PartialEq, Eq, Structural)]
pub enum InvalidReason {
    /// The string was empty.
    Empty,
    /// The string consisted solely of whitespace characters.
    WhitespaceOnly,
    /// The string did not contain a required substring.
    MissingSubstring,
}

/// The sole error kind: a candidate string failed validation.
///
/// Carries the broken rule and the name of the field being validated;
/// the field name is diagnostic only and has no effect on validation.
#[derive(Debug)]
pub struct InvalidValue {
    /// Which rule was broken.
    pub reason: InvalidReason,
    /// The name of the field whose value was rejected.
    pub field_name: String,
}

/// The text describing a broken rule inside an error message.
pub open spec fn reason_text(r: InvalidReason) -> Seq<char> {
    match r {
        InvalidReason::Empty => ", was empty"@,
        InvalidReason::WhitespaceOnly => ", was all whitespace"@,
        InvalidReason::MissingSubstring => ", did not contain the required substring"@,
    }
}

impl InvalidValue {
    /// A human-readable message naming the offending field and the broken rule.
    pub fn message(&self) -> (r: String)
        ensures
            r@ == "invalid string for "@ + self.field_name@ + reason_text(self.reason),
    {
        let mut m = String::from_str("invalid string for ");
        m.append(self.field_name.as_str());
        match self.reason {
            InvalidReason::Empty => m.append(", was empty"),
            InvalidReason::WhitespaceOnly => m.append(", was all whitespace"),
            InvalidReason::MissingSubstring => m.append(", did not contain the required substring"),
        }
        m
    }
}

} // verus!
