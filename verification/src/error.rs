//! Errors reported while reading style and template definitions.
use vstd::prelude::*;

verus! {

#[derive(Debug, PartialEq, Eq)]
pub enum GuiseError {
    PrematureEof,
    InvalidElement(String),
    MismatchedEnd(String),
    UnknownAttribute(Vec<u8>),
    UnknownAttributeValue(String),
    InvalidAttributeValue(String),
    MissingRequiredAttribute(String),
}

} // verus!
