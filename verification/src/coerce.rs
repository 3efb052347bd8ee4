//! Conversion of a dynamically typed expression to a known static type.
use vstd::prelude::*;

verus! {

/// Trait to convert an expression from dynamically typed to a known static type.
pub trait Coerce<T> {
    fn coerce(&self) -> Option<T>;
}

} // verus!
