//! Kinds of template nodes, and the context that template expressions are
//! evaluated in.
use vstd::prelude::*;

verus! {

#[derive(Debug, Default, Clone, Copy, PartialEq, Eq, Structural)]
pub enum TemplateNodeType {
    #[default]
    Node,
    Text,
    Fragment,
}

/// The context in which template expressions are evaluated.
pub struct EvalContext {}

} // verus!
