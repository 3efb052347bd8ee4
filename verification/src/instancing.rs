//! Markers for model instancing.
use vstd::prelude::*;

verus! {

/// Marks an entity whose render layers are to be propagated to all its descendants.
#[derive(Debug, Clone, Copy, PartialEq, Eq, Structural)]
pub struct PropagateRenderLayers;

} // verus!
