//! Import of single-mesh scene assets into tightly packed, GPU-ready
//! vertex, index, material and sampler data.
use vstd::prelude::*;

pub mod renderer;

verus! {

/// Failure of a rendering step outside asset import, with its diagnostic.
#[derive(Debug, PartialEq, Eq)]
pub enum Error {
    Render(String),
}

} // verus!
