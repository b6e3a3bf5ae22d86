//! Formatted math markup, closely matching MathML, together with the
//! elision-aware encoding of a document tree into a structured value and the
//! schema that describes exactly which structured values are well-formed
//! documents.
use vstd::prelude::*;

pub mod value;
pub mod math;
pub mod encode;
pub mod shape;
pub mod check;
pub mod schema;
pub mod laws;

verus! {

} // verus!
pub mod soundness;
