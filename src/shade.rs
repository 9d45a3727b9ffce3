//! Base types of shader inputs, as reported by shader reflection.

use vstd::prelude::*;

verus! {

/// The base type of a shader input variable.
#[derive(Clone, Copy, Debug, PartialEq, Eq, Structural, PartialOrd, Ord, Hash)]
pub enum BaseType {
    BaseI32,
    BaseU32,
    BaseF32,
    BaseF64,
    BaseBool,
}

} // verus!
