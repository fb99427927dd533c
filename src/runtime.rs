use vstd::prelude::*;

verus! {

/// The two value types of the language: a scalar, or a flat list of scalars.
#[derive(Clone, Copy, Debug, PartialEq, Eq, Structural)]
pub enum ValType {
    Number,
    List,
}

/// Number of arguments of a call or of a signature.
pub type ArgCount = usize;

} // verus!
