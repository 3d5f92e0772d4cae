use vstd::prelude::*;
use crate::jit_type::JitType;

verus! {

/// A handle to a typed storage location inside one function under
/// construction.
///
/// A value names the function that made it, its place in that function's
/// table of values, and its type. It is only of use with that function.
#[derive(Clone, Copy, Debug, PartialEq, Eq, Structural)]
pub struct Value {
    /// The identifier of the function the value belongs to.
    pub owner: u64,
    /// The value's place in the function's table of values.
    pub index: usize,
    /// The type of the value, which never changes.
    pub jit_type: JitType,
}

impl Value {
    /// Returns the type of the value.
    pub fn value_type(&self) -> (t: JitType)
        ensures
            t == self.jit_type,
    {
        self.jit_type
    }
}

} // verus!
