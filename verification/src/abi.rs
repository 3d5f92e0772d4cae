use vstd::prelude::*;

verus! {

/// The calling convention of a function signature.
#[derive(Clone, Copy, Debug, PartialEq, Eq, Structural)]
pub enum Abi {
    /// The platform's standard C calling convention.
    Cdecl,
    /// The C convention for functions with a variable argument list.
    VarArg,
    /// The callee pops its arguments.
    Stdcall,
    /// The first arguments travel in registers.
    Fastcall,
}

impl Abi {
    /// The tag by which a back end knows this convention.
    pub open spec fn spec_tag(self) -> u32 {
        match self {
            Abi::Cdecl => 0u32,
            Abi::VarArg => 1u32,
            Abi::Stdcall => 2u32,
            Abi::Fastcall => 3u32,
        }
    }

    /// Returns the tag by which a back end knows this convention.
    #[verifier::when_used_as_spec(spec_tag)]
    pub fn tag(self) -> (t: u32)
        ensures
            t == self.spec_tag(),
    {
        match self {
            Abi::Cdecl => 0u32,
            Abi::VarArg => 1u32,
            Abi::Stdcall => 2u32,
            Abi::Fastcall => 3u32,
        }
    }
}

} // verus!
