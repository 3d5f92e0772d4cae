use vstd::prelude::*;
use crate::abi::Abi;
use crate::jit_type::JitType;

verus! {

/// A function signature as mathematics.
pub struct SignatureView {
    pub abi: Abi,
    pub return_type: JitType,
    pub params: Seq<JitType>,
}

/// The type of a function: a calling convention, a return type and the
/// parameter types in order. Two signatures denote the same type exactly
/// when their views are equal.
#[derive(Debug)]
pub struct Signature {
    pub abi: Abi,
    pub return_type: JitType,
    pub params: Vec<JitType>,
}

impl View for Signature {
    type V = SignatureView;

    open spec fn view(&self) -> SignatureView {
        SignatureView { abi: self.abi, return_type: self.return_type, params: self.params@ }
    }
}

/// Returns a copy of `types`.
pub fn copy_types(types: &Vec<JitType>) -> (copy: Vec<JitType>)
    ensures
        copy@ == types@,
{
    let mut copy: Vec<JitType> = Vec::new();
    let mut i: usize = 0;
    while i < types.len()
        invariant
            i <= types.len(),
            copy@ =~= types@.take(i as int),
        decreases types.len() - i,
    {
        copy.push(types[i]);
        i = i + 1;
    }
    copy
}

impl Signature {
    /// Returns the signature with the given convention, return type and
    /// parameter types.
    pub fn new(abi: Abi, return_type: JitType, params: Vec<JitType>) -> (s: Signature)
        ensures
            s@ == (SignatureView { abi, return_type, params: params@ }),
    {
        Signature { abi, return_type, params }
    }

    /// Returns whether `self` and `other` denote the same type.
    pub fn same_as(&self, other: &Signature) -> (b: bool)
        ensures
            b == (self@ == other@),
    {
        if self.abi != other.abi || self.return_type != other.return_type || self.params.len()
            != other.params.len() {
            return false;
        }
        let mut i: usize = 0;
        while i < self.params.len()
            invariant
                i <= self.params.len(),
                self.params.len() == other.params.len(),
                forall|j: int| 0 <= j < i ==> self.params@[j] == other.params@[j],
            decreases self.params.len() - i,
        {
            if self.params[i] != other.params[i] {
                return false;
            }
            i = i + 1;
        }
        assert(self.params@ =~= other.params@);
        true
    }

    /// Returns a copy of the signature.
    pub fn duplicate(&self) -> (s: Signature)
        ensures
            s@ == self@,
    {
        Signature { abi: self.abi, return_type: self.return_type, params: copy_types(&self.params) }
    }
}

} // verus!
