use vstd::prelude::*;
use crate::constant::Constant;
use crate::jit_type::JitType;

verus! {

/// The operation of an instruction with two operands.
#[derive(Clone, Copy, Debug, PartialEq, Eq, Structural)]
pub enum BinaryOp {
    Add,
    Sub,
    Mul,
    Div,
    Eq,
}

/// One instruction of a function under construction. Values and labels are
/// named by their places in the function's tables.
#[derive(Clone, Copy, Debug, PartialEq, Eq, Structural)]
pub enum Instruction {
    /// Loads a literal into `dest`.
    Const { dest: usize, constant: Constant },
    /// Applies `op` to `left` and `right` and puts the result in `dest`.
    Binary { op: BinaryOp, dest: usize, left: usize, right: usize },
    /// Reserves `size` bytes of local storage and puts their address in `dest`.
    Alloca { dest: usize, size: i64 },
    /// Reads the value at `address` into `dest`.
    Load { dest: usize, address: usize },
    /// Writes `value` to `address`.
    Store { address: usize, value: usize },
    /// Jumps to `target`.
    Branch { target: usize },
    /// Jumps to `target` when `condition` holds.
    BranchIf { condition: usize, target: usize },
    /// Jumps to `target` when `condition` does not hold.
    BranchIfNot { condition: usize, target: usize },
    /// Fixes the position of `label` here.
    Bind { label: usize },
    /// Calls the native function at address `function` with the
    /// `arg_count` arguments that start at `first_arg` in the function's table
    /// of call arguments, and puts what it returns in `dest`.
    CallNative { dest: usize, function: usize, first_arg: usize, arg_count: usize, return_type: JitType },
    /// Returns `value` to the caller.
    Return { value: usize },
    /// Returns to the caller without a value.
    ReturnVoid,
}

impl Instruction {
    /// The value that the instruction defines, if it defines one.
    pub open spec fn spec_dest(self) -> Option<usize> {
        match self {
            Instruction::Const { dest, .. } => Some(dest),
            Instruction::Binary { dest, .. } => Some(dest),
            Instruction::Alloca { dest, .. } => Some(dest),
            Instruction::Load { dest, .. } => Some(dest),
            Instruction::CallNative { dest, .. } => Some(dest),
            _ => None,
        }
    }

    /// The label that the instruction jumps to, if it is a branch.
    pub open spec fn spec_target(self) -> Option<usize> {
        match self {
            Instruction::Branch { target } => Some(target),
            Instruction::BranchIf { target, .. } => Some(target),
            Instruction::BranchIfNot { target, .. } => Some(target),
            _ => None,
        }
    }

    /// The label whose position the instruction fixes, if it fixes one.
    pub open spec fn spec_binds(self) -> Option<usize> {
        match self {
            Instruction::Bind { label } => Some(label),
            _ => None,
        }
    }

    /// Returns the value that the instruction defines, if it defines one.
    #[verifier::when_used_as_spec(spec_dest)]
    pub fn dest(self) -> (d: Option<usize>)
        ensures
            d == self.spec_dest(),
    {
        match self {
            Instruction::Const { dest, .. } => Some(dest),
            Instruction::Binary { dest, .. } => Some(dest),
            Instruction::Alloca { dest, .. } => Some(dest),
            Instruction::Load { dest, .. } => Some(dest),
            Instruction::CallNative { dest, .. } => Some(dest),
            _ => None,
        }
    }

    /// Returns the label that the instruction jumps to, if it is a branch.
    #[verifier::when_used_as_spec(spec_target)]
    pub fn target(self) -> (t: Option<usize>)
        ensures
            t == self.spec_target(),
    {
        match self {
            Instruction::Branch { target } => Some(target),
            Instruction::BranchIf { target, .. } => Some(target),
            Instruction::BranchIfNot { target, .. } => Some(target),
            _ => None,
        }
    }

    /// Returns the label whose position the instruction fixes, if it fixes
    /// one.
    #[verifier::when_used_as_spec(spec_binds)]
    pub fn binds(self) -> (l: Option<usize>)
        ensures
            l == self.spec_binds(),
    {
        match self {
            Instruction::Bind { label } => Some(label),
            _ => None,
        }
    }
}

} // verus!
