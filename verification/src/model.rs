use vstd::prelude::*;
use crate::abi::Abi;
use crate::constant::Constant;
use crate::exception::Exception;
use crate::instruction::{BinaryOp, Instruction};
use crate::jit_type::{JitType, Kind};
use crate::label::LabelView;
use crate::signature::SignatureView;
use crate::value::Value;

verus! {

/// What a function knows of one of its values.
#[derive(Clone, Copy, Debug)]
pub struct ValueInfo {
    /// The type of the value.
    pub jit_type: JitType,
    /// The place of the instruction that defines the value; `None` for a
    /// parameter.
    pub definition: Option<usize>,
    /// The type of what was last stored through the value, where the value
    /// is a pointer to void.
    pub stored: Option<JitType>,
}

/// Where a label stands in the instruction stream.
#[derive(Clone, Copy, Debug, PartialEq, Eq, Structural)]
pub enum Binding {
    /// No instruction binds the label.
    Unbound,
    /// The instruction at `position`, and no other, binds the label.
    BoundAt { position: usize },
    /// The instructions at `first` and at `second` both bind the label.
    BoundTwice { first: usize, second: usize },
}

/// What a function knows of one of its labels.
#[derive(Clone, Copy, Debug)]
pub struct LabelInfo {
    /// Where the label is bound.
    pub binding: Binding,
    /// The place of the first branch to the label; `None` while there is
    /// none.
    pub reference: Option<usize>,
}

/// Whether instruction `k` of `s` binds label `l`.
pub open spec fn binds_at(s: Seq<Instruction>, k: int, l: usize) -> bool {
    0 <= k < s.len() && s[k].spec_binds() == Some(l)
}

/// Whether instruction `k` of `s` is a branch to label `l`.
pub open spec fn targets_at(s: Seq<Instruction>, k: int, l: usize) -> bool {
    0 <= k < s.len() && s[k].spec_target() == Some(l)
}

/// Whether some instruction of `s` binds label `l`.
pub open spec fn bound(s: Seq<Instruction>, l: usize) -> bool {
    exists|k: int| #[trigger] binds_at(s, k, l)
}

/// Whether two instructions of `s` bind label `l`.
pub open spec fn bound_twice(s: Seq<Instruction>, l: usize) -> bool {
    exists|j: int, k: int| j != k && #[trigger] binds_at(s, j, l) && #[trigger] binds_at(s, k, l)
}

/// Whether some instruction of `s` is a branch to label `l`.
pub open spec fn referenced(s: Seq<Instruction>, l: usize) -> bool {
    exists|k: int| #[trigger] targets_at(s, k, l)
}

/// What is wrong with label `l` in `s`: it is bound twice, or it is
/// branched to and never bound.
pub open spec fn label_defect(s: Seq<Instruction>, l: usize) -> Option<Exception> {
    if bound_twice(s, l) {
        Some(Exception::LabelBoundTwice { label: l })
    } else if referenced(s, l) && !bound(s, l) {
        Some(Exception::UnboundLabel { label: l })
    } else {
        None
    }
}

/// Whether every label of `s` is in order: none is bound twice, and every
/// one that is branched to is bound.
pub open spec fn sound(s: Seq<Instruction>) -> bool {
    forall|l: usize| (#[trigger] label_defect(s, l)) is None
}

/// The state of a function under construction, as mathematics.
#[verifier::ext_equal]
pub struct FunctionModel {
    /// The identifier that the function's values and labels carry.
    pub id: u64,
    pub abi: Abi,
    pub return_type: JitType,
    /// The declared parameter types, in order.
    pub params: Seq<JitType>,
    /// The table of values; the parameters come first.
    pub values: Seq<ValueInfo>,
    /// The instruction stream.
    pub instructions: Seq<Instruction>,
    /// The arguments of all native calls, call after call.
    pub call_args: Seq<usize>,
    /// The table of labels.
    pub labels: Seq<LabelInfo>,
    /// Whether the function was compiled.
    pub compiled: bool,
}

impl FunctionModel {
    /// Whether `v` is a value of this function: it carries the function's
    /// identifier and names an entry of the table of values, with that
    /// entry's type.
    pub open spec fn owns(self, v: Value) -> bool {
        v.owner == self.id && v.index < self.values.len() && self.values[v.index as int].jit_type
            == v.jit_type
    }

    /// Whether this function may use `label`: no function has numbered it
    /// yet, or it carries this function's identifier and one of its numbers.
    pub open spec fn owns_label(self, label: LabelView) -> bool {
        label.assigned ==> label.owner == self.id && label.number < self.labels.len()
    }

    /// Whether instruction `k` may read value `v`: the value is a parameter
    /// or an earlier instruction defines it.
    pub open spec fn available(self, v: usize, k: int) -> bool {
        v < self.values.len() && match self.values[v as int].definition {
            None => true,
            Some(j) => j < k,
        }
    }

    /// Whether instruction `k` defines value `dest` of type `jit_type`.
    pub open spec fn defines(self, k: int, dest: usize, jit_type: JitType) -> bool {
        dest < self.values.len() && self.values[dest as int].definition == Some(k as usize)
            && self.values[dest as int].jit_type == jit_type
    }

    /// Whether entry `v` of the table of values is in order.
    pub open spec fn value_wf(self, v: int) -> bool {
        let info = self.values[v];
        &&& info.stored matches Some(t) ==> !t.spec_is_void()
        &&& if v < self.params.len() {
            info.jit_type == self.params[v] && info.definition is None
        } else {
            info.definition matches Some(k) && k < self.instructions.len()
                && self.instructions[k as int].spec_dest() == Some(v as usize)
        }
    }

    /// Whether instruction `k` is in order: it reads values that are
    /// there before it, of types that go together, and defines a value of
    /// the type that its operation gives.
    pub open spec fn instruction_wf(self, k: int) -> bool {
        match self.instructions[k] {
            Instruction::Const { dest, constant } => self.defines(k, dest, constant.spec_type()),
            Instruction::Binary { op, dest, left, right } => {
                &&& self.available(left, k)
                &&& self.available(right, k)
                &&& self.values[left as int].jit_type == self.values[right as int].jit_type
                &&& !self.values[left as int].jit_type.spec_is_void()
                &&& self.defines(k, dest, result_type(op, self.values[left as int].jit_type))
            },
            Instruction::Alloca { dest, size } => {
                &&& 0 <= size
                &&& self.defines(k, dest, JitType { kind: Kind::Void, depth: 1 })
            },
            Instruction::Load { dest, address } => {
                &&& self.available(address, k)
                &&& self.values[address as int].jit_type.spec_is_pointer()
                &&& dest < self.values.len()
                &&& self.defines(k, dest, self.values[dest as int].jit_type)
                &&& !self.values[dest as int].jit_type.spec_is_void()
                &&& !self.values[address as int].jit_type.spec_is_void_pointer()
                    ==> self.values[dest as int].jit_type
                    == self.values[address as int].jit_type.spec_pointee()
            },
            Instruction::Store { address, value } => {
                &&& self.available(address, k)
                &&& self.available(value, k)
                &&& self.values[address as int].jit_type.spec_is_pointer()
                &&& !self.values[value as int].jit_type.spec_is_void()
                &&& !self.values[address as int].jit_type.spec_is_void_pointer()
                    ==> self.values[value as int].jit_type
                    == self.values[address as int].jit_type.spec_pointee()
            },
            Instruction::Branch { target } => target < self.labels.len(),
            Instruction::BranchIf { condition, target } => {
                &&& target < self.labels.len()
                &&& self.available(condition, k)
                &&& !self.values[condition as int].jit_type.spec_is_void()
            },
            Instruction::BranchIfNot { condition, target } => {
                &&& target < self.labels.len()
                &&& self.available(condition, k)
                &&& !self.values[condition as int].jit_type.spec_is_void()
            },
            Instruction::Bind { label } => label < self.labels.len(),
            Instruction::CallNative { dest, function, first_arg, arg_count, return_type } => {
                &&& first_arg + arg_count <= self.call_args.len()
                &&& forall|j: int|
                    first_arg <= j < first_arg + arg_count ==> #[trigger] self.argument_wf(j, k)
                &&& self.defines(k, dest, return_type)
            },
            Instruction::Return { value } => {
                &&& self.available(value, k)
                &&& !self.values[value as int].jit_type.spec_is_void()
                &&& !self.return_type.spec_is_void()
            },
            Instruction::ReturnVoid => self.return_type.spec_is_void(),
        }
    }

    /// Whether instruction `k` reads value `v`.
    pub open spec fn reads(self, k: int, v: usize) -> bool {
        match self.instructions[k] {
            Instruction::Binary { left, right, .. } => v == left || v == right,
            Instruction::Load { address, .. } => v == address,
            Instruction::Store { address, value } => v == address || v == value,
            Instruction::BranchIf { condition, .. } => v == condition,
            Instruction::BranchIfNot { condition, .. } => v == condition,
            Instruction::CallNative { first_arg, arg_count, .. } => exists|j: int|
                first_arg <= j < first_arg + arg_count && #[trigger] self.call_args[j] == v,
            Instruction::Return { value } => v == value,
            _ => false,
        }
    }

    /// Whether entry `j` of the table of call arguments is a value that
    /// instruction `k` may pass.
    pub open spec fn argument_wf(self, j: int, k: int) -> bool {
        self.available(self.call_args[j], k) && !self.values[self.call_args[j] as int].jit_type.spec_is_void()
    }

    /// Whether entry `l` of the table of labels says what the instruction
    /// stream holds.
    pub open spec fn label_wf(self, l: usize) -> bool {
        let s = self.instructions;
        let info = self.labels[l as int];
        &&& match info.binding {
            Binding::Unbound => forall|k: int| !#[trigger] binds_at(s, k, l),
            Binding::BoundAt { position } => {
                &&& binds_at(s, position as int, l)
                &&& forall|k: int| #[trigger] binds_at(s, k, l) ==> k == position
            },
            Binding::BoundTwice { first, second } => {
                &&& first != second
                &&& binds_at(s, first as int, l)
                &&& binds_at(s, second as int, l)
            },
        }
        &&& match info.reference {
            None => forall|k: int| !#[trigger] targets_at(s, k, l),
            Some(r) => targets_at(s, r as int, l),
        }
    }

    /// Whether the tables fit in memory.
    pub open spec fn bounded(self) -> bool {
        &&& self.params.len() <= self.values.len() <= usize::MAX
        &&& self.instructions.len() <= usize::MAX
        &&& self.call_args.len() <= usize::MAX
        &&& self.labels.len() <= usize::MAX
    }

    /// The invariant of a function under construction.
    pub open spec fn wf(self) -> bool {
        &&& self.bounded()
        &&& forall|v: int| 0 <= v < self.values.len() ==> #[trigger] self.value_wf(v)
        &&& forall|k: int| 0 <= k < self.instructions.len() ==> #[trigger] self.instruction_wf(k)
        &&& forall|l: usize| l < self.labels.len() ==> #[trigger] self.label_wf(l)
        &&& self.compiled ==> sound(self.instructions)
    }

    /// The state of a function that was just created.
    pub open spec fn initial(id: u64, abi: Abi, return_type: JitType, params: Seq<JitType>) -> Self {
        FunctionModel {
            id,
            abi,
            return_type,
            params,
            values: Seq::new(
                params.len(),
                |i: int| ValueInfo { jit_type: params[i], definition: None, stored: None },
            ),
            instructions: Seq::empty(),
            call_args: Seq::empty(),
            labels: Seq::empty(),
            compiled: false,
        }
    }

    /// The type under which the native call at place `k` calls: the C
    /// calling convention, the return type of the call, and the types of
    /// its arguments in order. Meaningful where instruction `k` is a native
    /// call.
    pub open spec fn call_signature(self, k: int) -> SignatureView {
        match self.instructions[k] {
            Instruction::CallNative { first_arg, arg_count, return_type, .. } => SignatureView {
                abi: Abi::Cdecl,
                return_type,
                params: Seq::new(
                    arg_count as nat,
                    |i: int| self.values[self.call_args[first_arg + i] as int].jit_type,
                ),
            },
            _ => SignatureView { abi: Abi::Cdecl, return_type: self.return_type, params: Seq::empty() },
        }
    }

    /// The handle of the value at place `index`.
    pub open spec fn value_at(self, index: int) -> Value {
        Value { owner: self.id, index: index as usize, jit_type: self.values[index].jit_type }
    }

    /// The handle of the value that the next defining instruction makes.
    pub open spec fn next_value(self, jit_type: JitType) -> Value {
        Value { owner: self.id, index: self.values.len() as usize, jit_type }
    }

    /// The state after an instruction that defines a value of type
    /// `jit_type`.
    pub open spec fn define(self, jit_type: JitType, instruction: Instruction) -> Self {
        FunctionModel {
            values: self.values.push(
                ValueInfo {
                    jit_type,
                    definition: Some(self.instructions.len() as usize),
                    stored: None,
                },
            ),
            instructions: self.instructions.push(instruction),
            ..self
        }
    }

    /// The state after an instruction that defines no value.
    pub open spec fn append(self, instruction: Instruction) -> Self {
        FunctionModel { instructions: self.instructions.push(instruction), ..self }
    }
}

/// The type of what `op` gives on operands of type `operand`: the operand
/// type for arithmetic, the 32-bit integer for a comparison.
pub open spec fn result_type(op: BinaryOp, operand: JitType) -> JitType {
    if op == BinaryOp::Eq {
        JitType { kind: Kind::Int, depth: 0 }
    } else {
        operand
    }
}

} // verus!
