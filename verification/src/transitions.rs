use vstd::prelude::*;
use crate::constant::Constant;
use crate::instruction::{BinaryOp, Instruction};
use crate::jit_type::{JitType, Kind};
use crate::label::Label;
use crate::model::{
    binds_at, result_type, sound, targets_at, Binding, FunctionModel, LabelInfo, ValueInfo,
};
use crate::value::Value;

verus! {

impl FunctionModel {
    /// Whether `self` is `old` with more at the end of its tables: what
    /// `old` held is still there, in place, with its type and definition.
    pub open spec fn extends(self, old: Self) -> bool {
        &&& self.id == old.id
        &&& self.abi == old.abi
        &&& self.return_type == old.return_type
        &&& self.params == old.params
        &&& old.values.len() <= self.values.len()
        &&& forall|v: int|
            0 <= v < old.values.len() ==> (#[trigger] self.values[v]).jit_type
                == old.values[v].jit_type && self.values[v].definition == old.values[v].definition
        &&& old.instructions.len() <= self.instructions.len()
        &&& forall|k: int|
            0 <= k < old.instructions.len() ==> #[trigger] self.instructions[k]
                == old.instructions[k]
        &&& old.call_args.len() <= self.call_args.len()
        &&& forall|j: int|
            0 <= j < old.call_args.len() ==> #[trigger] self.call_args[j] == old.call_args[j]
        &&& old.labels.len() <= self.labels.len()
    }

    /// Whether `self` holds for every value what `old` knew was stored
    /// through it, or something that is not void, and nothing for a value
    /// that `old` did not have.
    pub open spec fn keeps_stored(self, old: Self) -> bool {
        forall|v: int|
            0 <= v < self.values.len() ==> match (#[trigger] self.values[v]).stored {
                None => true,
                Some(t) => !t.spec_is_void() || (v < old.values.len() && old.values[v].stored
                    == Some(t)),
            }
    }

    /// An instruction that was in order stays in order when the tables grow.
    pub proof fn lemma_instruction_stays(self, old: Self, k: int)
        requires
            self.extends(old),
            0 <= k < old.instructions.len(),
            old.instruction_wf(k),
        ensures
            self.instruction_wf(k),
    {
        match old.instructions[k] {
            Instruction::CallNative { dest, function, first_arg, arg_count, return_type } => {
                assert forall|j: int| first_arg <= j < first_arg + arg_count implies #[trigger] self.argument_wf(j, k) by {
                    assert(old.argument_wf(j, k));
                }
            },
            _ => {},
        }
    }

    /// One more instruction, which neither binds a label nor branches,
    /// keeps the invariant, where the new instruction is in order and the
    /// table of values grew by what it defines.
    pub proof fn lemma_step(self, old: Self, instruction: Instruction)
        requires
            old.wf(),
            !old.compiled,
            !self.compiled,
            self.extends(old),
            self.bounded(),
            self.instructions == old.instructions.push(instruction),
            self.labels == old.labels,
            instruction.spec_binds() is None,
            instruction.spec_target() is None,
            self.instruction_wf(old.instructions.len() as int),
            match instruction.spec_dest() {
                Some(dest) => dest == old.values.len() && self.values.len() == dest + 1,
                None => self.values.len() == old.values.len(),
            },
            self.keeps_stored(old),
        ensures
            self.wf(),
    {
        let n = old.instructions.len() as int;
        assert forall|v: int| 0 <= v < self.values.len() implies #[trigger] self.value_wf(v) by {
            if v < old.values.len() {
                assert(old.value_wf(v));
            }
        }
        assert forall|k: int| 0 <= k < self.instructions.len() implies #[trigger] self.instruction_wf(k) by {
            if k < n {
                assert(old.instruction_wf(k));
                self.lemma_instruction_stays(old, k);
            }
        }
        assert forall|l: usize| l < self.labels.len() implies #[trigger] self.label_wf(l) by {
            assert(old.label_wf(l));
            self.lemma_label_stays(old, instruction, l);
        }
    }

    /// A label that the new instruction does not touch stays in order.
    pub proof fn lemma_label_stays(self, old: Self, instruction: Instruction, l: usize)
        requires
            self.instructions == old.instructions.push(instruction),
            l < old.labels.len(),
            l < self.labels.len(),
            self.labels[l as int] == old.labels[l as int],
            old.label_wf(l),
            instruction.spec_binds() != Some(l),
            instruction.spec_target() != Some(l),
        ensures
            self.label_wf(l),
    {
        let s = self.instructions;
        let o = old.instructions;
        assert forall|k: int| #[trigger] binds_at(s, k, l) implies binds_at(o, k, l) by {}
        assert forall|k: int| #[trigger] targets_at(s, k, l) implies targets_at(o, k, l) by {}
        match old.labels[l as int].binding {
            Binding::Unbound => {},
            Binding::BoundAt { position } => {
                assert(binds_at(o, position as int, l));
            },
            Binding::BoundTwice { first, second } => {
                assert(binds_at(o, first as int, l));
                assert(binds_at(o, second as int, l));
            },
        }
        match old.labels[l as int].reference {
            None => {},
            Some(r) => {
                assert(targets_at(o, r as int, l));
            },
        }
    }
}

impl FunctionModel {
    /// Whether the function still takes instructions.
    pub open spec fn building(self) -> bool {
        !self.compiled
    }

    /// The state after a literal was loaded.
    pub open spec fn emit_constant(self, constant: Constant) -> Self {
        self.define(
            constant.spec_type(),
            Instruction::Const { dest: self.values.len() as usize, constant },
        )
    }

    /// Whether `left` and `right` can be the operands of one operation:
    /// both are values of this function, of one type, and that type is not
    /// void.
    pub open spec fn compatible(self, left: Value, right: Value) -> bool {
        &&& self.owns(left)
        &&& self.owns(right)
        &&& left.jit_type == right.jit_type
        &&& !left.jit_type.spec_is_void()
    }

    /// The state after `op` was applied to `left` and `right`.
    pub open spec fn emit_binary(self, op: BinaryOp, left: Value, right: Value) -> Self {
        self.define(
            result_type(op, left.jit_type),
            Instruction::Binary {
                op,
                dest: self.values.len() as usize,
                left: left.index,
                right: right.index,
            },
        )
    }

    /// Whether `v` is a value that a literal zero was loaded into.
    pub open spec fn zero_constant(self, v: Value) -> bool {
        &&& v.index < self.values.len()
        &&& self.values[v.index as int].definition matches Some(k)
        &&& k < self.instructions.len()
        &&& self.instructions[k as int] matches Instruction::Const { constant, .. }
        &&& constant.spec_is_zero()
    }

    /// The state after `size` bytes of local storage were reserved.
    pub open spec fn emit_alloca(self, size: i64) -> Self {
        self.define(
            JitType { kind: Kind::Void, depth: 1 },
            Instruction::Alloca { dest: self.values.len() as usize, size },
        )
    }

    /// Whether a load through `ptr` has a type: `ptr` is a value of this
    /// function and a pointer, and where it points to void, something was
    /// stored through it before.
    pub open spec fn loadable(self, ptr: Value) -> bool {
        &&& self.owns(ptr)
        &&& ptr.jit_type.spec_is_pointer()
        &&& ptr.jit_type.spec_is_void_pointer() ==> self.values[ptr.index as int].stored is Some
    }

    /// The type of what a load through `ptr` gives: the type behind the
    /// pointer, and for a pointer to void the type of what was last stored
    /// through it.
    pub open spec fn load_type(self, ptr: Value) -> JitType {
        if ptr.jit_type.spec_is_void_pointer() {
            self.values[ptr.index as int].stored->Some_0
        } else {
            ptr.jit_type.spec_pointee()
        }
    }

    /// The state after a load through `ptr`.
    pub open spec fn emit_load(self, ptr: Value) -> Self {
        self.define(
            self.load_type(ptr),
            Instruction::Load { dest: self.values.len() as usize, address: ptr.index },
        )
    }

    /// Whether `value` can be stored through `ptr`: both are values of this
    /// function, `ptr` is a pointer, `value` is not void, and where `ptr`
    /// points to a type, `value` has that type.
    pub open spec fn storable(self, ptr: Value, value: Value) -> bool {
        &&& self.owns(ptr)
        &&& self.owns(value)
        &&& ptr.jit_type.spec_is_pointer()
        &&& !value.jit_type.spec_is_void()
        &&& !ptr.jit_type.spec_is_void_pointer() ==> value.jit_type == ptr.jit_type.spec_pointee()
    }

    /// The state after `value` was stored through `ptr`.
    pub open spec fn emit_store(self, ptr: Value, value: Value) -> Self {
        FunctionModel {
            values: if ptr.jit_type.spec_is_void_pointer() {
                self.values.update(
                    ptr.index as int,
                    ValueInfo {
                        stored: Some(value.jit_type),
                        ..self.values[ptr.index as int]
                    },
                )
            } else {
                self.values
            },
            instructions: self.instructions.push(
                Instruction::Store { address: ptr.index, value: value.index },
            ),
            ..self
        }
    }

    /// Whether `value` can be returned: it is a value of this function and
    /// not void, and the function does not return void.
    pub open spec fn returnable(self, value: Value) -> bool {
        &&& self.owns(value)
        &&& !value.jit_type.spec_is_void()
        &&& !self.return_type.spec_is_void()
    }

    /// The state after a return of `value`.
    pub open spec fn emit_return(self, value: Value) -> Self {
        self.append(Instruction::Return { value: value.index })
    }

    /// The state after a return without a value.
    pub open spec fn emit_return_void(self) -> Self {
        self.append(Instruction::ReturnVoid)
    }

    /// Whether `args` can be passed to a native function: each is a value
    /// of this function and not void.
    pub open spec fn passable(self, args: Seq<Value>) -> bool {
        forall|i: int|
            0 <= i < args.len() ==> self.owns(#[trigger] args[i]) && !args[i].jit_type.spec_is_void()
    }

    /// The state after a call of the native function at address `function`
    /// with `args`, which returns a `return_type`.
    pub open spec fn emit_call_native(
        self,
        function: usize,
        args: Seq<Value>,
        return_type: JitType,
    ) -> Self {
        FunctionModel {
            values: self.values.push(
                ValueInfo {
                    jit_type: return_type,
                    definition: Some(self.instructions.len() as usize),
                    stored: None,
                },
            ),
            instructions: self.instructions.push(
                Instruction::CallNative {
                    dest: self.values.len() as usize,
                    function,
                    first_arg: self.call_args.len() as usize,
                    arg_count: args.len() as usize,
                    return_type,
                },
            ),
            call_args: self.call_args + Seq::new(args.len(), |i: int| args[i].index),
            ..self
        }
    }

    /// The state after a successful compilation.
    pub open spec fn finish(self) -> Self {
        FunctionModel { compiled: true, ..self }
    }

    /// A value of this function was defined before any instruction that
    /// is yet to come.
    pub proof fn lemma_owned_is_available(self, v: Value)
        requires
            self.wf(),
            self.owns(v),
        ensures
            self.available(v.index, self.instructions.len() as int),
    {
        assert(self.value_wf(v.index as int));
    }

    /// Loading a literal keeps the invariant.
    pub proof fn lemma_emit_constant(self, constant: Constant)
        requires
            self.wf(),
            self.building(),
            self.values.len() < usize::MAX,
            self.instructions.len() < usize::MAX,
        ensures
            self.emit_constant(constant).wf(),
    {
        let new = self.emit_constant(constant);
        new.lemma_step(self, Instruction::Const { dest: self.values.len() as usize, constant });
    }

    /// An operation on two operands that go together keeps the invariant.
    pub proof fn lemma_emit_binary(self, op: BinaryOp, left: Value, right: Value)
        requires
            self.wf(),
            self.building(),
            self.compatible(left, right),
            self.values.len() < usize::MAX,
            self.instructions.len() < usize::MAX,
        ensures
            self.emit_binary(op, left, right).wf(),
    {
        let new = self.emit_binary(op, left, right);
        self.lemma_owned_is_available(left);
        self.lemma_owned_is_available(right);
        new.lemma_step(
            self,
            Instruction::Binary {
                op,
                dest: self.values.len() as usize,
                left: left.index,
                right: right.index,
            },
        );
    }

    /// Reserving local storage keeps the invariant.
    pub proof fn lemma_emit_alloca(self, size: i64)
        requires
            self.wf(),
            self.building(),
            0 <= size,
            self.values.len() < usize::MAX,
            self.instructions.len() < usize::MAX,
        ensures
            self.emit_alloca(size).wf(),
    {
        let new = self.emit_alloca(size);
        new.lemma_step(self, Instruction::Alloca { dest: self.values.len() as usize, size });
    }

    /// A load through a pointer that has a type behind it keeps the
    /// invariant, and what it reads is not void.
    pub proof fn lemma_emit_load(self, ptr: Value)
        requires
            self.wf(),
            self.building(),
            self.loadable(ptr),
            self.values.len() < usize::MAX,
            self.instructions.len() < usize::MAX,
        ensures
            self.emit_load(ptr).wf(),
            !self.load_type(ptr).spec_is_void(),
    {
        let new = self.emit_load(ptr);
        self.lemma_owned_is_available(ptr);
        assert(self.value_wf(ptr.index as int));
        new.lemma_step(
            self,
            Instruction::Load { dest: self.values.len() as usize, address: ptr.index },
        );
    }

    /// A store of a value that the pointer takes keeps the invariant.
    pub proof fn lemma_emit_store(self, ptr: Value, value: Value)
        requires
            self.wf(),
            self.building(),
            self.storable(ptr, value),
            self.instructions.len() < usize::MAX,
        ensures
            self.emit_store(ptr, value).wf(),
    {
        let new = self.emit_store(ptr, value);
        self.lemma_owned_is_available(ptr);
        self.lemma_owned_is_available(value);
        new.lemma_step(self, Instruction::Store { address: ptr.index, value: value.index });
    }

    /// A return of a value keeps the invariant.
    pub proof fn lemma_emit_return(self, value: Value)
        requires
            self.wf(),
            self.building(),
            self.returnable(value),
            self.instructions.len() < usize::MAX,
        ensures
            self.emit_return(value).wf(),
    {
        let new = self.emit_return(value);
        self.lemma_owned_is_available(value);
        new.lemma_step(self, Instruction::Return { value: value.index });
    }

    /// A return without a value, from a function that returns void, keeps
    /// the invariant.
    pub proof fn lemma_emit_return_void(self)
        requires
            self.wf(),
            self.building(),
            self.return_type.spec_is_void(),
            self.instructions.len() < usize::MAX,
        ensures
            self.emit_return_void().wf(),
    {
        let new = self.emit_return_void();
        new.lemma_step(self, Instruction::ReturnVoid);
    }

    /// A native call with arguments that can be passed keeps the invariant.
    pub proof fn lemma_emit_call_native(
        self,
        function: usize,
        args: Seq<Value>,
        return_type: JitType,
    )
        requires
            self.wf(),
            self.building(),
            self.passable(args),
            self.values.len() < usize::MAX,
            self.instructions.len() < usize::MAX,
            self.call_args.len() + args.len() <= usize::MAX,
        ensures
            self.emit_call_native(function, args, return_type).wf(),
    {
        let new = self.emit_call_native(function, args, return_type);
        let n = self.instructions.len() as int;
        let first = self.call_args.len() as int;
        assert forall|j: int| first <= j < first + args.len() implies #[trigger] new.argument_wf(j, n) by {
            let a = args[j - first];
            assert(new.call_args[j] == a.index);
            self.lemma_owned_is_available(a);
        }
        new.lemma_step(
            self,
            Instruction::CallNative {
                dest: self.values.len() as usize,
                function,
                first_arg: self.call_args.len() as usize,
                arg_count: args.len() as usize,
                return_type,
            },
        );
    }
}

} // verus!
