use vstd::prelude::*;
use crate::abi::Abi;
use crate::constant::{Constant, Literal};
use crate::exception::{arg_index_text, describe_arg_index, Exception};
use crate::instruction::{BinaryOp, Instruction};
use crate::jit_type::{JitType, Kind};
use crate::label::Label;
use crate::model::{label_defect, sound, Binding, FunctionModel, LabelInfo, ValueInfo};
use crate::signature::{copy_types, Signature, SignatureView};
use crate::value::Value;

verus! {

/// Whether `e` is what is wrong with label number `l` of `s`, and no label
/// of a lower number has anything wrong with it.
pub open spec fn is_first_defect(s: Seq<Instruction>, l: usize, e: Exception) -> bool {
    label_defect(s, l) == Some(e) && forall|j: usize| j < l ==> (#[trigger] label_defect(s, j))
        is None
}

/// The label that an error of compilation is about.
pub open spec fn label_of(e: Exception) -> Option<usize> {
    match e {
        Exception::UnboundLabel { label } => Some(label),
        Exception::LabelBoundTwice { label } => Some(label),
        _ => None,
    }
}

/// The type that a call returns: the one given, or void where none is.
pub open spec fn return_type_of(return_type: Option<JitType>) -> JitType {
    match return_type {
        Some(t) => t,
        None => JitType { kind: Kind::Void, depth: 0 },
    }
}

/// A function under construction: declared parameter and return types, an
/// append-only stream of instructions, and the tables of the values and
/// labels that the instructions name.
pub struct Function {
    id: u64,
    abi: Abi,
    return_type: JitType,
    params: Vec<JitType>,
    values: Vec<ValueInfo>,
    instructions: Vec<Instruction>,
    call_args: Vec<usize>,
    labels: Vec<LabelInfo>,
    compiled: bool,
}

impl View for Function {
    type V = FunctionModel;

    closed spec fn view(&self) -> FunctionModel {
        FunctionModel {
            id: self.id,
            abi: self.abi,
            return_type: self.return_type,
            params: self.params@,
            values: self.values@,
            instructions: self.instructions@,
            call_args: self.call_args@,
            labels: self.labels@,
            compiled: self.compiled,
        }
    }
}

impl Function {
    /// The invariant of a function under construction.
    pub open spec fn wf(&self) -> bool {
        self@.wf()
    }

    /// Makes an empty function with the identifier `id`.
    pub(crate) fn new(id: u64, abi: Abi, return_type: JitType, params: Vec<JitType>) -> (f: Function)
        ensures
            f.wf(),
            f@ == FunctionModel::initial(id, abi, return_type, params@),
    {
        let mut values: Vec<ValueInfo> = Vec::new();
        let mut i: usize = 0;
        while i < params.len()
            invariant
                i <= params.len(),
                values@.len() == i,
                forall|j: int|
                    0 <= j < i ==> (#[trigger] values@[j]).jit_type == params@[j]
                        && values@[j].definition is None && values@[j].stored is None,
            decreases params.len() - i,
        {
            values.push(ValueInfo { jit_type: params[i], definition: None, stored: None });
            i = i + 1;
        }
        let f = Function {
            id,
            abi,
            return_type,
            params,
            values,
            instructions: Vec::new(),
            call_args: Vec::new(),
            labels: Vec::new(),
            compiled: false,
        };
        proof {
            let m = FunctionModel::initial(id, abi, return_type, f.params@);
            assert(f@.values =~= m.values);
            assert(f@ =~= m);
            assert forall|v: int| 0 <= v < m.values.len() implies #[trigger] m.value_wf(v) by {}
        }
        f
    }

    /// Returns the identifier that the function's values and labels carry.
    pub fn id(&self) -> (id: u64)
        ensures
            id == self@.id,
    {
        self.id
    }

    /// Returns the calling convention of the function.
    pub fn abi(&self) -> (abi: Abi)
        ensures
            abi == self@.abi,
    {
        self.abi
    }

    /// Returns the declared return type.
    pub fn return_type(&self) -> (t: JitType)
        ensures
            t == self@.return_type,
    {
        self.return_type
    }

    /// Returns the declared parameter types, in order.
    pub fn params(&self) -> (p: &Vec<JitType>)
        ensures
            p@ == self@.params,
    {
        &self.params
    }

    /// Returns the instruction stream.
    pub fn instructions(&self) -> (s: &Vec<Instruction>)
        ensures
            s@ == self@.instructions,
    {
        &self.instructions
    }

    /// Returns the arguments of all native calls, call after call.
    pub fn call_arguments(&self) -> (a: &Vec<usize>)
        ensures
            a@ == self@.call_args,
    {
        &self.call_args
    }

    /// Returns the table of values.
    pub fn values(&self) -> (v: &Vec<ValueInfo>)
        ensures
            v@ == self@.values,
    {
        &self.values
    }

    /// Returns the table of labels.
    pub fn labels(&self) -> (l: &Vec<LabelInfo>)
        ensures
            l@ == self@.labels,
    {
        &self.labels
    }

    /// Returns whether the function was compiled.
    pub fn is_compiled(&self) -> (b: bool)
        ensures
            b == self@.compiled,
    {
        self.compiled
    }

    /// Returns whether `value` is a value of this function.
    pub fn owns(&self, value: &Value) -> (b: bool)
        ensures
            b == self@.owns(*value),
    {
        value.owner == self.id && value.index < self.values.len()
            && self.values[value.index].jit_type == value.jit_type
    }

    /// Returns whether this function may use `label`.
    pub fn owns_label(&self, label: &Label) -> (b: bool)
        ensures
            b == self@.owns_label(label@),
    {
        match label.number() {
            None => true,
            Some(number) => label.owner() == Some(self.id) && number < self.labels.len(),
        }
    }

    /// Returns the value of the declared parameter at `idx`, and the error
    /// `ArgIndexTooLarge` where the function declares no such parameter: the
    /// error's text names the number of parameters and `idx`.
    pub fn arg(&self, idx: i32) -> (r: Result<Value, Exception>)
        requires
            self.wf(),
        ensures
            match r {
                Ok(v) => {
                    &&& 0 <= idx < self@.params.len()
                    &&& v == self@.value_at(idx as int)
                    &&& v.jit_type == self@.params[idx as int]
                    &&& self@.owns(v)
                },
                Err(e) => {
                    &&& !(0 <= idx < self@.params.len())
                    &&& e matches Exception::ArgIndexTooLarge(text)
                    &&& text@ == arg_index_text(self@.params.len() as usize, idx)
                },
            },
    {
        if idx >= 0 && (idx as usize) < self.params.len() {
            let index = idx as usize;
            proof {
                assert(self@.value_wf(index as int));
            }
            Ok(Value { owner: self.id, index, jit_type: self.params[index] })
        } else {
            Err(Exception::ArgIndexTooLarge(describe_arg_index(self.params.len(), idx)))
        }
    }

    /// Appends `instruction`, which defines a new value of type `jit_type`.
    fn define(&mut self, jit_type: JitType, instruction: Instruction) -> (v: Value)
        ensures
            final(self)@ == old(self)@.define(jit_type, instruction),
            v == old(self)@.next_value(jit_type),
            old(self)@.values.len() < usize::MAX,
            old(self)@.instructions.len() < usize::MAX,
    {
        let index = self.values.len();
        let at = self.instructions.len();
        self.values.push(ValueInfo { jit_type, definition: Some(at), stored: None });
        self.instructions.push(instruction);
        proof {
            assert(self.values.len() <= usize::MAX);
            assert(self.instructions.len() <= usize::MAX);
            assert(self@ =~= old(self)@.define(jit_type, instruction));
        }
        Value { owner: self.id, index, jit_type }
    }

    /// Appends `instruction`, which defines no value.
    fn append(&mut self, instruction: Instruction)
        ensures
            final(self)@ == old(self)@.append(instruction),
            old(self)@.instructions.len() < usize::MAX,
    {
        self.instructions.push(instruction);
        proof {
            assert(self.instructions.len() <= usize::MAX);
            assert(self@ =~= old(self)@.append(instruction));
        }
    }

    /// Appends an instruction that loads `constant`, and returns the value
    /// that holds it.
    pub fn create_constant(&mut self, constant: Constant) -> (v: Value)
        requires
            old(self).wf(),
            old(self)@.building(),
        ensures
            final(self).wf(),
            final(self)@ == old(self)@.emit_constant(constant),
            v == old(self)@.next_value(constant.spec_type()),
            final(self)@.owns(v),
    {
        let dest = self.values.len();
        let v = self.define(constant.constant_type(), Instruction::Const { dest, constant });
        proof {
            old(self)@.lemma_emit_constant(constant);
        }
        v
    }

    /// Appends the instruction that applies `op` to `left` and `right`.
    fn binary(&mut self, op: BinaryOp, left: &Value, right: &Value) -> (v: Value)
        requires
            old(self).wf(),
            old(self)@.building(),
            old(self)@.compatible(*left, *right),
        ensures
            final(self).wf(),
            final(self)@ == old(self)@.emit_binary(op, *left, *right),
            v == old(self)@.next_value(crate::model::result_type(op, left.jit_type)),
            final(self)@.owns(v),
    {
        let dest = self.values.len();
        let jit_type = match op {
            BinaryOp::Eq => JitType::new(Kind::Int),
            _ => left.jit_type,
        };
        let v = self.define(
            jit_type,
            Instruction::Binary { op, dest, left: left.index, right: right.index },
        );
        proof {
            old(self)@.lemma_emit_binary(op, *left, *right);
        }
        v
    }

    /// Returns whether `left` and `right` can be the operands of one
    /// operation.
    pub fn compatible(&self, left: &Value, right: &Value) -> (b: bool)
        ensures
            b == self@.compatible(*left, *right),
    {
        self.owns(left) && self.owns(right) && left.jit_type == right.jit_type
            && !left.jit_type.is_void()
    }

    /// Appends an addition and returns its result, of the operands' type.
    pub fn insn_add(&mut self, left: &Value, right: &Value) -> (v: Value)
        requires
            old(self).wf(),
            old(self)@.building(),
            old(self)@.compatible(*left, *right),
        ensures
            final(self).wf(),
            final(self)@ == old(self)@.emit_binary(BinaryOp::Add, *left, *right),
            v == old(self)@.next_value(left.jit_type),
            final(self)@.owns(v),
    {
        self.binary(BinaryOp::Add, left, right)
    }

    /// Appends a subtraction and returns its result, of the operands' type.
    pub fn insn_sub(&mut self, left: &Value, right: &Value) -> (v: Value)
        requires
            old(self).wf(),
            old(self)@.building(),
            old(self)@.compatible(*left, *right),
        ensures
            final(self).wf(),
            final(self)@ == old(self)@.emit_binary(BinaryOp::Sub, *left, *right),
            v == old(self)@.next_value(left.jit_type),
            final(self)@.owns(v),
    {
        self.binary(BinaryOp::Sub, left, right)
    }

    /// Appends a multiplication and returns its result, of the operands'
    /// type.
    pub fn insn_mult(&mut self, left: &Value, right: &Value) -> (v: Value)
        requires
            old(self).wf(),
            old(self)@.building(),
            old(self)@.compatible(*left, *right),
        ensures
            final(self).wf(),
            final(self)@ == old(self)@.emit_binary(BinaryOp::Mul, *left, *right),
            v == old(self)@.next_value(left.jit_type),
            final(self)@.owns(v),
    {
        self.binary(BinaryOp::Mul, left, right)
    }

    /// Returns whether `value` is a value that a literal zero was loaded
    /// into.
    pub fn is_zero_constant(&self, value: &Value) -> (b: bool)
        requires
            self.wf(),
        ensures
            b == self@.zero_constant(*value),
    {
        if value.index >= self.values.len() {
            return false;
        }
        match self.values[value.index].definition {
            None => false,
            Some(k) => {
                proof {
                    assert(self@.value_wf(value.index as int));
                }
                match self.instructions[k] {
                    Instruction::Const { dest, constant } => constant.is_zero(),
                    _ => false,
                }
            },
        }
    }

    /// Appends a division and returns its result, of the operands' type.
    /// A divisor that is a literal zero is refused: the caller must not
    /// pass one.
    pub fn insn_div(&mut self, left: &Value, right: &Value) -> (v: Value)
        requires
            old(self).wf(),
            old(self)@.building(),
            old(self)@.compatible(*left, *right),
            !old(self)@.zero_constant(*right),
        ensures
            final(self).wf(),
            final(self)@ == old(self)@.emit_binary(BinaryOp::Div, *left, *right),
            v == old(self)@.next_value(left.jit_type),
            final(self)@.owns(v),
    {
        self.binary(BinaryOp::Div, left, right)
    }

    /// Appends a test for equality and returns its result, a 32-bit
    /// integer that holds the truth value.
    pub fn insn_eq(&mut self, left: &Value, right: &Value) -> (v: Value)
        requires
            old(self).wf(),
            old(self)@.building(),
            old(self)@.compatible(*left, *right),
        ensures
            final(self).wf(),
            final(self)@ == old(self)@.emit_binary(BinaryOp::Eq, *left, *right),
            v == old(self)@.next_value(JitType { kind: Kind::Int, depth: 0 }),
            final(self)@.owns(v),
    {
        self.binary(BinaryOp::Eq, left, right)
    }

    /// Appends an instruction that reserves `size` bytes of local storage,
    /// and returns a pointer to void that holds their address.
    pub fn alloca(&mut self, size: i64) -> (v: Value)
        requires
            old(self).wf(),
            old(self)@.building(),
            0 <= size,
        ensures
            final(self).wf(),
            final(self)@ == old(self)@.emit_alloca(size),
            v == old(self)@.next_value(JitType { kind: Kind::Void, depth: 1 }),
            final(self)@.owns(v),
    {
        let dest = self.values.len();
        let v = self.define(
            JitType { kind: Kind::Void, depth: 1 },
            Instruction::Alloca { dest, size },
        );
        proof {
            old(self)@.lemma_emit_alloca(size);
        }
        v
    }

    /// Returns whether a load through `ptr` has a type.
    pub fn loadable(&self, ptr: &Value) -> (b: bool)
        ensures
            b == self@.loadable(*ptr),
    {
        self.owns(ptr) && ptr.jit_type.is_pointer() && (!ptr.jit_type.is_void_pointer()
            || self.values[ptr.index].stored.is_some())
    }

    /// Appends a load through `ptr` and returns what it reads: a value of
    /// the type behind the pointer, or, through a pointer to void, of the
    /// type of what was last stored through it.
    pub fn insn_load(&mut self, ptr: &Value) -> (v: Value)
        requires
            old(self).wf(),
            old(self)@.building(),
            old(self)@.loadable(*ptr),
        ensures
            final(self).wf(),
            final(self)@ == old(self)@.emit_load(*ptr),
            v == old(self)@.next_value(old(self)@.load_type(*ptr)),
            final(self)@.owns(v),
    {
        let dest = self.values.len();
        let jit_type = if ptr.jit_type.is_void_pointer() {
            match self.values[ptr.index].stored {
                Some(t) => t,
                None => ptr.jit_type,
            }
        } else {
            JitType { kind: ptr.jit_type.kind, depth: ptr.jit_type.depth - 1 }
        };
        let v = self.define(jit_type, Instruction::Load { dest, address: ptr.index });
        proof {
            old(self)@.lemma_emit_load(*ptr);
        }
        v
    }

    /// Returns whether `value` can be stored through `ptr`.
    pub fn storable(&self, ptr: &Value, value: &Value) -> (b: bool)
        ensures
            b == self@.storable(*ptr, *value),
    {
        self.owns(ptr) && self.owns(value) && ptr.jit_type.is_pointer()
            && !value.jit_type.is_void() && (ptr.jit_type.is_void_pointer() || (value.jit_type.kind
            == ptr.jit_type.kind && value.jit_type.depth == ptr.jit_type.depth - 1))
    }

    /// Appends a store of `value` through `ptr`.
    pub fn insn_store(&mut self, ptr: &Value, value: &Value)
        requires
            old(self).wf(),
            old(self)@.building(),
            old(self)@.storable(*ptr, *value),
        ensures
            final(self).wf(),
            final(self)@ == old(self)@.emit_store(*ptr, *value),
    {
        if ptr.jit_type.is_void_pointer() {
            let info = self.values[ptr.index];
            self.values.set(
                ptr.index,
                ValueInfo {
                    jit_type: info.jit_type,
                    definition: info.definition,
                    stored: Some(value.jit_type),
                },
            );
        }
        self.instructions.push(Instruction::Store { address: ptr.index, value: value.index });
        proof {
            assert(self.instructions.len() <= usize::MAX);
            assert(self@ =~= old(self)@.emit_store(*ptr, *value));
            old(self)@.lemma_emit_store(*ptr, *value);
        }
    }

    /// Gives `label` its number in this function, where it has none yet,
    /// and returns that number.
    fn number(&mut self, label: &Label) -> (l: usize)
        requires
            old(self)@.owns_label(label@),
        ensures
            l == old(self)@.label_number(label@),
            l < final(self).labels@.len(),
            !label@.assigned ==> old(self)@.labels.len() < usize::MAX,
            final(self).labels@ == old(self)@.labels_with(label@),
            final(self).id == old(self).id,
            final(self).abi == old(self).abi,
            final(self).return_type == old(self).return_type,
            final(self).params == old(self).params,
            final(self).values == old(self).values,
            final(self).instructions == old(self).instructions,
            final(self).call_args == old(self).call_args,
            final(self).compiled == old(self).compiled,
    {
        match label.number() {
            Some(number) => number,
            None => {
                let l = self.labels.len();
                self.labels.push(LabelInfo { binding: Binding::Unbound, reference: None });
                proof {
                    assert(self.labels.len() <= usize::MAX);
                }
                l
            },
        }
    }

    /// Appends `instruction`, a branch to label number `l`.
    fn refer(&mut self, l: usize, instruction: Instruction)
        requires
            l < old(self).labels@.len(),
        ensures
            old(self).instructions@.len() < usize::MAX,
            final(self).instructions@ == old(self).instructions@.push(instruction),
            final(self).labels@ == old(self).labels@.update(
                l as int,
                LabelInfo {
                    reference: if old(self).labels@[l as int].reference is None {
                        Some(old(self).instructions@.len() as usize)
                    } else {
                        old(self).labels@[l as int].reference
                    },
                    ..old(self).labels@[l as int]
                },
            ),
            final(self).id == old(self).id,
            final(self).abi == old(self).abi,
            final(self).return_type == old(self).return_type,
            final(self).params == old(self).params,
            final(self).values == old(self).values,
            final(self).call_args == old(self).call_args,
            final(self).compiled == old(self).compiled,
    {
        let info = self.labels[l];
        let at = self.instructions.len();
        let reference = match info.reference {
            None => Some(at),
            Some(r) => Some(r),
        };
        self.labels.set(l, LabelInfo { binding: info.binding, reference });
        self.instructions.push(instruction);
        proof {
            assert(self.instructions.len() <= usize::MAX);
        }
    }

    /// Appends a jump to `label`, which may be bound later, and gives the
    /// label its number where it has none yet.
    pub fn insn_branch(&mut self, label: &mut Label)
        requires
            old(self).wf(),
            old(self)@.building(),
            old(self)@.owns_label(old(label)@),
        ensures
            final(self).wf(),
            final(self)@ == old(self)@.emit_branch(old(label)@),
            final(label)@ == old(self)@.assign(old(label)@),
            final(self)@.owns_label(final(label)@),
    {
        let l = self.number(label);
        self.refer(l, Instruction::Branch { target: l });
        label.assign(self.id, l);
        proof {
            assert(self@ =~= old(self)@.emit_branch(old(label)@));
            old(self)@.lemma_emit_branch(old(label)@);
        }
    }

    /// Returns whether `value` can decide a branch.
    pub fn testable(&self, value: &Value) -> (b: bool)
        ensures
            b == self@.testable(*value),
    {
        self.owns(value) && !value.jit_type.is_void()
    }

    /// Appends a jump to `label` that is taken when `value` holds, and
    /// gives the label its number where it has none yet.
    pub fn insn_branch_if(&mut self, value: &Value, label: &mut Label)
        requires
            old(self).wf(),
            old(self)@.building(),
            old(self)@.testable(*value),
            old(self)@.owns_label(old(label)@),
        ensures
            final(self).wf(),
            final(self)@ == old(self)@.emit_branch_if(*value, old(label)@),
            final(label)@ == old(self)@.assign(old(label)@),
            final(self)@.owns_label(final(label)@),
    {
        let l = self.number(label);
        self.refer(l, Instruction::BranchIf { condition: value.index, target: l });
        label.assign(self.id, l);
        proof {
            assert(self@ =~= old(self)@.emit_branch_if(*value, old(label)@));
            old(self)@.lemma_emit_branch_if(*value, old(label)@);
        }
    }

    /// Appends a jump to `label` that is taken when `value` does not hold,
    /// and gives the label its number where it has none yet.
    pub fn insn_branch_if_not(&mut self, value: &Value, label: &mut Label)
        requires
            old(self).wf(),
            old(self)@.building(),
            old(self)@.testable(*value),
            old(self)@.owns_label(old(label)@),
        ensures
            final(self).wf(),
            final(self)@ == old(self)@.emit_branch_if_not(*value, old(label)@),
            final(label)@ == old(self)@.assign(old(label)@),
            final(self)@.owns_label(final(label)@),
    {
        let l = self.number(label);
        self.refer(l, Instruction::BranchIfNot { condition: value.index, target: l });
        label.assign(self.id, l);
        proof {
            assert(self@ =~= old(self)@.emit_branch_if_not(*value, old(label)@));
            old(self)@.lemma_emit_branch_if_not(*value, old(label)@);
        }
    }

    /// Binds `label` at the end of the instruction stream, and uses the
    /// label up: it cannot be bound again or branched to afterwards. A label
    /// that no branch has numbered yet is numbered and bound here.
    pub fn insn_label(&mut self, label: Label)
        requires
            old(self).wf(),
            old(self)@.building(),
            old(self)@.owns_label(label@),
        ensures
            final(self).wf(),
            final(self)@ == old(self)@.emit_bind(label@),
    {
        let l = self.number(&label);
        let info = self.labels[l];
        let at = self.instructions.len();
        let binding = match info.binding {
            Binding::Unbound => Binding::BoundAt { position: at },
            Binding::BoundAt { position } => Binding::BoundTwice { first: position, second: at },
            Binding::BoundTwice { first, second } => Binding::BoundTwice { first, second },
        };
        self.labels.set(l, LabelInfo { binding, reference: info.reference });
        self.instructions.push(Instruction::Bind { label: l });
        proof {
            assert(self.instructions.len() <= usize::MAX);
            assert(self@ =~= old(self)@.emit_bind(label@));
            old(self)@.lemma_emit_bind(label@);
        }
    }

    /// Returns the place in the instruction stream at which the label of
    /// the number `number` is bound, where one instruction and no other binds
    /// it: the place that a branch to the label goes to.
    pub fn label_position(&self, number: usize) -> (p: Option<usize>)
        requires
            self.wf(),
        ensures
            p == self@.position_of(number),
            p matches Some(k) ==> k < self@.instructions.len() && self@.instructions[k as int]
                == (Instruction::Bind { label: number }),
    {
        if number < self.labels.len() {
            match self.labels[number].binding {
                Binding::BoundAt { position } => {
                    proof {
                        assert(self@.label_wf(number));
                    }
                    Some(position)
                },
                _ => None,
            }
        } else {
            None
        }
    }

    /// Returns whether `value` can be returned.
    pub fn returnable(&self, value: &Value) -> (b: bool)
        ensures
            b == self@.returnable(*value),
    {
        self.owns(value) && !value.jit_type.is_void() && !self.return_type.is_void()
    }

    /// Appends a return of `value`.
    pub fn insn_return(&mut self, value: Value)
        requires
            old(self).wf(),
            old(self)@.building(),
            old(self)@.returnable(value),
        ensures
            final(self).wf(),
            final(self)@ == old(self)@.emit_return(value),
    {
        self.append(Instruction::Return { value: value.index });
        proof {
            old(self)@.lemma_emit_return(value);
        }
    }

    /// Appends a return without a value, for a function that returns void.
    pub fn insn_return_void(&mut self)
        requires
            old(self).wf(),
            old(self)@.building(),
            old(self)@.return_type.spec_is_void(),
        ensures
            final(self).wf(),
            final(self)@ == old(self)@.emit_return_void(),
    {
        self.append(Instruction::ReturnVoid);
        proof {
            old(self)@.lemma_emit_return_void();
        }
    }

    /// Returns whether `args` can be passed to a native function.
    pub fn passable(&self, args: &Vec<Value>) -> (b: bool)
        ensures
            b == self@.passable(args@),
    {
        let mut i: usize = 0;
        while i < args.len()
            invariant
                i <= args.len(),
                forall|j: int|
                    0 <= j < i ==> self@.owns(#[trigger] args@[j])
                        && !args@[j].jit_type.spec_is_void(),
            decreases args.len() - i,
        {
            if !self.owns(&args[i]) || args[i].jit_type.is_void() {
                return false;
            }
            i = i + 1;
        }
        true
    }

    /// Appends a call of the native function at address `native_func` with
    /// the arguments `params`, under the C calling convention, and returns
    /// what the call returns: a value of `return_type`, or of void where none
    /// is given. The builder does not know the native function: that it
    /// takes these arguments and returns this type is for the caller to
    /// see to.
    pub fn insn_call_native(
        &mut self,
        native_func: usize,
        params: Vec<Value>,
        return_type: Option<JitType>,
    ) -> (v: Value)
        requires
            old(self).wf(),
            old(self)@.building(),
            old(self)@.passable(params@),
        ensures
            final(self).wf(),
            final(self)@ == old(self)@.emit_call_native(
                native_func,
                params@,
                return_type_of(return_type),
            ),
            v == old(self)@.next_value(return_type_of(return_type)),
            final(self)@.owns(v),
    {
        let jit_type = match return_type {
            Some(t) => t,
            None => JitType::new(Kind::Void),
        };
        let first_arg = self.call_args.len();
        let ghost before = self.call_args@;
        let mut i: usize = 0;
        while i < params.len()
            invariant
                i <= params.len(),
                self.call_args@ =~= before + Seq::new(i as nat, |j: int| params@[j].index),
                self.id == old(self).id,
                self.abi == old(self).abi,
                self.return_type == old(self).return_type,
                self.params == old(self).params,
                self.values == old(self).values,
                self.instructions == old(self).instructions,
                self.labels == old(self).labels,
                self.compiled == old(self).compiled,
            decreases params.len() - i,
        {
            self.call_args.push(params[i].index);
            i = i + 1;
        }
        let dest = self.values.len();
        let at = self.instructions.len();
        self.values.push(ValueInfo { jit_type, definition: Some(at), stored: None });
        self.instructions.push(
            Instruction::CallNative {
                dest,
                function: native_func,
                first_arg,
                arg_count: params.len(),
                return_type: jit_type,
            },
        );
        proof {
            assert(self.values.len() <= usize::MAX);
            assert(self.instructions.len() <= usize::MAX);
            assert(self.call_args.len() <= usize::MAX);
            assert(self@ =~= old(self)@.emit_call_native(native_func, params@, jit_type));
            old(self)@.lemma_emit_call_native(native_func, params@, jit_type);
        }
        Value { owner: self.id, index: dest, jit_type }
    }

    /// Closes the function to further instructions, where its labels are
    /// in order: the instruction stream is then ready for a back end. A
    /// function that was compiled before, or that has a label that is bound
    /// twice or branched to and never bound, is left as it is, and the error
    /// says which: of the labels, the one of the lowest number.
    pub fn compile(&mut self) -> (r: Result<(), Exception>)
        requires
            old(self).wf(),
        ensures
            final(self).wf(),
            match r {
                Ok(()) => {
                    &&& old(self)@.building()
                    &&& sound(old(self)@.instructions)
                    &&& final(self)@ == old(self)@.finish()
                },
                Err(e) => {
                    &&& final(self)@ == old(self)@
                    &&& if old(self)@.compiled {
                        e == Exception::AlreadyCompiled
                    } else {
                        label_of(e) matches Some(l) && is_first_defect(
                            old(self)@.instructions,
                            l,
                            e,
                        )
                    }
                },
            },
    {
        if self.compiled {
            return Err(Exception::AlreadyCompiled);
        }
        let mut l: usize = 0;
        while l < self.labels.len()
            invariant
                l <= self.labels.len(),
                self.wf(),
                *self == *old(self),
                forall|j: usize| j < l ==> (#[trigger] self@.table_defect(j)) is None,
            decreases self.labels.len() - l,
        {
            let info = self.labels[l];
            let defect = match info.binding {
                Binding::BoundTwice { .. } => Some(Exception::LabelBoundTwice { label: l }),
                Binding::Unbound => {
                    if info.reference.is_some() {
                        Some(Exception::UnboundLabel { label: l })
                    } else {
                        None
                    }
                },
                Binding::BoundAt { .. } => None,
            };
            match defect {
                Some(e) => {
                    proof {
                        let s = self@.instructions;
                        self@.lemma_defect(l);
                        assert forall|j: usize| j < l implies (#[trigger] label_defect(s, j))
                            is None by {
                            self@.lemma_defect(j);
                            assert(self@.table_defect(j) is None);
                        }
                    }
                    return Err(e);
                },
                None => {},
            }
            l = l + 1;
        }
        self.compiled = true;
        proof {
            let s = old(self)@.instructions;
            assert forall|j: usize| (#[trigger] label_defect(s, j)) is None by {
                old(self)@.lemma_defect(j);
                if j < old(self)@.labels.len() {
                    assert(old(self)@.table_defect(j) is None);
                }
            }
            assert(self@ =~= old(self)@.finish());
            let new = self@;
            let m = old(self)@;
            assert forall|v: int| 0 <= v < new.values.len() implies #[trigger] new.value_wf(v) by {
                assert(m.value_wf(v));
            }
            assert forall|k: int| 0 <= k < new.instructions.len() implies #[trigger] new.instruction_wf(k) by {
                assert(m.instruction_wf(k));
                new.lemma_instruction_stays(m, k);
            }
            assert forall|j: usize| j < new.labels.len() implies #[trigger] new.label_wf(j) by {
                assert(m.label_wf(j));
            }
        }
        Ok(())
    }

    /// Loads a 64-bit float, given as its IEEE 754 bit pattern.
    pub fn create_float64_constant(&mut self, constant_value: u64) -> (v: Value)
        requires
            old(self).wf(),
            old(self)@.building(),
        ensures
            final(self).wf(),
            final(self)@ == old(self)@.emit_constant(
                Constant::of(JitType { kind: Kind::Float64, depth: 0 }, Literal::Float64(constant_value)),
            ),
            v == old(self)@.next_value(JitType { kind: Kind::Float64, depth: 0 }),
            final(self)@.owns(v),
    {
        broadcast use Constant::lemma_of;

        self.create_constant(Constant::new_float64(constant_value))
    }

    /// Loads a 64-bit signed integer.
    pub fn create_long_constant(&mut self, constant_value: i64) -> (v: Value)
        requires
            old(self).wf(),
            old(self)@.building(),
        ensures
            final(self).wf(),
            final(self)@ == old(self)@.emit_constant(
                Constant::of(JitType { kind: Kind::Long, depth: 0 }, Literal::Signed(constant_value)),
            ),
            v == old(self)@.next_value(JitType { kind: Kind::Long, depth: 0 }),
            final(self)@.owns(v),
    {
        broadcast use Constant::lemma_of;

        self.create_constant(Constant::new_long(constant_value))
    }

    /// Loads a 32-bit signed integer.
    pub fn create_int_constant(&mut self, constant_value: i32) -> (v: Value)
        requires
            old(self).wf(),
            old(self)@.building(),
        ensures
            final(self).wf(),
            final(self)@ == old(self)@.emit_constant(
                Constant::of(JitType { kind: Kind::Int, depth: 0 }, Literal::Signed(constant_value as i64)),
            ),
            v == old(self)@.next_value(JitType { kind: Kind::Int, depth: 0 }),
            final(self)@.owns(v),
    {
        broadcast use Constant::lemma_of;

        self.create_constant(Constant::new_int(constant_value))
    }

    /// Loads a C `int`, which is the 32-bit signed integer.
    pub fn create_sysint_constant(&mut self, constant_value: i32) -> (v: Value)
        requires
            old(self).wf(),
            old(self)@.building(),
        ensures
            final(self).wf(),
            final(self)@ == old(self)@.emit_constant(
                Constant::of(JitType { kind: Kind::Int, depth: 0 }, Literal::Signed(constant_value as i64)),
            ),
            v == old(self)@.next_value(JitType { kind: Kind::Int, depth: 0 }),
            final(self)@.owns(v),
    {
        broadcast use Constant::lemma_of;

        self.create_constant(Constant::new_int(constant_value))
    }

    /// Loads a C `int` from a wider number, of which the low 32 bits are kept.
    pub fn create_sys_int_constant(&mut self, constant_value: i64) -> (v: Value)
        requires
            old(self).wf(),
            old(self)@.building(),
        ensures
            final(self).wf(),
            final(self)@ == old(self)@.emit_constant(
                Constant::of(JitType { kind: Kind::Int, depth: 0 }, Literal::Signed((constant_value as i32) as i64)),
            ),
            v == old(self)@.next_value(JitType { kind: Kind::Int, depth: 0 }),
            final(self)@.owns(v),
    {
        broadcast use Constant::lemma_of;

        self.create_constant(Constant::new_int(#[verifier::truncate] (constant_value as i32)))
    }

    /// Loads a 32-bit unsigned integer.
    pub fn create_uint_constant(&mut self, constant_value: u32) -> (v: Value)
        requires
            old(self).wf(),
            old(self)@.building(),
        ensures
            final(self).wf(),
            final(self)@ == old(self)@.emit_constant(
                Constant::of(JitType { kind: Kind::UInt, depth: 0 }, Literal::Unsigned(constant_value as u64)),
            ),
            v == old(self)@.next_value(JitType { kind: Kind::UInt, depth: 0 }),
            final(self)@.owns(v),
    {
        broadcast use Constant::lemma_of;

        self.create_constant(Constant::new_uint(constant_value))
    }

    /// Loads a C `unsigned int` from a wider number, of which the low 32 bits are kept.
    pub fn create_sys_uint_constant(&mut self, constant_value: u64) -> (v: Value)
        requires
            old(self).wf(),
            old(self)@.building(),
        ensures
            final(self).wf(),
            final(self)@ == old(self)@.emit_constant(
                Constant::of(JitType { kind: Kind::UInt, depth: 0 }, Literal::Unsigned((constant_value as u32) as u64)),
            ),
            v == old(self)@.next_value(JitType { kind: Kind::UInt, depth: 0 }),
            final(self)@.owns(v),
    {
        broadcast use Constant::lemma_of;

        self.create_constant(Constant::new_uint(#[verifier::truncate] (constant_value as u32)))
    }

    /// Loads an 8-bit unsigned integer.
    pub fn create_ubyte_constant(&mut self, constant_value: u8) -> (v: Value)
        requires
            old(self).wf(),
            old(self)@.building(),
        ensures
            final(self).wf(),
            final(self)@ == old(self)@.emit_constant(
                Constant::of(JitType { kind: Kind::UByte, depth: 0 }, Literal::Unsigned(constant_value as u64)),
            ),
            v == old(self)@.next_value(JitType { kind: Kind::UByte, depth: 0 }),
            final(self)@.owns(v),
    {
        broadcast use Constant::lemma_of;

        self.create_constant(Constant::new_u8(constant_value))
    }

    /// Loads an 8-bit signed integer.
    pub fn create_sbyte_constant(&mut self, constant_value: i8) -> (v: Value)
        requires
            old(self).wf(),
            old(self)@.building(),
        ensures
            final(self).wf(),
            final(self)@ == old(self)@.emit_constant(
                Constant::of(JitType { kind: Kind::SByte, depth: 0 }, Literal::Signed(constant_value as i64)),
            ),
            v == old(self)@.next_value(JitType { kind: Kind::SByte, depth: 0 }),
            final(self)@.owns(v),
    {
        broadcast use Constant::lemma_of;

        self.create_constant(Constant::new_i8(constant_value))
    }

    /// Loads a pointer to void that holds the address `constant_value`.
    pub fn create_void_ptr_constant(&mut self, constant_value: usize) -> (v: Value)
        requires
            old(self).wf(),
            old(self)@.building(),
        ensures
            final(self).wf(),
            final(self)@ == old(self)@.emit_constant(
                Constant::of(JitType { kind: Kind::Void, depth: 1 }, Literal::Address(constant_value)),
            ),
            v == old(self)@.next_value(JitType { kind: Kind::Void, depth: 1 }),
            final(self)@.owns(v),
    {
        broadcast use Constant::lemma_of;

        self.create_constant(Constant::new_void_ptr(constant_value))
    }

    /// Loads a signed integer of the machine's word from a 32-bit number.
    pub fn create_nint_constant(&mut self, constant_value: i32) -> (v: Value)
        requires
            old(self).wf(),
            old(self)@.building(),
        ensures
            final(self).wf(),
            final(self)@ == old(self)@.emit_constant(
                Constant::of(JitType { kind: Kind::NInt, depth: 0 }, Literal::Signed(constant_value as i64)),
            ),
            v == old(self)@.next_value(JitType { kind: Kind::NInt, depth: 0 }),
            final(self)@.owns(v),
    {
        broadcast use Constant::lemma_of;

        self.create_constant(Constant::new_nint(constant_value as i64))
    }

    /// Returns the type of the function.
    pub fn signature(&self) -> (s: Signature)
        ensures
            s@ == (SignatureView {
                abi: self@.abi,
                return_type: self@.return_type,
                params: self@.params,
            }),
    {
        Signature {
            abi: self.abi,
            return_type: self.return_type,
            params: copy_types(&self.params),
        }
    }

    /// Returns the type under which the native call at place `k` of the
    /// instruction stream calls: the C calling convention, the return type
    /// of the call, and the types of its arguments in order. Where the
    /// instruction at `k` is no native call, or there is none, the result is
    /// `None`.
    pub fn call_signature(&self, k: usize) -> (s: Option<Signature>)
        requires
            self.wf(),
        ensures
            match s {
                Some(signature) => {
                    &&& k < self@.instructions.len()
                    &&& self@.instructions[k as int] is CallNative
                    &&& signature@ == self@.call_signature(k as int)
                },
                None => !(k < self@.instructions.len() && self@.instructions[k as int]
                    is CallNative),
            },
    {
        if k >= self.instructions.len() {
            return None;
        }
        match self.instructions[k] {
            Instruction::CallNative { dest, function, first_arg, arg_count, return_type } => {
                proof {
                    assert(self@.instruction_wf(k as int));
                }
                let mut params: Vec<JitType> = Vec::new();
                let mut j: usize = 0;
                while j < arg_count
                    invariant
                        j <= arg_count,
                        self.wf(),
                        first_arg + arg_count <= self.call_args@.len(),
                        forall|i: int|
                            first_arg <= i < first_arg + arg_count ==> #[trigger] self@.argument_wf(
                                i,
                                k as int,
                            ),
                        params@ =~= Seq::new(
                            j as nat,
                            |i: int|
                                self@.values[self@.call_args[first_arg + i] as int].jit_type,
                        ),
                    decreases arg_count - j,
                {
                    proof {
                        assert(self@.argument_wf(first_arg + j, k as int));
                    }
                    let v = self.call_args[first_arg + j];
                    params.push(self.values[v].jit_type);
                    j = j + 1;
                }
                Some(Signature { abi: Abi::Cdecl, return_type, params })
            },
            _ => None,
        }
    }
}

} // verus!
