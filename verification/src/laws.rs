use vstd::prelude::*;
use crate::constant::Constant;
use crate::exception::Exception;
use crate::instruction::{BinaryOp, Instruction};
use crate::label::LabelView;
use crate::model::{
    binds_at, bound, bound_twice, label_defect, referenced, sound, targets_at, Binding,
    FunctionModel,
};
use crate::value::Value;

verus! {

/// Binding a label that no instruction binds yet puts the label in order,
/// at the place where the instruction stream ended, and changes nothing
/// about what is wrong or right with any other label.
pub proof fn law_bind_resolves(m: FunctionModel, label: LabelView)
    requires
        m.wf(),
        m.building(),
        m.owns_label(label),
        !label.assigned ==> m.labels.len() < usize::MAX,
        m.instructions.len() < usize::MAX,
        !bound(m.instructions, m.label_number(label)),
    ensures
        m.emit_bind(label).wf(),
        label_defect(m.emit_bind(label).instructions, m.label_number(label)) is None,
        m.emit_bind(label).position_of(m.label_number(label)) == Some(
            m.instructions.len() as usize,
        ),
        forall|l: usize|
            l != m.label_number(label) ==> #[trigger] label_defect(
                m.emit_bind(label).instructions,
                l,
            ) == label_defect(m.instructions, l),
{
    let new = m.emit_bind(label);
    let t = m.label_number(label);
    m.lemma_emit_bind(label);
    m.lemma_table_tells(t);
    new.lemma_defect(t);
    assert forall|l: usize| l != t implies #[trigger] label_defect(new.instructions, l)
        == label_defect(m.instructions, l) by {
        new.lemma_defect(l);
        m.lemma_defect(l);
    }
}

/// A branch to a label that no instruction binds leaves the function with
/// that label to be bound: until then compilation reports it as unbound,
/// unless a label of a lower number is in disorder too. Nothing changes
/// about any other label.
pub proof fn law_branch_needs_binding(m: FunctionModel, condition: Value, label: LabelView)
    requires
        m.wf(),
        m.building(),
        m.testable(condition),
        m.owns_label(label),
        !label.assigned ==> m.labels.len() < usize::MAX,
        m.instructions.len() < usize::MAX,
        !bound(m.instructions, m.label_number(label)),
    ensures
        m.emit_branch_if(condition, label).wf(),
        m.emit_branch_if(condition, label).owns_label(m.assign(label)),
        label_defect(m.emit_branch_if(condition, label).instructions, m.label_number(label))
            == Some(Exception::UnboundLabel { label: m.label_number(label) }),
        !sound(m.emit_branch_if(condition, label).instructions),
        forall|l: usize|
            l != m.label_number(label) ==> #[trigger] label_defect(
                m.emit_branch_if(condition, label).instructions,
                l,
            ) == label_defect(m.instructions, l),
{
    let new = m.emit_branch_if(condition, label);
    let t = m.label_number(label);
    m.lemma_emit_branch_if(condition, label);
    m.lemma_table_tells(t);
    new.lemma_defect(t);
    assert forall|l: usize| l != t implies #[trigger] label_defect(new.instructions, l)
        == label_defect(m.instructions, l) by {
        new.lemma_defect(l);
        m.lemma_defect(l);
    }
}

/// A label that is branched to before it is bound, and then bound once,
/// leaves a function whose labels were in order with its labels in order:
/// it compiles. This holds whatever is emitted between the branch and the
/// binding, as long as that leaves the other labels in order and does not
/// bind this one. The branch then goes to the instruction that binds the
/// label.
pub proof fn law_forward_branch_compiles(m: FunctionModel, label: LabelView)
    requires
        m.wf(),
        m.building(),
        label.assigned,
        m.owns_label(label),
        m.instructions.len() < usize::MAX,
        referenced(m.instructions, label.number),
        !bound(m.instructions, label.number),
        forall|l: usize| l != label.number ==> (#[trigger] label_defect(m.instructions, l)) is None,
    ensures
        m.emit_bind(label).wf(),
        sound(m.emit_bind(label).instructions),
        m.emit_bind(label).position_of(label.number) == Some(m.instructions.len() as usize),
        m.emit_bind(label).instructions[m.instructions.len() as int] == (Instruction::Bind {
            label: label.number,
        }),
{
    law_bind_resolves(m, label);
    let new = m.emit_bind(label);
    assert forall|l: usize| (#[trigger] label_defect(new.instructions, l)) is None by {
        if l != label.number {
            assert(label_defect(new.instructions, l) == label_defect(m.instructions, l));
        }
    }
}

/// In a function whose labels are in order, a branch to a new label
/// followed at once by the binding of that label leaves the labels in
/// order, and the branch goes to the binding.
pub proof fn law_branch_then_bind(m: FunctionModel, condition: Value)
    requires
        m.wf(),
        m.building(),
        m.testable(condition),
        m.labels.len() < usize::MAX,
        m.instructions.len() + 1 < usize::MAX,
        sound(m.instructions),
    ensures
        ({
            let fresh = LabelView::unassigned();
            let branched = m.emit_branch_if(condition, fresh);
            let done = branched.emit_bind(m.assign(fresh));
            &&& done.wf()
            &&& !sound(branched.instructions)
            &&& sound(done.instructions)
            &&& done.position_of(m.labels.len() as usize) == Some(
                (m.instructions.len() + 1) as usize,
            )
            &&& done.instructions == m.instructions.push(
                Instruction::BranchIf {
                    condition: condition.index,
                    target: m.labels.len() as usize,
                },
            ).push(Instruction::Bind { label: m.labels.len() as usize })
        }),
{
    let fresh = LabelView::unassigned();
    let t = m.labels.len() as usize;
    let branched = m.emit_branch_if(condition, fresh);
    let label = m.assign(fresh);
    m.lemma_table_tells(t);
    law_branch_needs_binding(m, condition, fresh);
    branched.lemma_table_tells(t);
    assert(targets_at(branched.instructions, m.instructions.len() as int, t));
    assert forall|l: usize| l != t implies (#[trigger] label_defect(branched.instructions, l))
        is None by {
        assert(label_defect(branched.instructions, l) == label_defect(m.instructions, l));
    }
    law_forward_branch_compiles(branched, label);
}

impl FunctionModel {
    /// The state after `value` was stored through `ptr` and read back.
    pub open spec fn round_trip(self, ptr: Value, value: Value) -> Self {
        self.emit_store(ptr, value).emit_load(ptr)
    }

    /// The value that the read of a round trip gives.
    pub open spec fn read_back(self, ptr: Value, value: Value) -> Value {
        self.emit_store(ptr, value).next_value(self.emit_store(ptr, value).load_type(ptr))
    }

    /// The state after `n` round trips through `ptr`, the first with
    /// `value`, each of the others with what the one before read back.
    pub open spec fn round_trips(self, ptr: Value, value: Value, n: nat) -> Self
        decreases n,
    {
        if n == 0 {
            self
        } else {
            self.round_trips(ptr, value, (n - 1) as nat).round_trip(
                ptr,
                self.carried(ptr, value, (n - 1) as nat),
            )
        }
    }

    /// The value that the last of `n` round trips read back; `value` itself
    /// before the first.
    pub open spec fn carried(self, ptr: Value, value: Value, n: nat) -> Value
        decreases n,
    {
        if n == 0 {
            value
        } else {
            self.round_trips(ptr, value, (n - 1) as nat).read_back(
                ptr,
                self.carried(ptr, value, (n - 1) as nat),
            )
        }
    }
}

/// A value that is stored through a pointer and read back at once comes
/// back as a value of the same type, which can be stored through the
/// pointer again.
pub proof fn law_store_then_load(m: FunctionModel, ptr: Value, value: Value)
    requires
        m.wf(),
        m.building(),
        m.storable(ptr, value),
        m.values.len() < usize::MAX,
        m.instructions.len() + 1 < usize::MAX,
    ensures
        m.emit_store(ptr, value).loadable(ptr),
        m.round_trip(ptr, value).wf(),
        m.round_trip(ptr, value).building(),
        m.read_back(ptr, value).jit_type == value.jit_type,
        m.round_trip(ptr, value).storable(ptr, m.read_back(ptr, value)),
        m.round_trip(ptr, value).instructions == m.instructions.push(
            Instruction::Store { address: ptr.index, value: value.index },
        ).push(Instruction::Load { dest: m.values.len() as usize, address: ptr.index }),
        m.round_trip(ptr, value).values.len() == m.values.len() + 1,
{
    let stored = m.emit_store(ptr, value);
    m.lemma_emit_store(ptr, value);
    stored.lemma_emit_load(ptr);
}

/// Any number of round trips through a pointer keeps the type of the value
/// that travels, and appends one store and one load for each.
pub proof fn law_round_trips(m: FunctionModel, ptr: Value, value: Value, n: nat)
    requires
        m.wf(),
        m.building(),
        m.storable(ptr, value),
        m.values.len() + n <= usize::MAX,
        m.instructions.len() + 2 * n <= usize::MAX,
    ensures
        m.round_trips(ptr, value, n).wf(),
        m.round_trips(ptr, value, n).building(),
        m.round_trips(ptr, value, n).storable(ptr, m.carried(ptr, value, n)),
        m.carried(ptr, value, n).jit_type == value.jit_type,
        m.round_trips(ptr, value, n).instructions.len() == m.instructions.len() + 2 * n,
        m.round_trips(ptr, value, n).values.len() == m.values.len() + n,
        m.round_trips(ptr, value, n).instructions.take(m.instructions.len() as int)
            == m.instructions,
    decreases n,
{
    if n == 0 {
        assert(m.instructions.take(m.instructions.len() as int) =~= m.instructions);
    } else {
        let k = (n - 1) as nat;
        law_round_trips(m, ptr, value, k);
        let before = m.round_trips(ptr, value, k);
        let v = m.carried(ptr, value, k);
        law_store_then_load(before, ptr, v);
        let after = m.round_trips(ptr, value, n);
        assert(after.instructions.take(m.instructions.len() as int) =~= before.instructions.take(
            m.instructions.len() as int,
        ));
    }
}

/// The sum of two constants of one type is a value of that type: three
/// instructions are appended, and a function whose labels were in order
/// still compiles.
pub proof fn law_add_of_constants(m: FunctionModel, a: Constant, b: Constant)
    requires
        m.wf(),
        m.building(),
        a.spec_type() == b.spec_type(),
        !a.spec_type().spec_is_void(),
        m.values.len() + 2 < usize::MAX,
        m.instructions.len() + 2 < usize::MAX,
    ensures
        ({
            let first = m.emit_constant(a);
            let second = first.emit_constant(b);
            let left = m.next_value(a.spec_type());
            let right = first.next_value(b.spec_type());
            let sum = second.emit_binary(BinaryOp::Add, left, right);
            &&& second.compatible(left, right)
            &&& sum.wf()
            &&& sum.owns(second.next_value(a.spec_type()))
            &&& sum.instructions == m.instructions.push(
                Instruction::Const { dest: m.values.len() as usize, constant: a },
            ).push(Instruction::Const { dest: (m.values.len() + 1) as usize, constant: b }).push(
                Instruction::Binary {
                    op: BinaryOp::Add,
                    dest: (m.values.len() + 2) as usize,
                    left: m.values.len() as usize,
                    right: (m.values.len() + 1) as usize,
                },
            )
            &&& sound(m.instructions) ==> sound(sum.instructions)
        }),
{
    let first = m.emit_constant(a);
    let second = first.emit_constant(b);
    let left = m.next_value(a.spec_type());
    let right = first.next_value(b.spec_type());
    let sum = second.emit_binary(BinaryOp::Add, left, right);
    m.lemma_emit_constant(a);
    first.lemma_emit_constant(b);
    second.lemma_emit_binary(BinaryOp::Add, left, right);
    if sound(m.instructions) {
        assert forall|l: usize| (#[trigger] label_defect(sum.instructions, l)) is None by {
            assert(label_defect(m.instructions, l) is None);
            m.lemma_defect(l);
            sum.lemma_defect(l);
        }
    }
}

/// Each declared parameter is a value of the function: the one at its
/// place in the table of values, with the declared type, and no
/// instruction defines it.
pub proof fn law_parameters_are_the_first_values(m: FunctionModel, index: int)
    requires
        m.wf(),
        0 <= index < m.params.len(),
    ensures
        m.owns(m.value_at(index)),
        m.value_at(index).jit_type == m.params[index],
        m.values[index].definition is None,
{
    assert(m.value_wf(index));
}

/// Every value that an instruction reads is a parameter or is defined by
/// an instruction that stands before it, and is not void.
pub proof fn law_defined_before_use(m: FunctionModel, k: int, v: usize)
    requires
        m.wf(),
        0 <= k < m.instructions.len(),
        m.reads(k, v),
    ensures
        m.available(v, k),
        !m.values[v as int].jit_type.spec_is_void(),
        m.instructions[k].spec_dest() != Some(v),
{
    assert(m.instruction_wf(k));
    match m.instructions[k] {
        Instruction::CallNative { first_arg, arg_count, .. } => {
            let j = choose|j: int|
                first_arg <= j < first_arg + arg_count && #[trigger] m.call_args[j] == v;
            assert(m.argument_wf(j, k));
        },
        _ => {},
    }
}

/// An instruction that defines a value is the only one that defines it,
/// and no instruction defines a parameter.
pub proof fn law_one_definition(m: FunctionModel, j: int, k: int)
    requires
        m.wf(),
        0 <= j < m.instructions.len(),
        0 <= k < m.instructions.len(),
        m.instructions[j].spec_dest() is Some,
        m.instructions[j].spec_dest() == m.instructions[k].spec_dest(),
    ensures
        j == k,
        m.instructions[j].spec_dest()->Some_0 >= m.params.len(),
{
    assert(m.instruction_wf(j));
    assert(m.instruction_wf(k));
    let d = m.instructions[j].spec_dest()->Some_0;
    assert(m.value_wf(d as int));
}

/// Every operation of the builder only appends: the instructions, values,
/// call arguments and labels that were there stay in place, and the values
/// keep their types and definitions. Compilation changes none of them.
pub proof fn law_append_only(
    m: FunctionModel,
    constant: Constant,
    op: BinaryOp,
    left: Value,
    right: Value,
    size: i64,
    label: LabelView,
    function: usize,
    args: Seq<Value>,
)
    requires
        m.wf(),
        m.owns(left),
        m.owns(right),
        m.owns_label(label),
    ensures
        m.emit_constant(constant).extends(m),
        m.emit_binary(op, left, right).extends(m),
        m.emit_alloca(size).extends(m),
        m.emit_load(left).extends(m),
        m.emit_store(left, right).extends(m),
        m.emit_branch(label).extends(m),
        m.emit_branch_if(left, label).extends(m),
        m.emit_branch_if_not(left, label).extends(m),
        m.emit_bind(label).extends(m),
        m.emit_call_native(function, args, right.jit_type).extends(m),
        m.emit_return(left).extends(m),
        m.emit_return_void().extends(m),
        m.finish().extends(m),
        m.finish().instructions == m.instructions,
{
}

} // verus!
