use vstd::prelude::*;
use crate::exception::Exception;
use crate::instruction::Instruction;
use crate::label::LabelView;
use crate::model::{
    binds_at, bound, bound_twice, label_defect, referenced, sound, targets_at, Binding,
    FunctionModel, LabelInfo,
};
use crate::value::Value;

verus! {

/// Where a label stands after one more instruction, at place `position`,
/// binds it.
pub open spec fn rebind(binding: Binding, position: usize) -> Binding {
    match binding {
        Binding::Unbound => Binding::BoundAt { position },
        Binding::BoundAt { position: first } => Binding::BoundTwice { first, second: position },
        Binding::BoundTwice { first, second } => Binding::BoundTwice { first, second },
    }
}

impl FunctionModel {
    /// The number under which this function knows `label`: its own where
    /// it has one, the next free number where it has none.
    pub open spec fn label_number(self, label: LabelView) -> usize {
        if label.assigned {
            label.number
        } else {
            self.labels.len() as usize
        }
    }

    /// `label` as it is once this function has numbered it.
    pub open spec fn assign(self, label: LabelView) -> LabelView {
        LabelView { assigned: true, owner: self.id, number: self.label_number(label) }
    }

    /// The table of labels with an entry for `label`.
    pub open spec fn labels_with(self, label: LabelView) -> Seq<LabelInfo> {
        if label.assigned {
            self.labels
        } else {
            self.labels.push(LabelInfo { binding: Binding::Unbound, reference: None })
        }
    }

    /// The state after `instruction`, a branch to `label`.
    pub open spec fn refer(self, label: LabelView, instruction: Instruction) -> Self {
        let l = self.label_number(label) as int;
        let labels = self.labels_with(label);
        FunctionModel {
            labels: labels.update(
                l,
                LabelInfo {
                    reference: if labels[l].reference is None {
                        Some(self.instructions.len() as usize)
                    } else {
                        labels[l].reference
                    },
                    ..labels[l]
                },
            ),
            instructions: self.instructions.push(instruction),
            ..self
        }
    }

    /// The state after a jump to `label`.
    pub open spec fn emit_branch(self, label: LabelView) -> Self {
        self.refer(label, Instruction::Branch { target: self.label_number(label) })
    }

    /// Whether `value` can decide a branch: it is a value of this function
    /// and not void.
    pub open spec fn testable(self, value: Value) -> bool {
        self.owns(value) && !value.jit_type.spec_is_void()
    }

    /// The state after a jump to `label` that is taken when `value` holds.
    pub open spec fn emit_branch_if(self, value: Value, label: LabelView) -> Self {
        self.refer(
            label,
            Instruction::BranchIf { condition: value.index, target: self.label_number(label) },
        )
    }

    /// The state after a jump to `label` that is taken when `value` does
    /// not hold.
    pub open spec fn emit_branch_if_not(self, value: Value, label: LabelView) -> Self {
        self.refer(
            label,
            Instruction::BranchIfNot { condition: value.index, target: self.label_number(label) },
        )
    }

    /// The state after `label` was bound at the end of the stream.
    pub open spec fn emit_bind(self, label: LabelView) -> Self {
        let l = self.label_number(label) as int;
        let labels = self.labels_with(label);
        FunctionModel {
            labels: labels.update(
                l,
                LabelInfo {
                    binding: rebind(labels[l].binding, self.instructions.len() as usize),
                    ..labels[l]
                },
            ),
            instructions: self.instructions.push(
                Instruction::Bind { label: self.label_number(label) },
            ),
            ..self
        }
    }

    /// The place at which label number `l` is bound, where one instruction
    /// and no other binds it.
    pub open spec fn position_of(self, l: usize) -> Option<usize> {
        if l < self.labels.len() {
            match self.labels[l as int].binding {
                Binding::BoundAt { position } => Some(position),
                _ => None,
            }
        } else {
            None
        }
    }

    /// No instruction names a label that the table does not hold.
    pub proof fn lemma_unknown_label(self, l: usize)
        requires
            self.wf(),
            l >= self.labels.len(),
        ensures
            forall|k: int| !#[trigger] binds_at(self.instructions, k, l),
            forall|k: int| !#[trigger] targets_at(self.instructions, k, l),
    {
        assert forall|k: int| !#[trigger] binds_at(self.instructions, k, l) by {
            if 0 <= k < self.instructions.len() {
                assert(self.instruction_wf(k));
            }
        }
        assert forall|k: int| !#[trigger] targets_at(self.instructions, k, l) by {
            if 0 <= k < self.instructions.len() {
                assert(self.instruction_wf(k));
            }
        }
    }

    /// One more instruction, which names a label, keeps the invariant where
    /// the new instruction and every entry of the new table of labels are in
    /// order.
    pub proof fn lemma_label_step(self, old: Self, instruction: Instruction)
        requires
            old.wf(),
            !old.compiled,
            !self.compiled,
            self.extends(old),
            self.bounded(),
            self.instructions == old.instructions.push(instruction),
            self.values == old.values,
            instruction.spec_dest() is None,
            self.instruction_wf(old.instructions.len() as int),
            forall|l: usize| l < self.labels.len() ==> #[trigger] self.label_wf(l),
        ensures
            self.wf(),
    {
        let n = old.instructions.len() as int;
        assert forall|v: int| 0 <= v < self.values.len() implies #[trigger] self.value_wf(v) by {
            assert(old.value_wf(v));
        }
        assert forall|k: int| 0 <= k < self.instructions.len() implies #[trigger] self.instruction_wf(k) by {
            if k < n {
                assert(old.instruction_wf(k));
                self.lemma_instruction_stays(old, k);
            }
        }
    }

    /// A branch to a label keeps every entry of the table of labels in
    /// order.
    pub proof fn lemma_refer(self, label: LabelView, instruction: Instruction)
        requires
            self.wf(),
            self.owns_label(label),
            !label.assigned ==> self.labels.len() < usize::MAX,
            self.instructions.len() < usize::MAX,
            instruction.spec_target() == Some(self.label_number(label)),
            instruction.spec_binds() is None,
        ensures
            forall|l: usize|
                l < self.refer(label, instruction).labels.len() ==> #[trigger] self.refer(
                    label,
                    instruction,
                ).label_wf(l),
    {
        let new = self.refer(label, instruction);
        let t = self.label_number(label);
        let s = new.instructions;
        let o = self.instructions;
        let n = o.len() as int;
        assert forall|l: usize| l < new.labels.len() implies #[trigger] new.label_wf(l) by {
            if l != t {
                assert(self.label_wf(l));
                new.lemma_label_stays(self, instruction, l);
            } else {
                assert forall|k: int| #[trigger] binds_at(s, k, l) implies binds_at(o, k, l) by {}
                assert(targets_at(s, n, l));
                if label.assigned {
                    assert(self.label_wf(l));
                    match self.labels[l as int].binding {
                        Binding::Unbound => {},
                        Binding::BoundAt { position } => {
                            assert(binds_at(o, position as int, l));
                        },
                        Binding::BoundTwice { first, second } => {
                            assert(binds_at(o, first as int, l));
                            assert(binds_at(o, second as int, l));
                        },
                    }
                    match self.labels[l as int].reference {
                        None => {},
                        Some(r) => {
                            assert(targets_at(o, r as int, l));
                        },
                    }
                } else {
                    self.lemma_unknown_label(l);
                }
            }
        }
    }

    /// A jump to a label keeps the invariant.
    pub proof fn lemma_emit_branch(self, label: LabelView)
        requires
            self.wf(),
            self.building(),
            self.owns_label(label),
            !label.assigned ==> self.labels.len() < usize::MAX,
            self.instructions.len() < usize::MAX,
        ensures
            self.emit_branch(label).wf(),
    {
        let instruction = Instruction::Branch { target: self.label_number(label) };
        self.lemma_refer(label, instruction);
        self.emit_branch(label).lemma_label_step(self, instruction);
    }

    /// A conditional jump to a label keeps the invariant.
    pub proof fn lemma_emit_branch_if(self, value: Value, label: LabelView)
        requires
            self.wf(),
            self.building(),
            self.testable(value),
            self.owns_label(label),
            !label.assigned ==> self.labels.len() < usize::MAX,
            self.instructions.len() < usize::MAX,
        ensures
            self.emit_branch_if(value, label).wf(),
    {
        let instruction = Instruction::BranchIf {
            condition: value.index,
            target: self.label_number(label),
        };
        self.lemma_refer(label, instruction);
        self.lemma_owned_is_available(value);
        self.emit_branch_if(value, label).lemma_label_step(self, instruction);
    }

    /// A jump on a condition that does not hold keeps the invariant.
    pub proof fn lemma_emit_branch_if_not(self, value: Value, label: LabelView)
        requires
            self.wf(),
            self.building(),
            self.testable(value),
            self.owns_label(label),
            !label.assigned ==> self.labels.len() < usize::MAX,
            self.instructions.len() < usize::MAX,
        ensures
            self.emit_branch_if_not(value, label).wf(),
    {
        let instruction = Instruction::BranchIfNot {
            condition: value.index,
            target: self.label_number(label),
        };
        self.lemma_refer(label, instruction);
        self.lemma_owned_is_available(value);
        self.emit_branch_if_not(value, label).lemma_label_step(self, instruction);
    }

    /// Binding a label keeps the invariant, whether or not the label was
    /// bound before.
    pub proof fn lemma_emit_bind(self, label: LabelView)
        requires
            self.wf(),
            self.building(),
            self.owns_label(label),
            !label.assigned ==> self.labels.len() < usize::MAX,
            self.instructions.len() < usize::MAX,
        ensures
            self.emit_bind(label).wf(),
    {
        let new = self.emit_bind(label);
        let t = self.label_number(label);
        let instruction = Instruction::Bind { label: t };
        let s = new.instructions;
        let o = self.instructions;
        let n = o.len() as int;
        assert forall|l: usize| l < new.labels.len() implies #[trigger] new.label_wf(l) by {
            if l != t {
                assert(self.label_wf(l));
                new.lemma_label_stays(self, instruction, l);
            } else {
                assert forall|k: int| #[trigger] targets_at(s, k, l) implies targets_at(o, k, l) by {}
                assert forall|k: int| #[trigger] binds_at(s, k, l) implies binds_at(o, k, l) || k
                    == n by {}
                assert(binds_at(s, n, l));
                if label.assigned {
                    assert(self.label_wf(l));
                    match self.labels[l as int].binding {
                        Binding::Unbound => {},
                        Binding::BoundAt { position } => {
                            assert(binds_at(o, position as int, l));
                            assert(binds_at(s, position as int, l));
                        },
                        Binding::BoundTwice { first, second } => {
                            assert(binds_at(o, first as int, l));
                            assert(binds_at(o, second as int, l));
                            assert(binds_at(s, first as int, l));
                            assert(binds_at(s, second as int, l));
                        },
                    }
                    match self.labels[l as int].reference {
                        None => {},
                        Some(r) => {
                            assert(targets_at(o, r as int, l));
                            assert(targets_at(s, r as int, l));
                        },
                    }
                } else {
                    self.lemma_unknown_label(l);
                }
            }
        }
        new.lemma_label_step(self, instruction);
    }

    /// What the table of labels says of label number `l` is what the
    /// instruction stream holds.
    pub proof fn lemma_table_tells(self, l: usize)
        requires
            self.wf(),
        ensures
            l >= self.labels.len() ==> !bound(self.instructions, l) && !referenced(
                self.instructions,
                l,
            ),
            l < self.labels.len() ==> {
                &&& bound(self.instructions, l) <==> !(self.labels[l as int].binding
                    is Unbound)
                &&& bound_twice(self.instructions, l)
                    <==> self.labels[l as int].binding is BoundTwice
                &&& referenced(self.instructions, l) <==> self.labels[l as int].reference is Some
            },
    {
        let s = self.instructions;
        if l >= self.labels.len() {
            self.lemma_unknown_label(l);
        } else {
            assert(self.label_wf(l));
            match self.labels[l as int].binding {
                Binding::Unbound => {},
                Binding::BoundAt { position } => {
                    assert(binds_at(s, position as int, l));
                },
                Binding::BoundTwice { first, second } => {
                    assert(binds_at(s, first as int, l) && binds_at(s, second as int, l));
                },
            }
            match self.labels[l as int].reference {
                None => {},
                Some(r) => {
                    assert(targets_at(s, r as int, l));
                },
            }
        }
    }

    /// What is wrong with label number `l`, read from the table of labels.
    pub open spec fn table_defect(self, l: usize) -> Option<Exception> {
        if l >= self.labels.len() {
            None
        } else if self.labels[l as int].binding is BoundTwice {
            Some(Exception::LabelBoundTwice { label: l })
        } else if self.labels[l as int].binding is Unbound && self.labels[l as int].reference
            is Some {
            Some(Exception::UnboundLabel { label: l })
        } else {
            None
        }
    }

    /// The table of labels and the instruction stream agree on what is
    /// wrong with a label.
    pub proof fn lemma_defect(self, l: usize)
        requires
            self.wf(),
        ensures
            label_defect(self.instructions, l) == self.table_defect(l),
    {
        self.lemma_table_tells(l);
    }
}

} // verus!
