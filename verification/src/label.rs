use vstd::prelude::*;

verus! {

/// What a label holds, as mathematics.
pub struct LabelView {
    /// Whether a function has given the label a number.
    pub assigned: bool,
    /// The identifier of the function the label belongs to, once assigned.
    pub owner: u64,
    /// The label's number in that function, once assigned.
    pub number: usize,
}

impl LabelView {
    /// The label that no function has numbered yet.
    pub open spec fn unassigned() -> LabelView {
        LabelView { assigned: false, owner: 0, number: 0 }
    }
}

/// A branch target inside one function.
///
/// A label starts out unassigned. The first function that branches to it
/// gives it a number of its own; from then on the label belongs to that
/// function. Binding the label uses it up: a label cannot be copied, so it
/// is bound at most once.
#[derive(Debug)]
pub struct Label {
    assigned: bool,
    owner: u64,
    number: usize,
}

impl View for Label {
    type V = LabelView;

    closed spec fn view(&self) -> LabelView {
        LabelView { assigned: self.assigned, owner: self.owner, number: self.number }
    }
}

impl Label {
    /// Returns a label that no function has numbered yet.
    pub fn new() -> (label: Label)
        ensures
            label@ == LabelView::unassigned(),
    {
        Label { assigned: false, owner: 0, number: 0 }
    }

    /// Returns the number that a function has given the label, and `None`
    /// while it has none.
    pub fn number(&self) -> (n: Option<usize>)
        ensures
            n == if self@.assigned {
                Some(self@.number)
            } else {
                None
            },
    {
        if self.assigned {
            Some(self.number)
        } else {
            None
        }
    }

    /// Returns the identifier of the function that has numbered the label,
    /// and `None` while none has.
    pub fn owner(&self) -> (o: Option<u64>)
        ensures
            o == if self@.assigned {
                Some(self@.owner)
            } else {
                None
            },
    {
        if self.assigned {
            Some(self.owner)
        } else {
            None
        }
    }

    /// Gives the label the number `number` in the function `owner`.
    pub(crate) fn assign(&mut self, owner: u64, number: usize)
        ensures
            final(self)@ == (LabelView { assigned: true, owner, number }),
    {
        self.assigned = true;
        self.owner = owner;
        self.number = number;
    }
}

} // verus!
