//! Operands: what a block takes as the value of an input.

use crate::block::{Id, Input, InputView};
use crate::entity::{ListRef, VariableRef};
use crate::number::Number;
use vstd::prelude::*;
use vstd::std_specs::convert::FromSpecImpl;

verus! {

/// The value of an input: a literal, a variable or a list, or the block
/// that computes it.
pub struct Operand(pub(crate) Input);

impl View for Operand {
    type V = InputView;

    closed spec fn view(&self) -> InputView {
        self.0@
    }
}

impl Operand {
    /// The operand that stands for the value of the block `id`.
    pub(crate) fn block(id: Id) -> (operand: Operand)
        ensures
            operand@ == InputView::Substack(id@),
    {
        Operand(Input::Substack(id))
    }

    /// What the operand puts into an input slot.
    pub(crate) fn into_input(self) -> (input: Input)
        ensures
            input@ == self@,
    {
        self.0
    }
}

impl From<Number> for Operand {
    /// The number as an operand.
    fn from(value: Number) -> (operand: Self)
        ensures
            operand@ == InputView::Number(value@),
    {
        Self(Input::Number(value))
    }
}

impl FromSpecImpl<Number> for Operand {
    open spec fn obeys_from_spec() -> bool {
        true
    }

    closed spec fn from_spec(value: Number) -> Self {
        Self(Input::Number(value))
    }
}

impl From<String> for Operand {
    /// The string as an operand.
    fn from(value: String) -> (operand: Self)
        ensures
            operand@ == InputView::Text(value@),
    {
        Self(Input::String(value))
    }
}

impl FromSpecImpl<String> for Operand {
    open spec fn obeys_from_spec() -> bool {
        true
    }

    closed spec fn from_spec(value: String) -> Self {
        Self(Input::String(value))
    }
}

impl From<VariableRef> for Operand {
    /// The value of the variable as an operand.
    fn from(value: VariableRef) -> (operand: Self)
        ensures
            operand@ == InputView::Variable(value@),
    {
        Self(Input::Variable(value))
    }
}

impl FromSpecImpl<VariableRef> for Operand {
    open spec fn obeys_from_spec() -> bool {
        true
    }

    closed spec fn from_spec(value: VariableRef) -> Self {
        Self(Input::Variable(value))
    }
}

impl From<ListRef> for Operand {
    /// The content of the list as an operand.
    fn from(value: ListRef) -> (operand: Self)
        ensures
            operand@ == InputView::List(value@),
    {
        Self(Input::List(value))
    }
}

impl FromSpecImpl<ListRef> for Operand {
    open spec fn obeys_from_spec() -> bool {
        true
    }

    closed spec fn from_spec(value: ListRef) -> Self {
        Self(Input::List(value))
    }
}

} // verus!
