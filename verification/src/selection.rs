//! The selection state machine: key inputs in, an index into a list of fixed
//! size out. The cursor moves cyclically and is never out of range.

use crate::key::Input;
use vstd::prelude::*;

verus! {

/// Where a selection stands.
#[derive(Clone, Copy, Debug, PartialEq, Eq, Structural)]
pub enum SelectionState {
    /// The cursor is on the item at this index and can still move.
    Active(usize),
    /// The item at this index was chosen.
    Confirmed(usize),
    /// The selection was interrupted.
    Cancelled,
}

/// A selection among a fixed number of items.
#[derive(Clone, Copy, Debug, PartialEq, Eq)]
pub struct Selection {
    len: usize,
    state: SelectionState,
}

/// The mathematical value of a [`SelectionState`].
pub enum StateModel {
    Active { cursor: int },
    Confirmed { cursor: int },
    Cancelled,
}

/// The mathematical value of a [`Selection`].
pub struct SelectionModel {
    /// The number of items to choose from.
    pub len: int,
    pub state: StateModel,
}

impl View for SelectionState {
    type V = StateModel;

    open spec fn view(&self) -> StateModel {
        match self {
            SelectionState::Active(cursor) => StateModel::Active { cursor: *cursor as int },
            SelectionState::Confirmed(cursor) => StateModel::Confirmed { cursor: *cursor as int },
            SelectionState::Cancelled => StateModel::Cancelled,
        }
    }
}

/// The index after `index` in a cycle of `len` positions.
pub open spec fn index_after(index: int, len: int) -> int {
    (index + 1) % len
}

/// The index before `index` in a cycle of `len` positions.
pub open spec fn index_before(index: int, len: int) -> int {
    (index - 1) % len
}

impl SelectionModel {
    /// There is at least one item, and the cursor, where there is one,
    /// points at an item.
    pub open spec fn well_formed(self) -> bool {
        &&& 0 < self.len
        &&& self.state matches StateModel::Active { cursor } ==> 0 <= cursor < self.len
        &&& self.state matches StateModel::Confirmed { cursor } ==> 0 <= cursor < self.len
    }

    /// An active selection with the cursor on the given item.
    pub open spec fn active(len: int, cursor: int) -> SelectionModel {
        SelectionModel { len, state: StateModel::Active { cursor } }
    }

    /// The state before any key: active, with the cursor on the first item.
    pub open spec fn initial(len: int) -> SelectionModel {
        SelectionModel::active(len, 0)
    }

    /// Confirmed and cancelled selections accept no further input.
    pub open spec fn is_terminal(self) -> bool {
        !(self.state is Active)
    }

    /// The state after one input.
    ///
    /// Up and down move the cursor by one position, around the ends of the
    /// list; confirm chooses the item under the cursor; interrupt cancels.
    /// Every other input, and every input to a terminal state, changes
    /// nothing.
    pub open spec fn step(self, input: Input) -> SelectionModel {
        match self.state {
            StateModel::Active { cursor } => match input {
                Input::Up => SelectionModel::active(self.len, index_before(cursor, self.len)),
                Input::Down => SelectionModel::active(self.len, index_after(cursor, self.len)),
                Input::Confirm => SelectionModel { state: StateModel::Confirmed { cursor }, ..self },
                Input::Interrupt => SelectionModel { state: StateModel::Cancelled, ..self },
                _ => self,
            },
            _ => self,
        }
    }

    /// The state after a sequence of inputs, taken in order.
    pub open spec fn run(self, inputs: Seq<Input>) -> SelectionModel
        decreases inputs.len(),
    {
        if inputs.len() == 0 {
            self
        } else {
            self.run(inputs.drop_last()).step(inputs.last())
        }
    }
}

impl View for Selection {
    type V = SelectionModel;

    closed spec fn view(&self) -> SelectionModel {
        SelectionModel { len: self.len as int, state: self.state@ }
    }
}

impl Selection {
    #[verifier::type_invariant]
    spec fn cursor_in_range(self) -> bool {
        match self.state {
            SelectionState::Active(cursor) => cursor < self.len,
            SelectionState::Confirmed(cursor) => cursor < self.len,
            SelectionState::Cancelled => 0 < self.len,
        }
    }

    /// A fresh selection among `len` items, or `None` where there is nothing
    /// to select from.
    pub fn new(len: usize) -> (selection: Option<Selection>)
        ensures
            len == 0 <==> selection.is_none(),
            selection matches Some(s) ==> s@ == SelectionModel::initial(len as int),
    {
        if len == 0 {
            None
        } else {
            Some(Selection { len, state: SelectionState::Active(0) })
        }
    }

    /// Applies one input.
    pub fn step(self, input: Input) -> (next: Selection)
        ensures
            next@ == self@.step(input),
            next@.well_formed(),
    {
        proof {
            use_type_invariant(&self);
        }
        match self.state {
            SelectionState::Active(cursor) => match input {
                Input::Up => {
                    let moved = if cursor == 0 {
                        self.len - 1
                    } else {
                        cursor - 1
                    };
                    proof {
                        lemma_index_before(cursor as int, self.len as int);
                    }
                    Selection { len: self.len, state: SelectionState::Active(moved) }
                },
                Input::Down => {
                    let moved = if cursor == self.len - 1 {
                        0
                    } else {
                        cursor + 1
                    };
                    proof {
                        lemma_index_after(cursor as int, self.len as int);
                    }
                    Selection { len: self.len, state: SelectionState::Active(moved) }
                },
                Input::Confirm => Selection {
                    len: self.len,
                    state: SelectionState::Confirmed(cursor),
                },
                Input::Interrupt => Selection { len: self.len, state: SelectionState::Cancelled },
                _ => self,
            },
            _ => self,
        }
    }

    /// Applies a recorded sequence of inputs, in order.
    pub fn run(self, inputs: &Vec<Input>) -> (last: Selection)
        ensures
            last@ == self@.run(inputs@),
            last@.well_formed(),
    {
        proof {
            use_type_invariant(&self);
        }
        let mut current = self;
        let mut i: usize = 0;
        while i < inputs.len()
            invariant
                i <= inputs.len(),
                current@ == self@.run(inputs@.take(i as int)),
                current@.well_formed(),
            decreases inputs.len() - i,
        {
            proof {
                assert(inputs@.take(i + 1).drop_last() =~= inputs@.take(i as int));
            }
            current = current.step(inputs[i]);
            i += 1;
        }
        proof {
            assert(inputs@.take(i as int) =~= inputs@);
        }
        current
    }

    /// The number of items to choose from.
    pub fn len(&self) -> (len: usize)
        ensures
            len == self@.len,
            len > 0,
    {
        proof {
            use_type_invariant(self);
        }
        self.len
    }

    /// Where the selection stands. A cursor in it points at an item.
    pub fn state(&self) -> (state: SelectionState)
        ensures
            state@ == self@.state,
            self@.well_formed(),
    {
        proof {
            use_type_invariant(self);
        }
        self.state
    }

    /// Whether the selection has been confirmed or cancelled.
    pub fn is_terminal(&self) -> (terminal: bool)
        ensures
            terminal == self@.is_terminal(),
    {
        match self.state {
            SelectionState::Active(_) => false,
            _ => true,
        }
    }

    /// The index under the cursor, while there is one.
    pub fn cursor(&self) -> (cursor: Option<usize>)
        ensures
            cursor.is_none() <==> self@.state is Cancelled,
            cursor matches Some(index) ==> index < self@.len && (self@.state
                == (StateModel::Active { cursor: index as int }) || self@.state
                == (StateModel::Confirmed { cursor: index as int })),
    {
        proof {
            use_type_invariant(self);
        }
        match self.state {
            SelectionState::Active(cursor) => Some(cursor),
            SelectionState::Confirmed(cursor) => Some(cursor),
            SelectionState::Cancelled => None,
        }
    }

    /// The chosen index, once the selection is confirmed.
    pub fn chosen(&self) -> (chosen: Option<usize>)
        ensures
            chosen.is_some() <==> self@.state is Confirmed,
            chosen matches Some(index) ==> index < self@.len && self@.state
                == (StateModel::Confirmed { cursor: index as int }),
    {
        proof {
            use_type_invariant(self);
        }
        match self.state {
            SelectionState::Confirmed(cursor) => Some(cursor),
            _ => None,
        }
    }
}

/// Moving down goes to the next index, and from the last index to the first.
pub proof fn lemma_index_after(index: int, len: int)
    requires
        0 <= index < len,
    ensures
        index + 1 < len ==> index_after(index, len) == index + 1,
        index + 1 == len ==> index_after(index, len) == 0,
        0 <= index_after(index, len) < len,
{
    if index + 1 < len {
        vstd::arithmetic::div_mod::lemma_small_mod((index + 1) as nat, len as nat);
    } else {
        vstd::arithmetic::div_mod::lemma_mod_self_0(len);
    }
}

/// Moving up goes to the previous index, and from the first index to the
/// last.
pub proof fn lemma_index_before(index: int, len: int)
    requires
        0 <= index < len,
    ensures
        index > 0 ==> index_before(index, len) == index - 1,
        index == 0 ==> index_before(index, len) == len - 1,
        0 <= index_before(index, len) < len,
{
    if index > 0 {
        vstd::arithmetic::div_mod::lemma_small_mod((index - 1) as nat, len as nat);
    } else {
        vstd::arithmetic::div_mod::lemma_mod_add_multiples_vanish(-1, len);
        vstd::arithmetic::div_mod::lemma_small_mod((len - 1) as nat, len as nat);
    }
}

/// `inputs` is the same input over and over.
pub open spec fn repeats(inputs: Seq<Input>, input: Input) -> bool {
    forall|i: int| 0 <= i < inputs.len() ==> #[trigger] inputs[i] == input
}

/// Every step keeps the cursor in range and the list as long as it was.
pub proof fn lemma_step_keeps_cursor_in_range(selection: SelectionModel, input: Input)
    requires
        selection.well_formed(),
    ensures
        selection.step(input).well_formed(),
        selection.step(input).len == selection.len,
{
    if let StateModel::Active { cursor } = selection.state {
        lemma_index_after(cursor, selection.len);
        lemma_index_before(cursor, selection.len);
    }
}

/// Every run keeps the cursor in range and the list as long as it was.
pub proof fn lemma_run_keeps_cursor_in_range(selection: SelectionModel, inputs: Seq<Input>)
    requires
        selection.well_formed(),
    ensures
        selection.run(inputs).well_formed(),
        selection.run(inputs).len == selection.len,
    decreases inputs.len(),
{
    if inputs.len() > 0 {
        lemma_run_keeps_cursor_in_range(selection, inputs.drop_last());
        lemma_step_keeps_cursor_in_range(selection.run(inputs.drop_last()), inputs.last());
    }
}

/// Wraparound at the ends: up from the first item lands on the last, and
/// down from the last item lands on the first.
pub proof fn lemma_wraparound(len: int)
    requires
        len > 0,
    ensures
        SelectionModel::active(len, 0).step(Input::Up) == SelectionModel::active(len, len - 1),
        SelectionModel::active(len, len - 1).step(Input::Down) == SelectionModel::active(len, 0),
{
    lemma_index_before(0, len);
    lemma_index_after(len - 1, len);
}

/// Pressing down `k` times moves an active cursor `k` positions forward
/// around the cycle.
pub proof fn lemma_down_moves_forward(len: int, cursor: int, inputs: Seq<Input>)
    requires
        0 <= cursor < len,
        repeats(inputs, Input::Down),
    ensures
        SelectionModel::active(len, cursor).run(inputs) == SelectionModel::active(
            len,
            (cursor + inputs.len()) % len,
        ),
    decreases inputs.len(),
{
    if inputs.len() == 0 {
        vstd::arithmetic::div_mod::lemma_small_mod(cursor as nat, len as nat);
    } else {
        lemma_down_moves_forward(len, cursor, inputs.drop_last());
        let before = cursor + inputs.len() - 1;
        vstd::arithmetic::div_mod::lemma_fundamental_div_mod(before, len);
        vstd::arithmetic::div_mod::lemma_mod_multiples_vanish(-(before / len), before + 1, len);
        assert(len * -(before / len) + (before + 1) == before % len + 1) by (nonlinear_arith)
            requires
                before == len * (before / len) + before % len,
        ;
    }
}

/// Pressing up `k` times moves an active cursor `k` positions backward
/// around the cycle.
pub proof fn lemma_up_moves_backward(len: int, cursor: int, inputs: Seq<Input>)
    requires
        0 <= cursor < len,
        repeats(inputs, Input::Up),
    ensures
        SelectionModel::active(len, cursor).run(inputs) == SelectionModel::active(
            len,
            (cursor - inputs.len()) % len,
        ),
    decreases inputs.len(),
{
    if inputs.len() == 0 {
        vstd::arithmetic::div_mod::lemma_small_mod(cursor as nat, len as nat);
    } else {
        lemma_up_moves_backward(len, cursor, inputs.drop_last());
        let before = cursor - inputs.len() + 1;
        vstd::arithmetic::div_mod::lemma_fundamental_div_mod(before, len);
        vstd::arithmetic::div_mod::lemma_mod_multiples_vanish(-(before / len), before - 1, len);
        assert(len * -(before / len) + (before - 1) == before % len - 1) by (nonlinear_arith)
            requires
                before == len * (before / len) + before % len,
        ;
    }
}

/// The cycle closes: from any position in a list of `len` items, pressing
/// down `len` times brings the cursor back to where it was, and so does
/// pressing up `len` times.
pub proof fn lemma_full_cycle_returns(len: int, cursor: int, downs: Seq<Input>, ups: Seq<Input>)
    requires
        0 <= cursor < len,
        repeats(downs, Input::Down),
        downs.len() == len,
        repeats(ups, Input::Up),
        ups.len() == len,
    ensures
        SelectionModel::active(len, cursor).run(downs) == SelectionModel::active(len, cursor),
        SelectionModel::active(len, cursor).run(ups) == SelectionModel::active(len, cursor),
{
    lemma_down_moves_forward(len, cursor, downs);
    lemma_up_moves_backward(len, cursor, ups);
    vstd::arithmetic::div_mod::lemma_small_mod(cursor as nat, len as nat);
    vstd::arithmetic::div_mod::lemma_mod_add_multiples_vanish(cursor, len);
    vstd::arithmetic::div_mod::lemma_mod_sub_multiples_vanish(cursor, len);
}

/// An interrupt while the cursor can still move cancels the selection,
/// whatever was pressed before.
pub proof fn lemma_interrupt_cancels_selection(selection: SelectionModel, inputs: Seq<Input>)
    requires
        !selection.run(inputs).is_terminal(),
    ensures
        selection.run(inputs.push(Input::Interrupt)).state == StateModel::Cancelled,
{
    assert(inputs.push(Input::Interrupt).drop_last() =~= inputs);
}

/// A confirmed or cancelled selection stays as it is, whatever is pressed
/// after.
pub proof fn lemma_terminal_selection_is_final(selection: SelectionModel, inputs: Seq<Input>)
    requires
        selection.is_terminal(),
    ensures
        selection.run(inputs) == selection,
    decreases inputs.len(),
{
    if inputs.len() > 0 {
        lemma_terminal_selection_is_final(selection, inputs.drop_last());
    }
}

} // verus!
