//! The text entry state machine: key inputs in, a finished line of text or a
//! cancellation out.

use crate::key::Input;
use vstd::prelude::*;

verus! {

/// The state of a text entry.
#[derive(Clone, Debug, PartialEq, Eq)]
pub enum TextEntry {
    /// The line is still being typed.
    Editing(String),
    /// The line was confirmed; it no longer changes.
    Submitted(String),
    /// The entry was interrupted; the line is gone.
    Cancelled,
}

/// The mathematical value of a [`TextEntry`].
pub enum TextEntryModel {
    Editing(Seq<char>),
    Submitted(Seq<char>),
    Cancelled,
}

impl View for TextEntry {
    type V = TextEntryModel;

    open spec fn view(&self) -> TextEntryModel {
        match self {
            TextEntry::Editing(buffer) => TextEntryModel::Editing(buffer@),
            TextEntry::Submitted(buffer) => TextEntryModel::Submitted(buffer@),
            TextEntry::Cancelled => TextEntryModel::Cancelled,
        }
    }
}

impl TextEntryModel {
    /// The state before any key: an empty line under edit.
    pub open spec fn initial() -> TextEntryModel {
        TextEntryModel::Editing(Seq::empty())
    }

    /// Submitted and cancelled entries accept no further input.
    pub open spec fn is_terminal(self) -> bool {
        !(self is Editing)
    }

    /// The state after one input.
    ///
    /// A character is appended; backspace removes the last character, if
    /// there is one; confirm freezes the line; interrupt discards it. Every
    /// other input, and every input to a terminal state, changes nothing.
    pub open spec fn step(self, input: Input) -> TextEntryModel {
        match self {
            TextEntryModel::Editing(buffer) => match input {
                Input::Character(c) => TextEntryModel::Editing(buffer.push(c)),
                Input::Backspace => if buffer.len() > 0 {
                    TextEntryModel::Editing(buffer.drop_last())
                } else {
                    TextEntryModel::Editing(buffer)
                },
                Input::Confirm => TextEntryModel::Submitted(buffer),
                Input::Interrupt => TextEntryModel::Cancelled,
                _ => self,
            },
            _ => self,
        }
    }

    /// The state after a sequence of inputs, taken in order.
    pub open spec fn run(self, inputs: Seq<Input>) -> TextEntryModel
        decreases inputs.len(),
    {
        if inputs.len() == 0 {
            self
        } else {
            self.run(inputs.drop_last()).step(inputs.last())
        }
    }
}

impl TextEntry {
    /// A fresh entry: an empty line under edit.
    pub fn new() -> (entry: TextEntry)
        ensures
            entry@ == TextEntryModel::initial(),
    {
        TextEntry::Editing(String::new())
    }

    /// Whether the entry has been submitted or cancelled.
    pub fn is_terminal(&self) -> (terminal: bool)
        ensures
            terminal == self@.is_terminal(),
    {
        match self {
            TextEntry::Editing(_) => false,
            _ => true,
        }
    }

    /// Applies one input.
    pub fn step(self, input: Input) -> (next: TextEntry)
        ensures
            next@ == self@.step(input),
    {
        match self {
            TextEntry::Editing(mut buffer) => match input {
                Input::Character(c) => {
                    buffer.push(c);
                    TextEntry::Editing(buffer)
                },
                Input::Backspace => {
                    buffer.pop();
                    TextEntry::Editing(buffer)
                },
                Input::Confirm => TextEntry::Submitted(buffer),
                Input::Interrupt => TextEntry::Cancelled,
                _ => TextEntry::Editing(buffer),
            },
            other => other,
        }
    }

    /// Applies a recorded sequence of inputs, in order.
    pub fn run(self, inputs: &Vec<Input>) -> (last: TextEntry)
        ensures
            last@ == self@.run(inputs@),
    {
        let mut current = self;
        let mut i: usize = 0;
        while i < inputs.len()
            invariant
                i <= inputs.len(),
                current@ == self@.run(inputs@.take(i as int)),
            decreases inputs.len() - i,
        {
            proof {
                assert(inputs@.take(i + 1).drop_last() =~= inputs@.take(i as int));
            }
            current = current.step(inputs[i]);
            i += 1;
        }
        proof {
            assert(inputs@.take(i as int) =~= inputs@);
        }
        current
    }
}

/// `inputs` types `text`: one character key for each character, in order,
/// and nothing else.
pub open spec fn spells(inputs: Seq<Input>, text: Seq<char>) -> bool {
    &&& inputs.len() == text.len()
    &&& forall|i: int| 0 <= i < text.len() ==> #[trigger] inputs[i] == Input::Character(text[i])
}

/// Typing into a line under edit appends what is typed, character by
/// character and in order.
pub proof fn lemma_typing_appends(buffer: Seq<char>, inputs: Seq<Input>, text: Seq<char>)
    requires
        spells(inputs, text),
    ensures
        TextEntryModel::Editing(buffer).run(inputs) == TextEntryModel::Editing(buffer + text),
    decreases text.len(),
{
    if text.len() == 0 {
        assert(buffer + text =~= buffer);
    } else {
        lemma_typing_appends(buffer, inputs.drop_last(), text.drop_last());
        assert(inputs.last() == Input::Character(text.last()));
        assert((buffer + text.drop_last()).push(text.last()) =~= buffer + text);
    }
}

/// Text fidelity: typing any text into a fresh entry and confirming submits
/// exactly that text.
pub proof fn lemma_text_fidelity(inputs: Seq<Input>, text: Seq<char>)
    requires
        spells(inputs, text),
    ensures
        TextEntryModel::initial().run(inputs.push(Input::Confirm)) == TextEntryModel::Submitted(
            text,
        ),
{
    lemma_typing_appends(Seq::empty(), inputs, text);
    assert(inputs.push(Input::Confirm).drop_last() =~= inputs);
    assert(Seq::<char>::empty() + text =~= text);
}

/// A submitted or cancelled entry stays as it is, whatever is typed after.
pub proof fn lemma_terminal_entry_is_final(entry: TextEntryModel, inputs: Seq<Input>)
    requires
        entry.is_terminal(),
    ensures
        entry.run(inputs) == entry,
    decreases inputs.len(),
{
    if inputs.len() > 0 {
        lemma_terminal_entry_is_final(entry, inputs.drop_last());
    }
}

/// An interrupt during editing cancels the entry, whatever was typed before.
pub proof fn lemma_interrupt_cancels_entry(entry: TextEntryModel, inputs: Seq<Input>)
    requires
        !entry.run(inputs).is_terminal(),
    ensures
        entry.run(inputs.push(Input::Interrupt)) == TextEntryModel::Cancelled,
{
    assert(inputs.push(Input::Interrupt).drop_last() =~= inputs);
}

} // verus!
