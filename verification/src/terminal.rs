//! The terminal surface: the commands that can be asked of the terminal, and
//! the mode they leave it in.
//!
//! Nothing here talks to a terminal. A [`TerminalSurface`] is the record that
//! the owner of the terminal keeps of the mode it has put the terminal in, so
//! that it knows on every way out whether there is something to hand back.

use crate::render::{Frame, FrameModel};
use vstd::prelude::*;

verus! {

/// What can be asked of the terminal.
#[derive(Clone, Debug, PartialEq, Eq)]
pub enum Command {
    /// Take the terminal: switch to the alternate screen and to raw mode.
    Acquire,
    /// Clear the screen and show this frame.
    Draw(Frame),
    /// Hand the terminal back: leave raw mode and the alternate screen.
    Release,
}

/// The mathematical value of a [`Command`].
pub enum CommandModel {
    Acquire,
    Draw(FrameModel),
    Release,
}

impl View for Command {
    type V = CommandModel;

    open spec fn view(&self) -> CommandModel {
        match self {
            Command::Acquire => CommandModel::Acquire,
            Command::Draw(frame) => CommandModel::Draw(frame@),
            Command::Release => CommandModel::Release,
        }
    }
}

impl DeepView for Command {
    type V = CommandModel;

    open spec fn deep_view(&self) -> CommandModel {
        self@
    }
}

/// The mode of the terminal.
pub struct TerminalModel {
    /// Keys arrive one by one, unbuffered and without echo.
    pub raw_mode: bool,
    /// Output goes to the alternate screen, which vanishes when it is left.
    pub alternate_screen: bool,
}

impl TerminalModel {
    /// The mode the terminal is in when nobody has taken it.
    pub open spec fn restored() -> TerminalModel {
        TerminalModel { raw_mode: false, alternate_screen: false }
    }

    /// The mode the terminal is in while a session holds it.
    pub open spec fn taken() -> TerminalModel {
        TerminalModel { raw_mode: true, alternate_screen: true }
    }

    /// The mode after one command. Taking and handing back set the mode
    /// whatever it was before; drawing leaves it alone.
    pub open spec fn perform(self, command: CommandModel) -> TerminalModel {
        match command {
            CommandModel::Acquire => TerminalModel::taken(),
            CommandModel::Draw(_) => self,
            CommandModel::Release => TerminalModel::restored(),
        }
    }

    /// The mode after a sequence of commands, performed in order.
    pub open spec fn perform_all(self, commands: Seq<CommandModel>) -> TerminalModel
        decreases commands.len(),
    {
        if commands.len() == 0 {
            self
        } else {
            self.perform_all(commands.drop_last()).perform(commands.last())
        }
    }
}

/// How often a sequence of commands hands the terminal back.
pub open spec fn releases(commands: Seq<CommandModel>) -> nat
    decreases commands.len(),
{
    if commands.len() == 0 {
        0
    } else if commands.last() is Release {
        releases(commands.drop_last()) + 1
    } else {
        releases(commands.drop_last())
    }
}

/// The record of the mode the terminal has been put in.
#[derive(Clone, Copy, Debug, PartialEq, Eq, Structural)]
pub struct TerminalSurface {
    raw_mode: bool,
    alternate_screen: bool,
}

impl View for TerminalSurface {
    type V = TerminalModel;

    closed spec fn view(&self) -> TerminalModel {
        TerminalModel { raw_mode: self.raw_mode, alternate_screen: self.alternate_screen }
    }
}

impl TerminalSurface {
    /// The record of a terminal that nobody has taken.
    pub fn new() -> (surface: TerminalSurface)
        ensures
            surface@ == TerminalModel::restored(),
    {
        TerminalSurface { raw_mode: false, alternate_screen: false }
    }

    /// Records that the terminal was taken.
    pub fn acquire(&mut self)
        ensures
            final(self)@ == TerminalModel::taken(),
    {
        self.raw_mode = true;
        self.alternate_screen = true;
    }

    /// Records that the terminal was handed back. Whatever the mode was, it
    /// is neither raw nor on the alternate screen afterwards.
    pub fn release(&mut self)
        ensures
            final(self)@ == TerminalModel::restored(),
            !final(self)@.raw_mode,
            !final(self)@.alternate_screen,
    {
        self.raw_mode = false;
        self.alternate_screen = false;
    }

    /// Records that a command was performed.
    pub fn perform(&mut self, command: &Command)
        ensures
            final(self)@ == old(self)@.perform(command@),
    {
        match command {
            Command::Acquire => self.acquire(),
            Command::Draw(_) => {},
            Command::Release => self.release(),
        }
    }

    /// Whether the terminal is in raw mode.
    pub fn raw_mode(&self) -> (raw: bool)
        ensures
            raw == self@.raw_mode,
    {
        self.raw_mode
    }

    /// Whether the terminal shows the alternate screen.
    pub fn alternate_screen(&self) -> (alternate: bool)
        ensures
            alternate == self@.alternate_screen,
    {
        self.alternate_screen
    }

    /// Whether there is nothing to hand back.
    pub fn is_restored(&self) -> (restored: bool)
        ensures
            restored == (self@ == TerminalModel::restored()),
    {
        !self.raw_mode && !self.alternate_screen
    }
}

/// Performing one sequence of commands after another is performing the two
/// in a row.
pub proof fn lemma_perform_all_concat(
    terminal: TerminalModel,
    first: Seq<CommandModel>,
    second: Seq<CommandModel>,
)
    ensures
        terminal.perform_all(first + second) == terminal.perform_all(first).perform_all(second),
    decreases second.len(),
{
    if second.len() == 0 {
        assert(first + second =~= first);
    } else {
        lemma_perform_all_concat(terminal, first, second.drop_last());
        assert((first + second).drop_last() =~= first + second.drop_last());
    }
}

/// The hand-backs of two sequences of commands in a row add up.
pub proof fn lemma_releases_concat(first: Seq<CommandModel>, second: Seq<CommandModel>)
    ensures
        releases(first + second) == releases(first) + releases(second),
    decreases second.len(),
{
    if second.len() == 0 {
        assert(first + second =~= first);
    } else {
        lemma_releases_concat(first, second.drop_last());
        assert((first + second).drop_last() =~= first + second.drop_last());
    }
}

} // verus!
