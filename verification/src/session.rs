//! The session controller: it takes the terminal, asks for the project name,
//! lets the operator choose a language, and hands the terminal back before
//! it reports how the session ended.
//!
//! The controller does no input or output. It is told what happened, one
//! event at a time, and answers with the commands to perform before the next
//! event is read.

use crate::dispatch::{dispatch_plan, plan_model, DispatchStep, DispatchStepModel};
use crate::key::{classify, input_of, Input, KeyPress};
use crate::language::ProjectLanguage;
use crate::menu::{is_menu, Menu, MenuItemModel};
use crate::render::{menu_frame, render_menu, render_text, text_frame};
use crate::selection::{
    lemma_index_after, lemma_index_before, Selection, SelectionModel, SelectionState, StateModel,
};
use crate::terminal::{
    lemma_perform_all_concat, lemma_releases_concat, releases, Command, CommandModel,
    TerminalModel,
};
use crate::text_entry::{TextEntry, TextEntryModel};
use vstd::pervasive::unreached;
use vstd::prelude::*;

verus! {

/// How a session ended.
#[derive(Clone, Debug, PartialEq, Eq)]
pub enum SessionOutcome {
    /// A name was entered and a language chosen.
    Completed { project_name: String, language: ProjectLanguage },
    /// The operator interrupted the session. This is no failure.
    GracefulCancel,
    /// Reading input or writing to the terminal failed; the text says how.
    Fault(String),
}

/// The mathematical value of a [`SessionOutcome`].
pub enum OutcomeModel {
    Completed { project_name: Seq<char>, language: ProjectLanguage },
    GracefulCancel,
    Fault(Seq<char>),
}

impl View for SessionOutcome {
    type V = OutcomeModel;

    open spec fn view(&self) -> OutcomeModel {
        match self {
            SessionOutcome::Completed { project_name, language } => OutcomeModel::Completed {
                project_name: project_name@,
                language: *language,
            },
            SessionOutcome::GracefulCancel => OutcomeModel::GracefulCancel,
            SessionOutcome::Fault(description) => OutcomeModel::Fault(description@),
        }
    }
}

impl OutcomeModel {
    /// The status the process exits with: zero unless the session failed.
    pub open spec fn exit_code(self) -> int {
        if self is Fault {
            1
        } else {
            0
        }
    }

    /// The one line the process prints at the end: a short word of success
    /// after a completed session, the description after a fault, and nothing
    /// after a cancel.
    pub open spec fn message(self) -> Option<Seq<char>> {
        match self {
            OutcomeModel::Completed { .. } => Some("Done!"@),
            OutcomeModel::GracefulCancel => None,
            OutcomeModel::Fault(description) => Some(description),
        }
    }

    /// The outcome to report once the terminal has been handed back. Where
    /// that failed, the failure is the outcome, unless the session had
    /// failed before: the first fault is the one reported.
    pub open spec fn after_release(self, failure: Option<Seq<char>>) -> OutcomeModel {
        match failure {
            Some(description) if !(self is Fault) => OutcomeModel::Fault(description),
            _ => self,
        }
    }

    /// The steps that create the project. Only a completed session creates
    /// one.
    pub open spec fn plan(self) -> Seq<DispatchStepModel> {
        match self {
            OutcomeModel::Completed { project_name, language } => plan_model(
                project_name,
                language.initializer_model(),
            ),
            _ => seq![],
        }
    }
}

impl SessionOutcome {
    /// The status the process exits with.
    pub fn exit_code(&self) -> (code: i32)
        ensures
            code == self@.exit_code(),
    {
        match self {
            SessionOutcome::Fault(_) => 1,
            _ => 0,
        }
    }

    /// The one line the process prints at the end, if any.
    pub fn message(&self) -> (message: Option<String>)
        ensures
            message.is_some() == self@.message().is_some(),
            message matches Some(line) ==> Some(line@) == self@.message(),
    {
        match self {
            SessionOutcome::Completed { .. } => Some("Done!".to_owned()),
            SessionOutcome::GracefulCancel => None,
            SessionOutcome::Fault(description) => Some(description.clone()),
        }
    }

    /// The outcome to report once the terminal has been handed back;
    /// `failure` describes what went wrong in handing it back, if anything
    /// did.
    pub fn after_release(self, failure: Option<String>) -> (reported: SessionOutcome)
        ensures
            reported@ == self@.after_release(
                match failure {
                    Some(description) => Some(description@),
                    None => None,
                },
            ),
    {
        match failure {
            Some(description) => match self {
                SessionOutcome::Fault(first) => SessionOutcome::Fault(first),
                _ => SessionOutcome::Fault(description),
            },
            None => self,
        }
    }

    /// The steps that create the project, to be performed once the terminal
    /// has been handed back.
    pub fn dispatch(&self) -> (steps: Vec<DispatchStep>)
        ensures
            steps.deep_view() == self@.plan(),
    {
        match self {
            SessionOutcome::Completed { project_name, language } => dispatch_plan(
                project_name.as_str(),
                *language,
            ),
            _ => {
                let steps: Vec<DispatchStep> = Vec::new();
                assert(steps.deep_view() =~= seq![]);
                steps
            },
        }
    }
}

/// What the program around the controller reports to it.
#[derive(Clone, Debug, PartialEq, Eq)]
pub enum SessionEvent {
    /// A key was pressed.
    Key(KeyPress),
    /// Something else arrived on the input (a resize, a mouse move).
    Other,
    /// Performing a command or reading the input failed.
    Fault(String),
}

/// The mathematical value of a [`SessionEvent`].
pub enum EventModel {
    Key(KeyPress),
    Other,
    Fault(Seq<char>),
}

impl View for SessionEvent {
    type V = EventModel;

    open spec fn view(&self) -> EventModel {
        match self {
            SessionEvent::Key(press) => EventModel::Key(*press),
            SessionEvent::Other => EventModel::Other,
            SessionEvent::Fault(description) => EventModel::Fault(description@),
        }
    }
}

/// Where a session stands.
pub enum PhaseModel {
    /// The project name is being typed.
    EnteringName { buffer: Seq<char> },
    /// The name is fixed and the cursor moves over the menu.
    Selecting { project_name: Seq<char>, cursor: int },
    /// The session is over and the terminal handed back.
    Finished { outcome: OutcomeModel },
}

/// The mathematical value of a [`Session`].
pub struct SessionModel {
    pub menu: Seq<MenuItemModel>,
    pub phase: PhaseModel,
}

/// One step of a session: the state it leads to, and the commands to perform
/// on the way.
pub struct TransitionModel {
    pub next: SessionModel,
    pub commands: Seq<CommandModel>,
}

impl SessionModel {
    /// The menu is a menu, and a cursor, where there is one, points into it.
    pub open spec fn well_formed(self) -> bool {
        &&& is_menu(self.menu)
        &&& self.phase matches PhaseModel::Selecting { cursor, .. } ==> 0 <= cursor
            < self.menu.len()
    }

    /// The state in which a session begins: an empty name under edit.
    pub open spec fn initial(menu: Seq<MenuItemModel>) -> SessionModel {
        SessionModel { menu, phase: PhaseModel::EnteringName { buffer: Seq::empty() } }
    }

    /// The commands that begin a session: take the terminal, then show the
    /// empty name.
    pub open spec fn opening_commands() -> Seq<CommandModel> {
        seq![CommandModel::Acquire, CommandModel::Draw(text_frame(Seq::empty()))]
    }

    /// The session is over: it has an outcome and takes no further part.
    pub open spec fn is_finished(self) -> bool {
        self.phase is Finished
    }

    /// The session ends here: the terminal is handed back and the outcome
    /// stands.
    pub open spec fn finish(self, outcome: OutcomeModel) -> TransitionModel {
        TransitionModel {
            next: SessionModel { phase: PhaseModel::Finished { outcome }, ..self },
            commands: seq![CommandModel::Release],
        }
    }

    /// The session goes on with the name under edit, which is shown at once.
    pub open spec fn edit(self, buffer: Seq<char>) -> TransitionModel {
        TransitionModel {
            next: SessionModel { phase: PhaseModel::EnteringName { buffer }, ..self },
            commands: seq![CommandModel::Draw(text_frame(buffer))],
        }
    }

    /// The session goes on with the cursor on the menu, which is shown at
    /// once.
    pub open spec fn select(self, project_name: Seq<char>, cursor: int) -> TransitionModel {
        TransitionModel {
            next: SessionModel { phase: PhaseModel::Selecting { project_name, cursor }, ..self },
            commands: seq![CommandModel::Draw(menu_frame(self.menu, cursor))],
        }
    }

    /// The step that an input causes in a running session.
    ///
    /// During name entry the input goes to a text entry: while it stays under
    /// edit the session shows the line; once it is submitted the session
    /// moves to the menu with the cursor on the first entry. During selection
    /// the input goes to a selection: while it is active the session shows
    /// the menu; once it is confirmed the session is complete with the name
    /// and the language under the cursor. An interrupt in either phase ends
    /// the session as a graceful cancel.
    pub open spec fn advance(self, input: Input) -> TransitionModel {
        match self.phase {
            PhaseModel::EnteringName { buffer } => match TextEntryModel::Editing(buffer).step(
                input,
            ) {
                TextEntryModel::Editing(edited) => self.edit(edited),
                TextEntryModel::Submitted(project_name) => self.select(project_name, 0),
                TextEntryModel::Cancelled => self.finish(OutcomeModel::GracefulCancel),
            },
            PhaseModel::Selecting { project_name, cursor } => {
                let moved = SelectionModel::active(self.menu.len() as int, cursor).step(input);
                match moved.state {
                    StateModel::Active { cursor: onto } => self.select(project_name, onto),
                    StateModel::Confirmed { cursor: chosen } => self.finish(
                        OutcomeModel::Completed {
                            project_name,
                            language: self.menu[chosen].language,
                        },
                    ),
                    StateModel::Cancelled => self.finish(OutcomeModel::GracefulCancel),
                }
            },
            PhaseModel::Finished { .. } => TransitionModel { next: self, commands: seq![] },
        }
    }

    /// The step that an event causes.
    ///
    /// A finished session ignores every event and asks for nothing. A running
    /// session ends on a fault, with the fault as its outcome; it takes a key
    /// press as the input it stands for, and anything else as an input that
    /// means nothing.
    pub open spec fn step(self, event: EventModel) -> TransitionModel {
        if self.is_finished() {
            TransitionModel { next: self, commands: seq![] }
        } else {
            match event {
                EventModel::Fault(description) => self.finish(OutcomeModel::Fault(description)),
                EventModel::Key(press) => self.advance(input_of(press)),
                EventModel::Other => self.advance(Input::Ignored),
            }
        }
    }
}

#[derive(Debug)]
enum Phase {
    EnteringName { buffer: String },
    Selecting { project_name: String, selection: Selection },
    Finished { outcome: SessionOutcome },
}

/// A session, from taking the terminal to handing it back.
#[derive(Debug)]
pub struct Session {
    menu: Menu,
    phase: Phase,
}

impl View for Session {
    type V = SessionModel;

    closed spec fn view(&self) -> SessionModel {
        SessionModel {
            menu: self.menu@,
            phase: match self.phase {
                Phase::EnteringName { buffer } => PhaseModel::EnteringName { buffer: buffer@ },
                Phase::Selecting { project_name, selection } => PhaseModel::Selecting {
                    project_name: project_name@,
                    cursor: selection@.state->Active_cursor,
                },
                Phase::Finished { outcome } => PhaseModel::Finished { outcome: outcome@ },
            },
        }
    }
}

impl Session {
    #[verifier::type_invariant]
    spec fn selection_fits_menu(self) -> bool {
        self.phase matches Phase::Selecting { selection, .. } ==> {
            &&& selection@.len == self.menu@.len()
            &&& selection@.state is Active
        }
    }

    /// Begins a session over the given menu. The commands take the terminal
    /// and show the empty name.
    pub fn start(menu: Menu) -> (begun: (Session, Vec<Command>))
        ensures
            begun.0@ == SessionModel::initial(menu@),
            begun.0@.well_formed(),
            begun.1.deep_view() == SessionModel::opening_commands(),
    {
        // A menu is never empty, and its length says so.
        let _ = menu.len();
        let mut commands: Vec<Command> = Vec::new();
        commands.push(Command::Acquire);
        commands.push(Command::Draw(render_text("")));
        proof {
            reveal_strlit("");
            assert(""@ =~= Seq::<char>::empty());
            assert(commands.deep_view() =~= SessionModel::opening_commands());
        }
        (Session { menu, phase: Phase::EnteringName { buffer: String::new() } }, commands)
    }

    /// Whether the session is over.
    pub fn is_finished(&self) -> (finished: bool)
        ensures
            finished == self@.is_finished(),
    {
        match &self.phase {
            Phase::Finished { .. } => true,
            _ => false,
        }
    }

    /// How the session ended, once it is over.
    pub fn outcome(&self) -> (outcome: Option<&SessionOutcome>)
        ensures
            outcome.is_some() <==> self@.is_finished(),
            outcome matches Some(ended) ==> self@.phase == (PhaseModel::Finished {
                outcome: ended@,
            }),
    {
        match &self.phase {
            Phase::Finished { outcome } => Some(outcome),
            _ => None,
        }
    }

    /// The menu the session runs over.
    pub fn menu(&self) -> (menu: &Menu)
        ensures
            menu@ == self@.menu,
    {
        &self.menu
    }

    /// Takes one event and says what to do before the next.
    pub fn step(self, event: SessionEvent) -> (taken: (Session, Vec<Command>))
        ensures
            taken.0@ == self@.step(event@).next,
            taken.1.deep_view() == self@.step(event@).commands,
    {
        proof {
            use_type_invariant(&self);
        }
        let Session { menu, phase } = self;
        let mut commands: Vec<Command> = Vec::new();
        if let Phase::Finished { outcome } = phase {
            assert(commands.deep_view() =~= seq![]);
            return (Session { menu, phase: Phase::Finished { outcome } }, commands);
        }
        let input = match event {
            SessionEvent::Fault(description) => {
                commands.push(Command::Release);
                assert(commands.deep_view() =~= seq![CommandModel::Release]);
                return (
                    Session {
                        menu,
                        phase: Phase::Finished { outcome: SessionOutcome::Fault(description) },
                    },
                    commands,
                );
            },
            SessionEvent::Key(press) => classify(press),
            SessionEvent::Other => Input::Ignored,
        };
        let next = match phase {
            Phase::EnteringName { buffer } => {
                match TextEntry::Editing(buffer).step(input) {
                    TextEntry::Editing(edited) => {
                        commands.push(Command::Draw(render_text(edited.as_str())));
                        Phase::EnteringName { buffer: edited }
                    },
                    TextEntry::Submitted(project_name) => {
                        let selection = match Selection::new(menu.len()) {
                            Some(selection) => selection,
                            None => unreached(),
                        };
                        commands.push(Command::Draw(render_menu(&menu, 0)));
                        Phase::Selecting { project_name, selection }
                    },
                    TextEntry::Cancelled => {
                        commands.push(Command::Release);
                        Phase::Finished { outcome: SessionOutcome::GracefulCancel }
                    },
                }
            },
            Phase::Selecting { project_name, selection } => {
                let moved = selection.step(input);
                match moved.state() {
                    SelectionState::Active(cursor) => {
                        commands.push(Command::Draw(render_menu(&menu, cursor)));
                        Phase::Selecting { project_name, selection: moved }
                    },
                    SelectionState::Confirmed(cursor) => {
                        let language = match menu.get(cursor) {
                            Some(item) => item.language,
                            None => unreached(),
                        };
                        commands.push(Command::Release);
                        Phase::Finished {
                            outcome: SessionOutcome::Completed { project_name, language },
                        }
                    },
                    SelectionState::Cancelled => {
                        commands.push(Command::Release);
                        Phase::Finished { outcome: SessionOutcome::GracefulCancel }
                    },
                }
            },
            Phase::Finished { outcome } => Phase::Finished { outcome },
        };
        let session = Session { menu, phase: next };
        assert(commands.deep_view() =~= self@.step(event@).commands);
        (session, commands)
    }
}

/// A session from its beginning: where it stands, and every command it has
/// asked for so far.
pub struct RunModel {
    pub session: SessionModel,
    pub trace: Seq<CommandModel>,
}

/// The session over `menu` after the given events, taken in order.
pub open spec fn run(menu: Seq<MenuItemModel>, events: Seq<EventModel>) -> RunModel
    decreases events.len(),
{
    if events.len() == 0 {
        RunModel {
            session: SessionModel::initial(menu),
            trace: SessionModel::opening_commands(),
        }
    } else {
        let before = run(menu, events.drop_last());
        let taken = before.session.step(events.last());
        RunModel { session: taken.next, trace: before.trace + taken.commands }
    }
}

/// Every step keeps the menu as it was and the cursor inside it.
pub proof fn lemma_step_keeps_well_formed(session: SessionModel, event: EventModel)
    requires
        session.well_formed(),
    ensures
        session.step(event).next.well_formed(),
        session.step(event).next.menu == session.menu,
{
    if let PhaseModel::Selecting { cursor, .. } = session.phase {
        lemma_index_after(cursor, session.menu.len() as int);
        lemma_index_before(cursor, session.menu.len() as int);
    }
}

/// Whatever happens in a session, the cursor never leaves the menu.
pub proof fn lemma_run_keeps_well_formed(menu: Seq<MenuItemModel>, events: Seq<EventModel>)
    requires
        is_menu(menu),
    ensures
        run(menu, events).session.well_formed(),
        run(menu, events).session.menu == menu,
    decreases events.len(),
{
    if events.len() > 0 {
        lemma_run_keeps_well_formed(menu, events.drop_last());
        lemma_step_keeps_well_formed(run(menu, events.drop_last()).session, events.last());
    }
}

/// An interrupt in a running session ends it as a graceful cancel: the
/// terminal is handed back, and neither a name nor a language comes out.
pub proof fn lemma_interrupt_cancels(session: SessionModel, press: KeyPress)
    requires
        !session.is_finished(),
        input_of(press) == Input::Interrupt,
    ensures
        session.step(EventModel::Key(press)) == session.finish(OutcomeModel::GracefulCancel),
        session.step(EventModel::Key(press)).next.phase == (PhaseModel::Finished {
            outcome: OutcomeModel::GracefulCancel,
        }),
{
}

/// An interrupt at any point of name entry or selection, whatever came
/// before, ends the session as a graceful cancel.
pub proof fn lemma_interrupt_cancels_at_any_point(
    menu: Seq<MenuItemModel>,
    events: Seq<EventModel>,
    press: KeyPress,
)
    requires
        !run(menu, events).session.is_finished(),
        input_of(press) == Input::Interrupt,
    ensures
        run(menu, events.push(EventModel::Key(press))).session.phase == (PhaseModel::Finished {
            outcome: OutcomeModel::GracefulCancel,
        }),
{
    assert(events.push(EventModel::Key(press)).drop_last() =~= events);
    lemma_interrupt_cancels(run(menu, events).session, press);
}

/// Once a session is over, its outcome stands: further events change
/// nothing and ask for nothing.
pub proof fn lemma_finished_session_is_final(
    menu: Seq<MenuItemModel>,
    events: Seq<EventModel>,
    later: Seq<EventModel>,
)
    requires
        run(menu, events).session.is_finished(),
    ensures
        run(menu, events + later) == run(menu, events),
    decreases later.len(),
{
    if later.len() == 0 {
        assert(events + later =~= events);
    } else {
        lemma_finished_session_is_final(menu, events, later.drop_last());
        assert((events + later).drop_last() =~= events + later.drop_last());
        let reached = run(menu, events);
        assert(reached.trace + Seq::<CommandModel>::empty() =~= reached.trace);
    }
}

/// The terminal is taken exactly while the session runs. After any events, a
/// session that is still running holds the terminal and has never handed it
/// back; a session that is over, however it ended, has handed it back
/// exactly once, and the terminal is neither in raw mode nor on the
/// alternate screen.
pub proof fn lemma_terminal_follows_session(menu: Seq<MenuItemModel>, events: Seq<EventModel>)
    ensures
        ({
            let reached = run(menu, events);
            let terminal = TerminalModel::restored().perform_all(reached.trace);
            if reached.session.is_finished() {
                &&& terminal == TerminalModel::restored()
                &&& releases(reached.trace) == 1
            } else {
                &&& terminal == TerminalModel::taken()
                &&& releases(reached.trace) == 0
            }
        }),
    decreases events.len(),
{
    let start = TerminalModel::restored();
    if events.len() == 0 {
        let opening = SessionModel::opening_commands();
        reveal_with_fuel(TerminalModel::perform_all, 3);
        reveal_with_fuel(releases, 3);
        assert(opening.drop_last() =~= seq![CommandModel::Acquire]);
        assert(opening.drop_last().drop_last() =~= seq![]);
    } else {
        lemma_terminal_follows_session(menu, events.drop_last());
        let before = run(menu, events.drop_last());
        let taken = before.session.step(events.last());
        lemma_perform_all_concat(start, before.trace, taken.commands);
        lemma_releases_concat(before.trace, taken.commands);
        reveal_with_fuel(TerminalModel::perform_all, 2);
        reveal_with_fuel(releases, 2);
        if taken.commands.len() == 1 {
            assert(taken.commands.drop_last() =~= seq![]);
        }
    }
}

} // verus!
