//! One browsing session: the guard, the navigation and the preview behind one
//! transition function, and the view that is handed to the display.
//!
//! The session decides and its caller acts. `handle` takes one command,
//! changes the state, and says what is to be read or done next; the caller
//! reads the directory or the file, or erases, and hands the result back.

use crate::entry::{Entry, EntryView};
use crate::gate::{
    gate_after, verdict_on, Command, ConfirmationState, ConfirmationView, Verdict, VerdictView,
};
use crate::listing::{listing_of, read_directory, DirectoryReadError, ScannedChild};
use crate::navigation::{
    cursor_after_down, cursor_after_up, exit_target_of, initial_cursor, NavigationState,
    NavigationView,
};
use crate::path::{parent, parent_of};
use crate::preview::{
    generate, line_texts, preview_lines_of, preview_of, PreviewContent, PreviewSource,
    PreviewView,
};
use vstd::prelude::*;
use vstd::string::*;

verus! {

/// What a session is.
pub struct SessionView {
    pub navigation: NavigationView,
    pub preview: PreviewView,
    pub gate: ConfirmationView,
    pub line_budget: nat,
}

impl SessionView {
    /// The navigation is valid, and what waits for an answer is a file: the
    /// one under the cursor.
    pub open spec fn valid(self) -> bool {
        &&& self.navigation.valid()
        &&& self.gate.valid()
        &&& match self.gate {
            ConfirmationView::PendingDelete(target) => self.navigation.selected() == Some(target),
            ConfirmationView::Idle => true,
        }
    }
}

/// What the caller is to do after a command.
pub enum EffectView {
    /// Nothing.
    Nothing,
    /// Read what previews the entry under the cursor.
    Preview,
    /// Read the directory at this path, to show it.
    Open(Seq<char>),
    /// Erase this file.
    Erase(EntryView),
    /// End the session.
    Quit,
}

/// The directory one level above the one shown: found from the entry under
/// the cursor, and from the shown directory itself where it has no entry.
pub open spec fn leave_target(navigation: NavigationView) -> Option<Seq<char>> {
    match navigation.selected() {
        Some(entry) => exit_target_of(entry.path),
        None => parent_of(navigation.current_directory),
    }
}

/// The navigation after a command that reached it: only the two movements
/// change it at once.
pub open spec fn navigation_after(navigation: NavigationView, command: Command) -> NavigationView {
    match command {
        Command::MoveUp => navigation.with_cursor(
            cursor_after_up(navigation.snapshot.len(), navigation.cursor),
        ),
        Command::MoveDown => navigation.with_cursor(
            cursor_after_down(navigation.snapshot.len(), navigation.cursor),
        ),
        _ => navigation,
    }
}

/// What a command that reached the navigation asks of the caller.
pub open spec fn navigation_effect(navigation: NavigationView, command: Command) -> EffectView {
    match command {
        Command::MoveUp => EffectView::Preview,
        Command::MoveDown => EffectView::Preview,
        Command::EnterOrActivate => match navigation.selected() {
            Some(entry) => if entry.is_directory {
                EffectView::Open(entry.path)
            } else {
                EffectView::Nothing
            },
            None => EffectView::Nothing,
        },
        Command::ExitToParent => match leave_target(navigation) {
            Some(directory) => EffectView::Open(directory),
            None => EffectView::Nothing,
        },
        Command::Quit => EffectView::Quit,
        _ => EffectView::Nothing,
    }
}

/// The session after `command`: the guard takes the command first, and the
/// navigation sees it only where the guard lets it through.
pub open spec fn session_after(session: SessionView, command: Command) -> SessionView {
    SessionView {
        gate: gate_after(session.gate, command, session.navigation.selected()),
        navigation: if verdict_on(session.gate, command) is Forward {
            navigation_after(session.navigation, command)
        } else {
            session.navigation
        },
        ..session
    }
}

/// What `command` asks of the caller.
pub open spec fn effect_of(session: SessionView, command: Command) -> EffectView {
    match verdict_on(session.gate, command) {
        VerdictView::Forward => navigation_effect(session.navigation, command),
        VerdictView::Absorbed => EffectView::Nothing,
        VerdictView::Erase(target) => EffectView::Erase(target),
    }
}

/// The preview of a session whose cursor is on `selected`, from what was
/// read for it. Without an entry there is nothing to show.
pub open spec fn session_preview_of(
    selected: Option<EntryView>,
    source: PreviewSource,
    budget: nat,
) -> PreviewView {
    match selected {
        Some(entry) => preview_of(entry, source, budget),
        None => PreviewView::Text(Seq::empty()),
    }
}

/// What the caller is to do after a command.
#[derive(Debug)]
pub enum Effect {
    /// Nothing.
    Nothing,
    /// Read what previews the entry under the cursor, and hand it to
    /// `show_preview`.
    Preview,
    /// Read the directory at this path, and hand it to `open`.
    Open(String),
    /// Erase this file.
    Erase(Entry),
    /// End the session.
    Quit,
}

impl View for Effect {
    type V = EffectView;

    open spec fn view(&self) -> EffectView {
        match self {
            Effect::Nothing => EffectView::Nothing,
            Effect::Preview => EffectView::Preview,
            Effect::Open(directory) => EffectView::Open(directory@),
            Effect::Erase(target) => EffectView::Erase(target@),
            Effect::Quit => EffectView::Quit,
        }
    }
}

/// Whether the display shows the listing or asks for an answer.
#[derive(Debug)]
pub enum Mode {
    /// The listing is shown.
    Browsing,
    /// The user is asked whether the file of this name is to be erased.
    ConfirmPending(String),
}

/// What the display is given to draw one frame.
#[derive(Debug)]
pub struct ViewModel {
    /// The name of each entry and whether it is a directory, in listing order.
    pub entries: Vec<(String, bool)>,
    /// The position of the cursor.
    pub selected_index: Option<usize>,
    /// The lines of the preview.
    pub preview_lines: Vec<String>,
    /// Whether an answer is asked for, and about which file.
    pub mode: Mode,
}

/// Whether `model` shows `session`.
pub open spec fn shows(model: ViewModel, session: SessionView) -> bool {
    &&& model.entries@.len() == session.navigation.snapshot.len()
    &&& forall|i: int|
        0 <= i < model.entries@.len() ==> {
            &&& (#[trigger] model.entries@[i]).0@ == session.navigation.snapshot[i].display_name()
            &&& model.entries@[i].1 == session.navigation.snapshot[i].is_directory
        }
    &&& match model.selected_index {
        Some(c) => session.navigation.cursor == Some(c as nat),
        None => session.navigation.cursor is None,
    }
    &&& line_texts(model.preview_lines@) == preview_lines_of(session.preview)
    &&& match model.mode {
        Mode::Browsing => session.gate is Idle,
        Mode::ConfirmPending(name) => session.gate is PendingDelete && name@
            == session.gate->PendingDelete_0.display_name(),
    }
}

/// One browsing session.
#[derive(Debug)]
pub struct Session {
    navigation: NavigationState,
    preview: PreviewContent,
    gate: ConfirmationState,
    line_budget: usize,
}

impl View for Session {
    type V = SessionView;

    closed spec fn view(&self) -> SessionView {
        SessionView {
            navigation: self.navigation@,
            preview: self.preview@,
            gate: self.gate@,
            line_budget: self.line_budget as nat,
        }
    }
}

impl Session {
    /// A session is always valid.
    #[verifier::type_invariant]
    pub open spec fn well_formed(self) -> bool {
        self@.valid()
    }

    /// A session that starts in `current_directory`, given what reading that
    /// directory returned: the cursor is on the first entry, the guard is
    /// idle and nothing is previewed yet. A file is previewed by its first
    /// `line_budget` lines.
    pub fn new(
        current_directory: &str,
        scan: Option<Vec<ScannedChild>>,
        line_budget: usize,
    ) -> (result: Result<Session, DirectoryReadError>)
        ensures
            result is Ok <==> scan is Some,
            match result {
                Ok(session) => {
                    &&& session@.valid()
                    &&& session@.navigation.current_directory == current_directory@
                    &&& session@.navigation.snapshot == listing_of(scan->0@)
                    &&& session@.navigation.cursor == initial_cursor(
                        session@.navigation.snapshot.len(),
                    )
                    &&& session@.preview == PreviewView::Text(Seq::empty())
                    &&& session@.gate is Idle
                    &&& session@.line_budget == line_budget
                },
                Err(error) => error@ == current_directory@,
            },
    {
        match read_directory(current_directory, scan) {
            Ok(snapshot) => {
                let navigation = NavigationState::new(String::from_str(current_directory), snapshot);
                let lines: Vec<String> = Vec::new();
                assert(line_texts(lines@) =~= Seq::<Seq<char>>::empty());
                Ok(
                    Session {
                        navigation,
                        preview: PreviewContent::Text(lines),
                        gate: ConfirmationState::new(),
                        line_budget,
                    },
                )
            },
            Err(error) => Err(error),
        }
    }

    /// The navigation state.
    pub fn navigation(&self) -> (navigation: &NavigationState)
        ensures
            navigation@ == self@.navigation,
            self@.valid(),
    {
        proof {
            use_type_invariant(self);
        }
        &self.navigation
    }

    /// The preview being shown.
    pub fn preview(&self) -> (preview: &PreviewContent)
        ensures
            preview@ == self@.preview,
    {
        &self.preview
    }

    /// The confirmation state.
    pub fn gate(&self) -> (gate: &ConfirmationState)
        ensures
            gate@ == self@.gate,
    {
        &self.gate
    }

    /// The entry under the cursor.
    pub fn selected(&self) -> (entry: Option<&Entry>)
        ensures
            match self@.navigation.selected() {
                Some(e) => entry is Some && entry->0@ == e,
                None => entry is None,
            },
    {
        self.navigation.selected()
    }

    /// The directory that `ExitToParent` leads to.
    fn leave_directory(&self) -> (target: Option<String>)
        ensures
            match leave_target(self@.navigation) {
                Some(directory) => target is Some && target->0@ == directory,
                None => target is None,
            },
    {
        match self.navigation.selected() {
            Some(entry) => NavigationState::exit_target(entry),
            None => parent(self.navigation.current_directory()),
        }
    }

    /// Takes one command. The guard sees it first: while it waits for an
    /// answer, only `Confirm` and `Deny` do anything, and the navigation
    /// stays as it is. What the guard lets through moves the cursor, or asks
    /// the caller to read a directory, or ends the session. What is handed
    /// out to be erased is always a file, and the one under the cursor.
    pub fn handle(&mut self, command: Command) -> (effect: Effect)
        ensures
            final(self)@ == session_after(old(self)@, command),
            effect@ == effect_of(old(self)@, command),
            final(self)@.valid(),
            old(self)@.gate is PendingDelete ==> final(self)@.navigation == old(self)@.navigation,
            old(self)@.gate is PendingDelete && command != Command::Confirm && command
                != Command::Deny ==> final(self)@ == old(self)@ && effect@ is Nothing,
            effect@ is Erase ==> {
                &&& !effect@->Erase_0.is_directory
                &&& old(self)@.navigation.selected() == Some(effect@->Erase_0)
                &&& final(self)@.gate is Idle
            },
    {
        proof {
            use_type_invariant(&*self);
        }
        let mut gate = ConfirmationState::new();
        core::mem::swap(&mut self.gate, &mut gate);
        let (next, verdict) = gate.step(command, self.navigation.selected());
        self.gate = next;
        match verdict {
            Verdict::Absorbed => Effect::Nothing,
            Verdict::Erase(target) => Effect::Erase(target),
            Verdict::Forward => {
                match command {
                    Command::MoveUp => {
                        self.navigation.move_up();
                        Effect::Preview
                    },
                    Command::MoveDown => {
                        self.navigation.move_down();
                        Effect::Preview
                    },
                    Command::EnterOrActivate => {
                        match self.navigation.selected() {
                            Some(entry) => {
                                if entry.is_directory() {
                                    Effect::Open(String::from_str(entry.path()))
                                } else {
                                    Effect::Nothing
                                }
                            },
                            None => Effect::Nothing,
                        }
                    },
                    Command::ExitToParent => {
                        match self.leave_directory() {
                            Some(directory) => Effect::Open(directory),
                            None => Effect::Nothing,
                        }
                    },
                    Command::Quit => Effect::Quit,
                    _ => Effect::Nothing,
                }
            },
        }
    }

    /// Shows the directory at `directory`, given what reading it returned.
    /// On success the session shows its listing with the cursor on the first
    /// entry, and asks for the preview of that entry. Where the read failed
    /// the session stays as it was. While an answer is waited for the
    /// navigation is frozen: nothing is taken in, and nothing is asked for.
    pub fn open(&mut self, directory: &str, scan: Option<Vec<ScannedChild>>) -> (result: Result<
        Effect,
        DirectoryReadError,
    >)
        ensures
            final(self)@.valid(),
            final(self)@.preview == old(self)@.preview,
            final(self)@.gate == old(self)@.gate,
            final(self)@.line_budget == old(self)@.line_budget,
            result is Ok <==> scan is Some || old(self)@.gate is PendingDelete,
            match result {
                Ok(effect) => if old(self)@.gate is PendingDelete {
                    &&& effect@ == EffectView::Nothing
                    &&& final(self)@ == old(self)@
                } else {
                    &&& effect@ == EffectView::Preview
                    &&& final(self)@.navigation.current_directory == directory@
                    &&& final(self)@.navigation.snapshot == listing_of(scan->0@)
                    &&& final(self)@.navigation.cursor == initial_cursor(
                        final(self)@.navigation.snapshot.len(),
                    )
                },
                Err(error) => {
                    &&& final(self)@ == old(self)@
                    &&& error@ == directory@
                },
            },
    {
        proof {
            use_type_invariant(&*self);
        }
        if !self.gate.is_idle() {
            return Ok(Effect::Nothing);
        }
        match read_directory(directory, scan) {
            Ok(snapshot) => {
                self.navigation = NavigationState::new(String::from_str(directory), snapshot);
                Ok(Effect::Preview)
            },
            Err(error) => Err(error),
        }
    }

    /// Shows the preview of the entry under the cursor, given what was read
    /// for it.
    pub fn show_preview(&mut self, source: PreviewSource)
        ensures
            final(self)@ == (SessionView {
                preview: session_preview_of(
                    old(self)@.navigation.selected(),
                    source,
                    old(self)@.line_budget,
                ),
                ..old(self)@
            }),
            final(self)@.valid(),
    {
        proof {
            use_type_invariant(&*self);
        }
        let preview = match self.navigation.selected() {
            Some(entry) => generate(entry, source, self.line_budget),
            None => {
                let lines: Vec<String> = Vec::new();
                assert(line_texts(lines@) =~= Seq::<Seq<char>>::empty());
                PreviewContent::Text(lines)
            },
        };
        self.preview = preview;
    }

    /// What the display is to draw.
    pub fn view_model(&self) -> (model: ViewModel)
        ensures
            shows(model, self@),
    {
        let snapshot = self.navigation.snapshot();
        let mut entries: Vec<(String, bool)> = Vec::new();
        let mut index: usize = 0;
        while index < snapshot.len()
            invariant
                index <= snapshot@.len(),
                entries@.len() == index,
                forall|i: int|
                    0 <= i < index ==> {
                        &&& (#[trigger] entries@[i]).0@ == snapshot@[i].display_name()
                        &&& entries@[i].1 == snapshot@[i].is_directory
                    },
            decreases snapshot@.len() - index,
        {
            match snapshot.get(index) {
                Some(entry) => {
                    entries.push((String::from_str(entry.display_name()), entry.is_directory()));
                },
                None => {},
            }
            index = index + 1;
        }
        let mode = match self.gate.pending() {
            Some(target) => Mode::ConfirmPending(String::from_str(target.display_name())),
            None => Mode::Browsing,
        };
        ViewModel {
            entries,
            selected_index: self.navigation.cursor(),
            preview_lines: self.preview.lines(),
            mode,
        }
    }
}

} // verus!
