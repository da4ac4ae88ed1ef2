//! The confirmation gate: the guard that stands between the erase command
//! and the erasing of a file.

use crate::entry::{Entry, EntryView};
use vstd::prelude::*;

verus! {

/// What the user can ask for.
#[derive(Debug, Clone, Copy, PartialEq, Eq, Structural)]
pub enum Command {
    /// Move the cursor one entry up.
    MoveUp,
    /// Move the cursor one entry down.
    MoveDown,
    /// Step into the directory under the cursor.
    EnterOrActivate,
    /// Step out to the directory one level up.
    ExitToParent,
    /// Ask for the file under the cursor to be erased.
    RequestErase,
    /// Answer yes to the question whether to erase.
    Confirm,
    /// Answer no to the question whether to erase.
    Deny,
    /// End the session.
    Quit,
}

/// What a confirmation state is: idle, or waiting for the answer about one
/// file.
pub enum ConfirmationView {
    /// Nothing is asked.
    Idle,
    /// The user is asked whether this file is to be erased.
    PendingDelete(EntryView),
}

/// What the guard made of a command.
pub enum VerdictView {
    /// The command is not for the guard: it goes on to the navigation.
    Forward,
    /// The guard took the command; nothing else is to be done with it.
    Absorbed,
    /// The user confirmed: this file is to be erased.
    Erase(EntryView),
}

/// Whether `selected` is a file entry: the only thing that may be erased.
pub open spec fn is_file(selected: Option<EntryView>) -> bool {
    selected is Some && !selected->0.is_directory
}

/// The guard after `command`, given the entry under the cursor.
pub open spec fn gate_after(
    gate: ConfirmationView,
    command: Command,
    selected: Option<EntryView>,
) -> ConfirmationView {
    match gate {
        ConfirmationView::Idle => if command == Command::RequestErase && is_file(selected) {
            ConfirmationView::PendingDelete(selected->0)
        } else {
            ConfirmationView::Idle
        },
        ConfirmationView::PendingDelete(target) => if command == Command::Confirm || command
            == Command::Deny {
            ConfirmationView::Idle
        } else {
            gate
        },
    }
}

/// What the guard makes of `command`.
pub open spec fn verdict_on(gate: ConfirmationView, command: Command) -> VerdictView {
    match gate {
        ConfirmationView::Idle => if command == Command::RequestErase || command
            == Command::Confirm || command == Command::Deny {
            VerdictView::Absorbed
        } else {
            VerdictView::Forward
        },
        ConfirmationView::PendingDelete(target) => if command == Command::Confirm {
            VerdictView::Erase(target)
        } else {
            VerdictView::Absorbed
        },
    }
}

impl ConfirmationView {
    /// Only a file waits for an answer.
    pub open spec fn valid(self) -> bool {
        match self {
            ConfirmationView::Idle => true,
            ConfirmationView::PendingDelete(target) => !target.is_directory,
        }
    }
}

/// The confirmation state: idle, or waiting for the answer about one file.
#[derive(Debug)]
pub struct ConfirmationState {
    pending: Option<Entry>,
}

impl View for ConfirmationState {
    type V = ConfirmationView;

    closed spec fn view(&self) -> ConfirmationView {
        match self.pending {
            None => ConfirmationView::Idle,
            Some(target) => ConfirmationView::PendingDelete(target@),
        }
    }
}

/// What the guard made of a command.
#[derive(Debug)]
pub enum Verdict {
    /// The command is not for the guard: it goes on to the navigation.
    Forward,
    /// The guard took the command; nothing else is to be done with it.
    Absorbed,
    /// The user confirmed: this file is to be erased.
    Erase(Entry),
}

impl View for Verdict {
    type V = VerdictView;

    open spec fn view(&self) -> VerdictView {
        match self {
            Verdict::Forward => VerdictView::Forward,
            Verdict::Absorbed => VerdictView::Absorbed,
            Verdict::Erase(target) => VerdictView::Erase(target@),
        }
    }
}

/// What `selected` is, where there is one.
pub open spec fn selected_view(selected: Option<&Entry>) -> Option<EntryView> {
    match selected {
        Some(entry) => Some(entry@),
        None => None,
    }
}

impl ConfirmationState {
    /// A confirmation state is always valid.
    #[verifier::type_invariant]
    pub open spec fn well_formed(self) -> bool {
        self@.valid()
    }

    /// The state at the start of a session: idle.
    pub fn new() -> (state: ConfirmationState)
        ensures
            state@ == ConfirmationView::Idle,
    {
        ConfirmationState { pending: None }
    }

    /// Whether no answer is waited for.
    pub fn is_idle(&self) -> (idle: bool)
        ensures
            idle == (self@ is Idle),
    {
        self.pending.is_none()
    }

    /// The file that an answer is waited for about.
    pub fn pending(&self) -> (target: Option<&Entry>)
        ensures
            self@.valid(),
            match self@ {
                ConfirmationView::Idle => target is None,
                ConfirmationView::PendingDelete(t) => target is Some && target->0@ == t,
            },
    {
        proof {
            use_type_invariant(self);
        }
        self.pending.as_ref()
    }

    /// Takes one command, given the entry under the cursor, and returns the
    /// state that follows with what the guard made of the command.
    ///
    /// An idle state starts to wait when the erasing of a file is asked for,
    /// and stays idle when that is asked of a directory or of nothing. A
    /// waiting state goes back to idle on the answer, to erase on `Confirm`
    /// and to do nothing on `Deny`, and takes every other command without
    /// acting on it. What is handed out to be erased is always a file.
    pub fn step(self, command: Command, selected: Option<&Entry>) -> (next: (
        ConfirmationState,
        Verdict,
    ))
        ensures
            next.0@ == gate_after(self@, command, selected_view(selected)),
            next.1@ == verdict_on(self@, command),
            next.0@.valid(),
            self@ is Idle && command == Command::RequestErase && !is_file(selected_view(selected))
                ==> next.0@ is Idle,
            self@ is Idle && command == Command::RequestErase && is_file(selected_view(selected))
                ==> next.0@ == ConfirmationView::PendingDelete(selected->0@),
            self@ is Idle && command != Command::RequestErase ==> next.0@ is Idle,
            self@ is PendingDelete && (command == Command::Confirm || command == Command::Deny)
                ==> next.0@ is Idle,
            self@ is PendingDelete && command != Command::Confirm && command != Command::Deny
                ==> next.0@ == self@ && next.1@ is Absorbed,
            next.1@ is Erase ==> self@ == ConfirmationView::PendingDelete(next.1@->Erase_0)
                && command == Command::Confirm && !next.1@->Erase_0.is_directory,
    {
        proof {
            use_type_invariant(&self);
        }
        match self.pending {
            None => {
                match command {
                    Command::RequestErase => {
                        match selected {
                            Some(entry) => {
                                if entry.is_directory() {
                                    (ConfirmationState { pending: None }, Verdict::Absorbed)
                                } else {
                                    (
                                        ConfirmationState { pending: Some(entry.clone()) },
                                        Verdict::Absorbed,
                                    )
                                }
                            },
                            None => (ConfirmationState { pending: None }, Verdict::Absorbed),
                        }
                    },
                    Command::Confirm | Command::Deny => (
                        ConfirmationState { pending: None },
                        Verdict::Absorbed,
                    ),
                    _ => (ConfirmationState { pending: None }, Verdict::Forward),
                }
            },
            Some(target) => {
                match command {
                    Command::Confirm => (
                        ConfirmationState { pending: None },
                        Verdict::Erase(target),
                    ),
                    Command::Deny => (ConfirmationState { pending: None }, Verdict::Absorbed),
                    _ => (ConfirmationState { pending: Some(target) }, Verdict::Absorbed),
                }
            },
        }
    }
}

} // verus!
