//! The navigation state: the directory being shown, its snapshot and the
//! cursor, with cyclic movement and the steps into and out of a directory.

use crate::entry::{Entry, EntryView};
use crate::listing::{
    in_listing_order, listing_of, read_directory, DirectoryReadError, ScannedChild, Snapshot,
};
use crate::path::{parent, parent_of};
use vstd::prelude::*;
use vstd::string::*;

verus! {

/// Where the cursor stands in a fresh snapshot of `len` entries: on the first
/// entry, nowhere where there is none.
pub open spec fn initial_cursor(len: nat) -> Option<nat> {
    if len == 0 {
        None
    } else {
        Some(0)
    }
}

/// Where the cursor stands after one step down in a snapshot of `len`
/// entries: one further, and on the first entry after the last.
pub open spec fn cursor_after_down(len: nat, cursor: Option<nat>) -> Option<nat> {
    if len == 0 {
        None
    } else {
        match cursor {
            Some(c) => if c + 1 >= len {
                Some(0)
            } else {
                Some(c + 1)
            },
            None => Some(0),
        }
    }
}

/// Where the cursor stands after one step up in a snapshot of `len` entries:
/// one back, and on the last entry before the first.
pub open spec fn cursor_after_up(len: nat, cursor: Option<nat>) -> Option<nat> {
    if len == 0 {
        None
    } else {
        match cursor {
            Some(c) => if c == 0 {
                Some((len - 1) as nat)
            } else {
                Some((c - 1) as nat)
            },
            None => Some(0),
        }
    }
}

/// Where the cursor stands after `times` steps down.
pub open spec fn cursor_after_downs(len: nat, cursor: Option<nat>, times: nat) -> Option<nat>
    decreases times,
{
    if times == 0 {
        cursor
    } else {
        cursor_after_downs(len, cursor_after_down(len, cursor), (times - 1) as nat)
    }
}

/// Where the cursor stands after `times` steps up.
pub open spec fn cursor_after_ups(len: nat, cursor: Option<nat>, times: nat) -> Option<nat>
    decreases times,
{
    if times == 0 {
        cursor
    } else {
        cursor_after_ups(len, cursor_after_up(len, cursor), (times - 1) as nat)
    }
}

/// Up to `len` steps down move the cursor forward by as many places, counted
/// round the snapshot.
proof fn lemma_downs(len: nat, start: nat, times: nat)
    requires
        start < len,
        times <= len,
    ensures
        cursor_after_downs(len, Some(start), times) == Some(
            if start + times < len {
                start + times
            } else {
                (start + times - len) as nat
            },
        ),
    decreases times,
{
    if times > 0 {
        let next: nat = if start + 1 >= len {
            0
        } else {
            start + 1
        };
        lemma_downs(len, next, (times - 1) as nat);
    }
}

/// Up to `len` steps up move the cursor back by as many places, counted round
/// the snapshot.
proof fn lemma_ups(len: nat, start: nat, times: nat)
    requires
        start < len,
        times <= len,
    ensures
        cursor_after_ups(len, Some(start), times) == Some(
            if times <= start {
                (start - times) as nat
            } else {
                (start + len - times) as nat
            },
        ),
    decreases times,
{
    if times > 0 {
        let next: nat = if start == 0 {
            (len - 1) as nat
        } else {
            (start - 1) as nat
        };
        lemma_ups(len, next, (times - 1) as nat);
    }
}

/// In a snapshot of `len` entries, `len` steps down bring the cursor back to
/// the entry it started on.
pub proof fn lemma_move_down_cycle(len: nat, start: nat)
    requires
        start < len,
    ensures
        cursor_after_downs(len, Some(start), len) == Some(start),
{
    lemma_downs(len, start, len);
}

/// In a snapshot of `len` entries, `len` steps up bring the cursor back to
/// the entry it started on.
pub proof fn lemma_move_up_cycle(len: nat, start: nat)
    requires
        start < len,
    ensures
        cursor_after_ups(len, Some(start), len) == Some(start),
{
    lemma_ups(len, start, len);
}

/// In a snapshot without entries no number of steps puts the cursor anywhere.
pub proof fn lemma_moves_in_empty(times: nat)
    ensures
        cursor_after_downs(0, None, times) == None::<nat>,
        cursor_after_ups(0, None, times) == None::<nat>,
    decreases times,
{
    if times > 0 {
        lemma_moves_in_empty((times - 1) as nat);
    }
}

/// The directory one level above the one that holds the entry at `path`.
pub open spec fn exit_target_of(path: Seq<char>) -> Option<Seq<char>> {
    match parent_of(path) {
        Some(directory) => parent_of(directory),
        None => None,
    }
}

/// What a navigation state is: the directory shown, its entries in listing
/// order, and the position of the cursor.
pub struct NavigationView {
    pub current_directory: Seq<char>,
    pub snapshot: Seq<EntryView>,
    pub cursor: Option<nat>,
}

impl NavigationView {
    /// The cursor stands nowhere exactly when there is no entry, and on an
    /// entry otherwise; the entries are in listing order.
    pub open spec fn valid(self) -> bool {
        &&& in_listing_order(self.snapshot)
        &&& match self.cursor {
            Some(c) => c < self.snapshot.len(),
            None => self.snapshot.len() == 0,
        }
    }

    /// The entry under the cursor.
    pub open spec fn selected(self) -> Option<EntryView> {
        match self.cursor {
            Some(c) => Some(self.snapshot[c as int]),
            None => None,
        }
    }

    /// This state with the cursor at `cursor`.
    pub open spec fn with_cursor(self, cursor: Option<nat>) -> NavigationView {
        NavigationView { cursor, ..self }
    }
}

/// The directory being shown, the snapshot of its children and the cursor.
#[derive(Debug)]
pub struct NavigationState {
    current_directory: String,
    snapshot: Snapshot,
    cursor: Option<usize>,
}

impl View for NavigationState {
    type V = NavigationView;

    closed spec fn view(&self) -> NavigationView {
        NavigationView {
            current_directory: self.current_directory@,
            snapshot: self.snapshot@,
            cursor: match self.cursor {
                Some(c) => Some(c as nat),
                None => None,
            },
        }
    }
}

impl NavigationState {
    /// A state is always valid: the cursor fits the snapshot, and the
    /// snapshot is in listing order.
    #[verifier::type_invariant]
    pub open spec fn well_formed(self) -> bool {
        self@.valid()
    }

    /// The state that shows `snapshot` as the listing of `current_directory`,
    /// with the cursor on the first entry.
    pub fn new(current_directory: String, snapshot: Snapshot) -> (state: NavigationState)
        ensures
            state@.valid(),
            state@.current_directory == current_directory@,
            state@.snapshot == snapshot@,
            state@.cursor == initial_cursor(snapshot@.len()),
    {
        proof {
            use_type_invariant(&snapshot);
        }
        let cursor: Option<usize> = if snapshot.len() == 0 {
            None
        } else {
            Some(0)
        };
        NavigationState { current_directory, snapshot, cursor }
    }

    /// The directory being shown.
    pub fn current_directory(&self) -> (directory: &str)
        ensures
            directory@ == self@.current_directory,
    {
        self.current_directory.as_str()
    }

    /// The snapshot being shown.
    pub fn snapshot(&self) -> (snapshot: &Snapshot)
        ensures
            snapshot@ == self@.snapshot,
            self@.valid(),
    {
        proof {
            use_type_invariant(self);
        }
        &self.snapshot
    }

    /// The position of the cursor.
    pub fn cursor(&self) -> (cursor: Option<usize>)
        ensures
            self@.valid(),
            match cursor {
                Some(c) => self@.cursor == Some(c as nat),
                None => self@.cursor is None,
            },
    {
        proof {
            use_type_invariant(self);
        }
        self.cursor
    }

    /// Moves the cursor one entry down; from the last entry it goes to the
    /// first. Without entries nothing changes.
    pub fn move_down(&mut self)
        ensures
            final(self)@.valid(),
            final(self)@ == old(self)@.with_cursor(
                cursor_after_down(old(self)@.snapshot.len(), old(self)@.cursor),
            ),
            old(self)@.snapshot.len() == 0 ==> final(self)@.cursor is None,
        no_unwind
    {
        proof {
            use_type_invariant(&*self);
        }
        let len: usize = self.snapshot.len();
        match self.cursor {
            Some(c) => {
                if c + 1 >= len {
                    self.cursor = Some(0);
                } else {
                    self.cursor = Some(c + 1);
                }
            },
            None => {},
        }
    }

    /// Moves the cursor one entry up; from the first entry it goes to the
    /// last. Without entries nothing changes.
    pub fn move_up(&mut self)
        ensures
            final(self)@.valid(),
            final(self)@ == old(self)@.with_cursor(
                cursor_after_up(old(self)@.snapshot.len(), old(self)@.cursor),
            ),
            old(self)@.snapshot.len() == 0 ==> final(self)@.cursor is None,
        no_unwind
    {
        proof {
            use_type_invariant(&*self);
        }
        let len: usize = self.snapshot.len();
        match self.cursor {
            Some(c) => {
                if c == 0 {
                    self.cursor = Some(len - 1);
                } else {
                    self.cursor = Some(c - 1);
                }
            },
            None => {},
        }
    }

    /// The entry under the cursor; none where the snapshot is empty.
    pub fn selected(&self) -> (entry: Option<&Entry>)
        ensures
            self@.valid(),
            match self@.selected() {
                Some(e) => entry is Some && entry->0@ == e,
                None => entry is None,
            },
            entry is None <==> self@.snapshot.len() == 0,
    {
        proof {
            use_type_invariant(self);
        }
        match self.cursor {
            Some(c) => self.snapshot.get(c),
            None => None,
        }
    }

    /// Shows the directory at `directory`, given what reading it returned. On
    /// success the state shows its listing with the cursor on the first
    /// entry. Where the read failed the state stays as it was.
    pub fn open(&mut self, directory: &str, scan: Option<Vec<ScannedChild>>) -> (result: Result<
        (),
        DirectoryReadError,
    >)
        ensures
            final(self)@.valid(),
            result is Ok <==> scan is Some,
            match result {
                Ok(_) => {
                    &&& final(self)@.current_directory == directory@
                    &&& final(self)@.snapshot == listing_of(scan->0@)
                    &&& final(self)@.cursor == initial_cursor(final(self)@.snapshot.len())
                },
                Err(error) => {
                    &&& final(self)@ == old(self)@
                    &&& error@ == directory@
                },
            },
    {
        proof {
            use_type_invariant(&*self);
        }
        match read_directory(directory, scan) {
            Ok(snapshot) => {
                *self = NavigationState::new(String::from_str(directory), snapshot);
                Ok(())
            },
            Err(error) => Err(error),
        }
    }

    /// Steps into the directory `selected_entry`, given what reading that
    /// directory returned. On success the state shows its listing with the
    /// cursor on the first entry. Where the entry is no directory, or the
    /// read failed, the state stays as it was.
    pub fn enter(&mut self, selected_entry: &Entry, scan: Option<Vec<ScannedChild>>) -> (result:
        Result<(), DirectoryReadError>)
        ensures
            final(self)@.valid(),
            result is Ok <==> selected_entry@.is_directory && scan is Some,
            match result {
                Ok(_) => {
                    &&& final(self)@.current_directory == selected_entry@.path
                    &&& final(self)@.snapshot == listing_of(scan->0@)
                    &&& final(self)@.cursor == initial_cursor(final(self)@.snapshot.len())
                },
                Err(error) => {
                    &&& final(self)@ == old(self)@
                    &&& error@ == selected_entry@.path
                },
            },
    {
        proof {
            use_type_invariant(&*self);
        }
        if !selected_entry.is_directory() {
            return Err(DirectoryReadError::new(selected_entry.path()));
        }
        self.open(selected_entry.path(), scan)
    }

    /// The directory that `exit_to_parent` goes to from `selected_entry`: one
    /// level above the directory that holds the entry.
    pub fn exit_target(selected_entry: &Entry) -> (target: Option<String>)
        ensures
            match exit_target_of(selected_entry@.path) {
                Some(directory) => target is Some && target->0@ == directory,
                None => target is None,
            },
    {
        match parent(selected_entry.path()) {
            Some(directory) => parent(directory.as_str()),
            None => None,
        }
    }

    /// Steps out to the directory one level above the one that holds
    /// `selected_entry`, given what reading that directory returned. Returns
    /// whether the state went there: where no such directory exists nothing
    /// happens. Where the read failed the state stays as it was.
    pub fn exit_to_parent(
        &mut self,
        selected_entry: &Entry,
        scan: Option<Vec<ScannedChild>>,
    ) -> (result: Result<bool, DirectoryReadError>)
        ensures
            final(self)@.valid(),
            match exit_target_of(selected_entry@.path) {
                None => result == Ok::<bool, DirectoryReadError>(false) && final(self)@ == old(
                    self,
                )@,
                Some(directory) => match result {
                    Ok(moved) => {
                        &&& moved
                        &&& scan is Some
                        &&& final(self)@.current_directory == directory
                        &&& final(self)@.snapshot == listing_of(scan->0@)
                        &&& final(self)@.cursor == initial_cursor(final(self)@.snapshot.len())
                    },
                    Err(error) => {
                        &&& scan is None
                        &&& final(self)@ == old(self)@
                        &&& error@ == directory
                    },
                },
            },
    {
        proof {
            use_type_invariant(&*self);
        }
        match NavigationState::exit_target(selected_entry) {
            None => Ok(false),
            Some(directory) => {
                match self.open(directory.as_str(), scan) {
                    Ok(_) => Ok(true),
                    Err(error) => Err(error),
                }
            },
        }
    }
}

} // verus!
