//! One child of a directory, and the order in which children are listed.

use crate::path::{file_name, file_name_of, text_le, text_precedes, SEPARATOR};
use crate::path::{
    lemma_text_le_antisymmetric, lemma_text_le_reflexive, lemma_text_le_total,
    lemma_text_le_transitive,
};
use vstd::prelude::*;
use vstd::string::*;

verus! {

/// What an entry is: its path and whether it is a directory. The name it is
/// shown under follows from these two.
pub struct EntryView {
    pub path: Seq<char>,
    pub is_directory: bool,
}

/// The name a child is shown under: the final component of its path, with a
/// separator behind it where the child is a directory.
pub open spec fn display_name_of(path: Seq<char>, is_directory: bool) -> Seq<char> {
    if is_directory {
        file_name_of(path).push(SEPARATOR)
    } else {
        file_name_of(path)
    }
}

impl EntryView {
    /// The name this entry is shown under.
    pub open spec fn display_name(self) -> Seq<char> {
        display_name_of(self.path, self.is_directory)
    }
}

/// The listing order: a directory comes before a file; two directories, or two
/// files, are ordered by their paths.
pub open spec fn entry_le(a: EntryView, b: EntryView) -> bool {
    if a.is_directory != b.is_directory {
        a.is_directory
    } else {
        text_le(a.path, b.path)
    }
}

/// The listing order is reflexive.
pub proof fn lemma_entry_le_reflexive(a: EntryView)
    ensures
        entry_le(a, a),
{
    lemma_text_le_reflexive(a.path);
}

/// Two entries that are in order both ways are the same entry.
pub proof fn lemma_entry_le_antisymmetric(a: EntryView, b: EntryView)
    requires
        entry_le(a, b),
        entry_le(b, a),
    ensures
        a == b,
{
    lemma_text_le_antisymmetric(a.path, b.path);
}

/// The listing order is transitive.
pub proof fn lemma_entry_le_transitive(a: EntryView, b: EntryView, c: EntryView)
    requires
        entry_le(a, b),
        entry_le(b, c),
    ensures
        entry_le(a, c),
{
    if a.is_directory == b.is_directory && b.is_directory == c.is_directory {
        lemma_text_le_transitive(a.path, b.path, c.path);
    }
}

/// Any two entries are in order one way or the other.
pub proof fn lemma_entry_le_total(a: EntryView, b: EntryView)
    ensures
        entry_le(a, b) || entry_le(b, a),
{
    lemma_text_le_total(a.path, b.path);
}

/// A child of a directory: its path, the name it is shown under, and whether
/// it is a directory itself.
#[derive(Debug)]
pub struct Entry {
    path: String,
    display_name: String,
    is_directory: bool,
}

impl View for Entry {
    type V = EntryView;

    closed spec fn view(&self) -> EntryView {
        EntryView { path: self.path@, is_directory: self.is_directory }
    }
}

impl Entry {
    /// The shown name is always the one that follows from path and kind.
    #[verifier::type_invariant]
    spec fn named_after_path(self) -> bool {
        self.display_name@ == display_name_of(self.path@, self.is_directory)
    }

    /// The entry for the child at `path`.
    pub fn new(path: String, is_directory: bool) -> (entry: Entry)
        ensures
            entry@ == (EntryView { path: path@, is_directory }),
    {
        let mut display_name = file_name(path.as_str());
        if is_directory {
            proof {
                reveal_strlit("/");
            }
            let ghost bare = display_name@;
            display_name.append("/");
            assert(display_name@ =~= bare.push(SEPARATOR));
        }
        Entry { path, display_name, is_directory }
    }

    /// The path of the child.
    pub fn path(&self) -> (path: &str)
        ensures
            path@ == self@.path,
    {
        self.path.as_str()
    }

    /// The name the child is shown under.
    pub fn display_name(&self) -> (name: &str)
        ensures
            name@ == self@.display_name(),
    {
        proof {
            use_type_invariant(self);
        }
        self.display_name.as_str()
    }

    /// Whether the child is a directory.
    pub fn is_directory(&self) -> (r: bool)
        ensures
            r == self@.is_directory,
    {
        self.is_directory
    }

    /// Whether this entry may stand before `other` in a listing.
    pub fn precedes(&self, other: &Entry) -> (r: bool)
        ensures
            r == entry_le(self@, other@),
    {
        if self.is_directory != other.is_directory {
            self.is_directory
        } else {
            text_precedes(self.path.as_str(), other.path.as_str())
        }
    }
}

impl Clone for Entry {
    fn clone(&self) -> (copy: Entry)
        ensures
            copy@ == self@,
    {
        proof {
            use_type_invariant(self);
        }
        Entry {
            path: self.path.clone(),
            display_name: self.display_name.clone(),
            is_directory: self.is_directory,
        }
    }
}

} // verus!
