//! The directory lister: from what a directory read returned to an ordered
//! snapshot of the directory's children.

use crate::path::text_le;
use crate::entry::{
    entry_le, lemma_entry_le_antisymmetric, lemma_entry_le_reflexive, lemma_entry_le_total,
    lemma_entry_le_transitive, Entry, EntryView,
};
use vstd::multiset::Multiset;
use vstd::prelude::*;
use vstd::relations::{sorted_by, total_ordering};
use vstd::seq_lib::{lemma_sorted_unique, to_multiset_build, to_multiset_insert};
use vstd::string::*;

verus! {

/// What the metadata of a child said it is.
#[derive(Debug, Clone, Copy, PartialEq, Eq, Structural)]
pub enum ChildKind {
    /// The child is a directory.
    Directory,
    /// The child is anything else.
    File,
    /// The metadata could not be read.
    Unreadable,
}

/// One child as a directory read reported it.
#[derive(Debug)]
pub struct ScannedChild {
    /// The path of the child.
    pub path: String,
    /// What its metadata said it is.
    pub kind: ChildKind,
}

/// A directory that could not be read.
#[derive(Debug)]
pub struct DirectoryReadError {
    path: String,
}

impl View for DirectoryReadError {
    type V = Seq<char>;

    /// The path of the directory that could not be read.
    closed spec fn view(&self) -> Seq<char> {
        self.path@
    }
}

impl DirectoryReadError {
    /// The failure to read the directory at `path`.
    pub fn new(path: &str) -> (error: DirectoryReadError)
        ensures
            error@ == path@,
    {
        DirectoryReadError { path: String::from_str(path) }
    }

    /// The path of the directory that could not be read.
    pub fn path(&self) -> (path: &str)
        ensures
            path@ == self@,
    {
        self.path.as_str()
    }
}

/// The entries that a read yields, in the order of the read: one for each
/// child whose metadata could be read.
pub open spec fn listed_entries(children: Seq<ScannedChild>) -> Seq<EntryView>
    decreases children.len(),
{
    if children.len() == 0 {
        Seq::empty()
    } else {
        let before = listed_entries(children.drop_last());
        let child = children.last();
        if child.kind == ChildKind::Unreadable {
            before
        } else {
            before.push(
                EntryView { path: child.path@, is_directory: child.kind == ChildKind::Directory },
            )
        }
    }
}

/// What each of `entries` is.
pub open spec fn entry_views(entries: Seq<Entry>) -> Seq<EntryView> {
    entries.map_values(|e: Entry| e@)
}

/// Every entry stands before all that follow it: directories before files,
/// and within each kind by path.
pub open spec fn in_listing_order(entries: Seq<EntryView>) -> bool {
    forall|i: int, j: int| 0 <= i < j < entries.len() ==> entry_le(entries[i], entries[j])
}

/// The sorting law: of any two entries of a sequence in listing order, the
/// earlier one is the directory where only one of them is a directory, and
/// has the path that comes first where both are of one kind.
pub proof fn lemma_sorting_law(entries: Seq<EntryView>, i: int, j: int)
    requires
        in_listing_order(entries),
        0 <= i < j < entries.len(),
    ensures
        entries[i].is_directory != entries[j].is_directory ==> entries[i].is_directory
            && !entries[j].is_directory,
        entries[i].is_directory == entries[j].is_directory ==> text_le(
            entries[i].path,
            entries[j].path,
        ),
{
    assert(entry_le(entries[i], entries[j]));
}

/// `snapshot` lists `children`: it holds the readable children, each as often
/// as the read reported it, in listing order.
pub open spec fn is_listing_of(snapshot: Seq<EntryView>, children: Seq<ScannedChild>) -> bool {
    &&& in_listing_order(snapshot)
    &&& snapshot.to_multiset() == listed_entries(children).to_multiset()
}

/// The listing order as a relation.
pub open spec fn listing_order() -> spec_fn(EntryView, EntryView) -> bool {
    |a: EntryView, b: EntryView| entry_le(a, b)
}

/// The listing order is a total order.
pub proof fn lemma_listing_order_total()
    ensures
        total_ordering(listing_order()),
{
    let leq = listing_order();
    assert forall|a: EntryView| #[trigger] leq(a, a) by {
        lemma_entry_le_reflexive(a);
    }
    assert forall|a: EntryView, b: EntryView| #[trigger] leq(a, b) && #[trigger] leq(b, a) implies a
        == b by {
        lemma_entry_le_antisymmetric(a, b);
    }
    assert forall|a: EntryView, b: EntryView, c: EntryView| #[trigger]
        leq(a, b) && #[trigger] leq(b, c) implies leq(a, c) by {
        lemma_entry_le_transitive(a, b, c);
    }
    assert forall|a: EntryView, b: EntryView| #[trigger] leq(a, b) || #[trigger] leq(b, a) by {
        lemma_entry_le_total(a, b);
    }
}

/// The listing of `children`: the entries that the read yields, put in
/// listing order.
pub open spec fn listing_of(children: Seq<ScannedChild>) -> Seq<EntryView> {
    listed_entries(children).sort_by(listing_order())
}

/// The listing of a read lists it.
pub proof fn lemma_listing_of(children: Seq<ScannedChild>)
    ensures
        is_listing_of(listing_of(children), children),
{
    lemma_listing_order_total();
    listed_entries(children).lemma_sort_by_ensures(listing_order());
    let listing = listing_of(children);
    assert forall|i: int, j: int| 0 <= i < j < listing.len() implies entry_le(
        listing[i],
        listing[j],
    ) by {
        assert(listing_order()(listing[i], listing[j]));
    }
}

/// Two sequences in listing order that hold the same entries, each as often
/// as the other, are the same sequence.
pub proof fn lemma_listing_order_unique(first: Seq<EntryView>, second: Seq<EntryView>)
    requires
        in_listing_order(first),
        in_listing_order(second),
        first.to_multiset() == second.to_multiset(),
    ensures
        first == second,
{
    lemma_listing_order_total();
    lemma_sorted_unique(first, second, listing_order());
}

/// A read has exactly one listing.
pub proof fn lemma_listing_unique(snapshot: Seq<EntryView>, children: Seq<ScannedChild>)
    requires
        is_listing_of(snapshot, children),
    ensures
        snapshot == listing_of(children),
{
    lemma_listing_of(children);
    lemma_listing_order_unique(snapshot, listing_of(children));
}

/// A sequence without elements holds nothing.
proof fn lemma_empty_to_multiset(entries: Seq<EntryView>)
    requires
        entries.len() == 0,
    ensures
        entries.to_multiset() == Multiset::<EntryView>::empty(),
{
    vstd::seq_lib::to_multiset_len(entries);
    vstd::multiset::lemma_multiset_empty_len(entries.to_multiset());
}

/// Puts `entry` into `sorted` at the place that keeps the listing order. The
/// place is found by halving.
fn insert_in_order(sorted: &mut Vec<Entry>, entry: Entry)
    requires
        in_listing_order(entry_views(old(sorted)@)),
    ensures
        in_listing_order(entry_views(final(sorted)@)),
        entry_views(final(sorted)@).to_multiset() == entry_views(old(sorted)@).to_multiset().insert(
            entry@,
        ),
{
    let ghost before = entry_views(sorted@);
    let mut low: usize = 0;
    let mut high: usize = sorted.len();
    while low < high
        invariant
            low <= high <= sorted@.len(),
            sorted@ == old(sorted)@,
            before == entry_views(sorted@),
            in_listing_order(before),
            forall|k: int| 0 <= k < low ==> entry_le(#[trigger] before[k], entry@),
            forall|k: int| high <= k < before.len() ==> entry_le(entry@, #[trigger] before[k]),
        decreases high - low,
    {
        let middle: usize = low + (high - low) / 2;
        if sorted[middle].precedes(&entry) {
            proof {
                assert forall|k: int| 0 <= k < middle + 1 implies entry_le(
                    #[trigger] before[k],
                    entry@,
                ) by {
                    if k < middle {
                        lemma_entry_le_transitive(before[k], before[middle as int], entry@);
                    }
                }
            }
            low = middle + 1;
        } else {
            proof {
                lemma_entry_le_total(before[middle as int], entry@);
                assert forall|k: int| middle <= k < before.len() implies entry_le(
                    entry@,
                    #[trigger] before[k],
                ) by {
                    if middle < k {
                        lemma_entry_le_transitive(entry@, before[middle as int], before[k]);
                    }
                }
            }
            high = middle;
        }
    }
    sorted.insert(low, entry);
    proof {
        let after = entry_views(sorted@);
        assert(after =~= before.insert(low as int, entry@));
        to_multiset_insert(before, low as int, entry@);
        assert forall|i: int, j: int| 0 <= i < j < after.len() implies entry_le(
            after[i],
            after[j],
        ) by {
            let earlier = if i < low { i } else { i - 1 };
            let later = if j < low { j } else { j - 1 };
            assert(i == low || after[i] == before[earlier]);
            assert(j == low || after[j] == before[later]);
        }
    }
}

/// The children of one directory at one moment, in listing order. A snapshot
/// never changes once it is made.
#[derive(Debug)]
pub struct Snapshot {
    entries: Vec<Entry>,
}

impl View for Snapshot {
    type V = Seq<EntryView>;

    closed spec fn view(&self) -> Seq<EntryView> {
        entry_views(self.entries@)
    }
}

impl Snapshot {
    /// The entries of a snapshot are always in listing order.
    #[verifier::type_invariant]
    pub open spec fn ordered(self) -> bool {
        in_listing_order(self@)
    }

    /// The snapshot that holds `entries`, each as often as it was given, in
    /// listing order.
    pub fn from_entries(entries: Vec<Entry>) -> (snapshot: Snapshot)
        ensures
            in_listing_order(snapshot@),
            snapshot@.to_multiset() == entry_views(entries@).to_multiset(),
    {
        let mut pending = entries;
        let mut sorted: Vec<Entry> = Vec::new();
        proof {
            assert(entry_views(sorted@) =~= Seq::<EntryView>::empty());
            lemma_empty_to_multiset(entry_views(sorted@));
            assert(entry_views(sorted@).to_multiset().add(entry_views(pending@).to_multiset())
                =~= entry_views(entries@).to_multiset());
        }
        while pending.len() > 0
            invariant
                in_listing_order(entry_views(sorted@)),
                entry_views(sorted@).to_multiset().add(entry_views(pending@).to_multiset())
                    == entry_views(entries@).to_multiset(),
            decreases pending@.len(),
        {
            let ghost listed = entry_views(sorted@);
            let ghost waiting = entry_views(pending@);
            let entry = pending.pop().unwrap();
            proof {
                assert(waiting =~= entry_views(pending@).push(entry@));
                to_multiset_build(entry_views(pending@), entry@);
            }
            insert_in_order(&mut sorted, entry);
            proof {
                assert(entry_views(sorted@).to_multiset().add(entry_views(pending@).to_multiset())
                    =~= listed.to_multiset().add(waiting.to_multiset()));
            }
        }
        proof {
            assert(entry_views(pending@) =~= Seq::<EntryView>::empty());
            assert(entry_views(sorted@).to_multiset().add(entry_views(pending@).to_multiset())
                =~= entry_views(sorted@).to_multiset());
        }
        Snapshot { entries: sorted }
    }

    /// How many entries the snapshot holds.
    pub fn len(&self) -> (n: usize)
        ensures
            n == self@.len(),
        no_unwind
    {
        self.entries.len()
    }

    /// Whether the snapshot holds no entry.
    pub fn is_empty(&self) -> (r: bool)
        ensures
            r == (self@.len() == 0),
    {
        self.entries.len() == 0
    }

    /// The entry at `index`, where the snapshot has one there.
    pub fn get(&self, index: usize) -> (entry: Option<&Entry>)
        ensures
            entry is Some == (index < self@.len()),
            entry is Some ==> entry->0@ == self@[index as int],
    {
        if index < self.entries.len() {
            Some(&self.entries[index])
        } else {
            None
        }
    }

    /// The names the entries are shown under, in listing order.
    pub fn display_names(&self) -> (names: Vec<String>)
        ensures
            names@.len() == self@.len(),
            forall|i: int| 0 <= i < names@.len() ==> (#[trigger] names@[i])@ == self@[i].display_name(),
    {
        let mut names: Vec<String> = Vec::new();
        let mut index: usize = 0;
        while index < self.entries.len()
            invariant
                index <= self.entries@.len(),
                names@.len() == index,
                forall|i: int|
                    0 <= i < index ==> (#[trigger] names@[i])@ == self@[i].display_name(),
            decreases self.entries@.len() - index,
        {
            names.push(String::from_str(self.entries[index].display_name()));
            index = index + 1;
        }
        names
    }
}

/// Lists one directory from what reading it returned: `None` where the
/// directory itself could not be read, else its children as the read reported
/// them. A child whose metadata could not be read is left out.
pub fn read_directory(dir_path: &str, scan: Option<Vec<ScannedChild>>) -> (result: Result<
    Snapshot,
    DirectoryReadError,
>)
    ensures
        match scan {
            Some(children) => {
                &&& result is Ok
                &&& is_listing_of(result->Ok_0@, children@)
                &&& result->Ok_0@ == listing_of(children@)
            },
            None => result is Err && result->Err_0@ == dir_path@,
        },
{
    match scan {
        None => Err(DirectoryReadError::new(dir_path)),
        Some(children) => {
            let mut pending = children;
            let mut entries: Vec<Entry> = Vec::new();
            proof {
                assert(entry_views(entries@) =~= Seq::<EntryView>::empty());
                lemma_empty_to_multiset(entry_views(entries@));
                assert(entry_views(entries@).to_multiset().add(
                    listed_entries(pending@).to_multiset(),
                ) =~= listed_entries(children@).to_multiset());
            }
            while pending.len() > 0
                invariant
                    entry_views(entries@).to_multiset().add(listed_entries(pending@).to_multiset())
                        == listed_entries(children@).to_multiset(),
                decreases pending@.len(),
            {
                let ghost kept = entry_views(entries@);
                let ghost waiting = pending@;
                let child = pending.pop().unwrap();
                assert(pending@ =~= waiting.drop_last());
                let ScannedChild { path, kind } = child;
                match kind {
                    ChildKind::Unreadable => {},
                    ChildKind::Directory | ChildKind::File => {
                        let is_directory = match kind {
                            ChildKind::Directory => true,
                            _ => false,
                        };
                        let entry = Entry::new(path, is_directory);
                        proof {
                            to_multiset_build(listed_entries(pending@), entry@);
                            to_multiset_build(kept, entry@);
                        }
                        entries.push(entry);
                        proof {
                            assert(entry_views(entries@) =~= kept.push(entry@));
                            assert(entry_views(entries@).to_multiset().add(
                                listed_entries(pending@).to_multiset(),
                            ) =~= kept.to_multiset().add(listed_entries(waiting).to_multiset()));
                        }
                    },
                }
            }
            proof {
                assert(entry_views(entries@).to_multiset().add(
                    listed_entries(pending@).to_multiset(),
                ) =~= entry_views(entries@).to_multiset());
            }
            let snapshot = Snapshot::from_entries(entries);
            proof {
                lemma_listing_unique(snapshot@, children@);
            }
            Ok(snapshot)
        },
    }
}

} // verus!
