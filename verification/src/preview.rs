//! The preview generator: what is shown beside the listing for the entry
//! under the cursor.
//!
//! A directory is previewed by the names of its children, a file by its first
//! lines. Whatever cannot be read or decoded gives a placeholder; nothing here
//! fails.

use crate::entry::{Entry, EntryView};
use crate::listing::{listing_of, read_directory, ScannedChild};
use vstd::prelude::*;
use vstd::slice::slice_subrange;
use vstd::string::*;
use vstd::utf8::{decode_utf8, valid_utf8};

verus! {

/// The byte that ends a line.
pub const LINE_FEED: u8 = 10;

/// The byte that may stand before the line feed and belongs to the line end.
pub const CARRIAGE_RETURN: u8 = 13;

/// How many lines of a file are shown where nothing else is asked for.
pub const DEFAULT_LINE_BUDGET: usize = 100;

/// How many bytes from the start of a file are enough to read for a preview.
pub const PREVIEW_BYTE_LIMIT: u64 = 1048576;

/// How many bytes stand before the first line feed of `bytes`: all of them
/// where there is none.
pub open spec fn line_end(bytes: Seq<u8>) -> int
    decreases bytes.len(),
{
    if bytes.len() == 0 || bytes[0] == LINE_FEED {
        0
    } else {
        1 + line_end(bytes.drop_first())
    }
}

/// The first line of `bytes`, without its line feed and without a carriage
/// return before that line feed.
pub open spec fn first_line(bytes: Seq<u8>) -> Seq<u8> {
    let end = line_end(bytes);
    if 0 < end < bytes.len() && bytes[end - 1] == CARRIAGE_RETURN {
        bytes.subrange(0, end - 1)
    } else {
        bytes.subrange(0, end)
    }
}

/// What follows the first line of `bytes` and its line feed.
pub open spec fn after_first_line(bytes: Seq<u8>) -> Seq<u8> {
    let end = line_end(bytes);
    if end < bytes.len() {
        bytes.subrange(end + 1, bytes.len() as int)
    } else {
        Seq::empty()
    }
}

/// The first lines of `bytes` as text: at most `budget` of them, and only
/// those before the first line that is not valid UTF-8.
pub open spec fn text_lines(bytes: Seq<u8>, budget: nat) -> Seq<Seq<char>>
    decreases budget,
{
    if budget == 0 || bytes.len() == 0 || !valid_utf8(first_line(bytes)) {
        Seq::empty()
    } else {
        seq![decode_utf8(first_line(bytes))] + text_lines(
            after_first_line(bytes),
            (budget - 1) as nat,
        )
    }
}

/// Whether not even the first line of `bytes` can be shown as text although
/// one is asked for.
pub open spec fn undecodable(bytes: Seq<u8>, budget: nat) -> bool {
    budget > 0 && bytes.len() > 0 && !valid_utf8(first_line(bytes))
}

/// What a preview is.
pub enum PreviewView {
    /// The names of the children of a directory, in listing order.
    Children(Seq<Seq<char>>),
    /// The first lines of a file.
    Text(Seq<Seq<char>>),
    /// Nothing could be read or decoded.
    Unavailable,
}

/// The text of each of `lines`.
pub open spec fn line_texts(lines: Seq<String>) -> Seq<Seq<char>> {
    lines.map_values(|line: String| line@)
}

/// The names that `entries` are shown under.
pub open spec fn display_names_of(entries: Seq<EntryView>) -> Seq<Seq<char>> {
    entries.map_values(|e: EntryView| e.display_name())
}

/// The preview of a directory, from what reading it returned.
pub open spec fn directory_preview_of(scan: Option<Vec<ScannedChild>>) -> PreviewView {
    match scan {
        Some(children) => PreviewView::Children(display_names_of(listing_of(children@))),
        None => PreviewView::Unavailable,
    }
}

/// The preview of a file, from what reading it returned.
pub open spec fn file_preview_of(content: Option<Vec<u8>>, budget: nat) -> PreviewView {
    match content {
        Some(bytes) => if undecodable(bytes@, budget) {
            PreviewView::Unavailable
        } else {
            PreviewView::Text(text_lines(bytes@, budget))
        },
        None => PreviewView::Unavailable,
    }
}

/// What was read in order to preview an entry.
#[derive(Debug)]
pub enum PreviewSource {
    /// What reading the entry as a directory returned: its children, or
    /// nothing where it could not be read.
    Directory(Option<Vec<ScannedChild>>),
    /// What reading the entry as a file returned: bytes from its start, or
    /// nothing where it could not be opened.
    File(Option<Vec<u8>>),
}

/// The preview of `entry` from `source`. A source of the wrong kind previews
/// nothing.
pub open spec fn preview_of(entry: EntryView, source: PreviewSource, budget: nat) -> PreviewView {
    match source {
        PreviewSource::Directory(scan) => if entry.is_directory {
            directory_preview_of(scan)
        } else {
            PreviewView::Unavailable
        },
        PreviewSource::File(content) => if entry.is_directory {
            PreviewView::Unavailable
        } else {
            file_preview_of(content, budget)
        },
    }
}

/// The line shown where there is no preview.
pub open spec fn placeholder() -> Seq<char> {
    "preview unavailable"@
}

/// The lines in which a preview is shown.
pub open spec fn preview_lines_of(preview: PreviewView) -> Seq<Seq<char>> {
    match preview {
        PreviewView::Children(names) => names,
        PreviewView::Text(lines) => lines,
        PreviewView::Unavailable => seq![placeholder()],
    }
}

/// What is shown for the entry under the cursor.
#[derive(Debug)]
pub enum PreviewContent {
    /// The names of the children of a directory, in listing order.
    Children(Vec<String>),
    /// The first lines of a file.
    Text(Vec<String>),
    /// Nothing could be read or decoded.
    Unavailable,
}

impl View for PreviewContent {
    type V = PreviewView;

    open spec fn view(&self) -> PreviewView {
        match self {
            PreviewContent::Children(names) => PreviewView::Children(line_texts(names@)),
            PreviewContent::Text(lines) => PreviewView::Text(line_texts(lines@)),
            PreviewContent::Unavailable => PreviewView::Unavailable,
        }
    }
}

/// Copies `lines`.
fn copy_lines(lines: &Vec<String>) -> (copy: Vec<String>)
    ensures
        line_texts(copy@) == line_texts(lines@),
{
    let mut copy: Vec<String> = Vec::new();
    let mut index: usize = 0;
    while index < lines.len()
        invariant
            index <= lines@.len(),
            copy@.len() == index,
            forall|i: int| 0 <= i < index ==> (#[trigger] copy@[i])@ == lines@[i]@,
        decreases lines@.len() - index,
    {
        copy.push(lines[index].clone());
        index = index + 1;
    }
    assert(line_texts(copy@) =~= line_texts(lines@));
    copy
}

impl PreviewContent {
    /// The lines in which the preview is shown: the names, the text, or the
    /// one line that says that there is no preview.
    pub fn lines(&self) -> (lines: Vec<String>)
        ensures
            line_texts(lines@) == preview_lines_of(self@),
    {
        match self {
            PreviewContent::Children(names) => copy_lines(names),
            PreviewContent::Text(text) => copy_lines(text),
            PreviewContent::Unavailable => {
                let mut lines: Vec<String> = Vec::new();
                lines.push(String::from_str("preview unavailable"));
                lines
            },
        }
    }
}

/// `std::str::from_utf8`: the text that `bytes` encode where they are valid
/// UTF-8, and nothing where they are not.
#[verifier::external_body]
fn decode_text<'a>(bytes: &'a [u8]) -> (text: Option<&'a str>)
    ensures
        text is Some <==> valid_utf8(bytes@),
        text is Some ==> text->0@ == decode_utf8(bytes@),
{
    match std::str::from_utf8(bytes) {
        Ok(text) => Some(text),
        Err(_) => None,
    }
}

/// A run of bytes without a line feed, closed by a line feed or by the end of
/// the bytes, is the first line.
proof fn lemma_line_end(bytes: Seq<u8>, end: int)
    requires
        0 <= end <= bytes.len(),
        forall|k: int| 0 <= k < end ==> bytes[k] != LINE_FEED,
        end == bytes.len() || bytes[end] == LINE_FEED,
    ensures
        line_end(bytes) == end,
    decreases end,
{
    if end > 0 {
        let rest = bytes.drop_first();
        assert forall|k: int| 0 <= k < end - 1 implies rest[k] != LINE_FEED by {
            assert(rest[k] == bytes[k + 1]);
        }
        lemma_line_end(rest, end - 1);
    }
}

/// The preview of a directory, from what reading it returned.
pub fn directory_preview(scan: Option<Vec<ScannedChild>>) -> (preview: PreviewContent)
    ensures
        preview@ == directory_preview_of(scan),
{
    match read_directory("", scan) {
        Ok(snapshot) => {
            let names = snapshot.display_names();
            assert(line_texts(names@) =~= display_names_of(snapshot@));
            PreviewContent::Children(names)
        },
        Err(_) => PreviewContent::Unavailable,
    }
}

/// The preview of a file whose first bytes are `bytes`: its first lines as
/// text, at most `line_budget` of them, cut before the first line that is not
/// valid UTF-8; the placeholder where that is the very first line.
pub fn text_preview(bytes: &Vec<u8>, line_budget: usize) -> (preview: PreviewContent)
    ensures
        preview@ == (if undecodable(bytes@, line_budget as nat) {
            PreviewView::Unavailable
        } else {
            PreviewView::Text(text_lines(bytes@, line_budget as nat))
        }),
{
    let all = bytes.as_slice();
    let total: usize = all.len();
    let mut lines: Vec<String> = Vec::new();
    let mut start: usize = 0;
    proof {
        assert(bytes@.subrange(0, total as int) =~= bytes@);
        assert(line_texts(lines@) + text_lines(bytes@, line_budget as nat) =~= text_lines(
            bytes@,
            line_budget as nat,
        ));
    }
    while start < total && lines.len() < line_budget
        invariant
            all@ == bytes@,
            total == bytes@.len(),
            start <= total,
            lines@.len() <= line_budget,
            lines@.len() == 0 ==> start == 0,
            lines@.len() > 0 ==> !undecodable(bytes@, line_budget as nat),
            text_lines(bytes@, line_budget as nat) == line_texts(lines@) + text_lines(
                bytes@.subrange(start as int, total as int),
                (line_budget - lines@.len()) as nat,
            ),
        decreases total - start,
    {
        let ghost rest = bytes@.subrange(start as int, total as int);
        let ghost shown = line_texts(lines@);
        let mut end: usize = start;
        while end < total && all[end] != LINE_FEED
            invariant
                all@ == bytes@,
                total == bytes@.len(),
                start <= end <= total,
                forall|k: int| start <= k < end ==> bytes@[k] != LINE_FEED,
            decreases total - end,
        {
            end = end + 1;
        }
        let stop: usize = if start < end && end < total && all[end - 1] == CARRIAGE_RETURN {
            end - 1
        } else {
            end
        };
        let next: usize = if end < total {
            end + 1
        } else {
            total
        };
        let line = slice_subrange(all, start, stop);
        proof {
            assert forall|k: int| 0 <= k < end - start implies rest[k] != LINE_FEED by {
                assert(rest[k] == bytes@[start + k]);
            }
            lemma_line_end(rest, end - start);
            assert(line@ =~= first_line(rest));
            assert(bytes@.subrange(next as int, total as int) =~= after_first_line(rest));
        }
        match decode_text(line) {
            None => {
                proof {
                    assert(text_lines(rest, (line_budget - lines@.len()) as nat)
                        =~= Seq::<Seq<char>>::empty());
                }
                if lines.len() == 0 {
                    return PreviewContent::Unavailable;
                } else {
                    return PreviewContent::Text(lines);
                }
            },
            Some(text) => {
                lines.push(String::from_str(text));
                assert(line_texts(lines@) =~= shown.push(text@));
                start = next;
            },
        }
    }
    proof {
        assert(text_lines(
            bytes@.subrange(start as int, total as int),
            (line_budget - lines@.len()) as nat,
        ) =~= Seq::<Seq<char>>::empty());
    }
    PreviewContent::Text(lines)
}

/// The preview of a file, from what reading it returned.
pub fn file_preview(content: Option<Vec<u8>>, line_budget: usize) -> (preview: PreviewContent)
    ensures
        preview@ == file_preview_of(content, line_budget as nat),
{
    match content {
        Some(bytes) => text_preview(&bytes, line_budget),
        None => PreviewContent::Unavailable,
    }
}

/// The preview of `selected_entry` from what was read for it: the names of
/// the children of a directory, the first `line_budget` lines of a file, or
/// the placeholder.
pub fn generate(selected_entry: &Entry, source: PreviewSource, line_budget: usize) -> (preview:
    PreviewContent)
    ensures
        preview@ == preview_of(selected_entry@, source, line_budget as nat),
{
    match source {
        PreviewSource::Directory(scan) => {
            if selected_entry.is_directory() {
                directory_preview(scan)
            } else {
                PreviewContent::Unavailable
            }
        },
        PreviewSource::File(content) => {
            if selected_entry.is_directory() {
                PreviewContent::Unavailable
            } else {
                file_preview(content, line_budget)
            }
        },
    }
}

} // verus!
