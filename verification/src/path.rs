//! Path text: its ordering, its final component and its parent.
//!
//! A path is text in which `/` separates the components. Everything here is
//! stated over the characters of the text, `Seq<char>`.

use vstd::prelude::*;
use vstd::std_specs::iter::IteratorSpec;
use vstd::string::*;

verus! {

/// The character that separates the components of a path.
pub const SEPARATOR: char = '/';

/// Lexicographic order on text, character by character, by code point.
/// A proper prefix comes before the longer text.
pub open spec fn text_le(a: Seq<char>, b: Seq<char>) -> bool
    decreases a.len(),
{
    if a.len() == 0 {
        true
    } else if b.len() == 0 {
        false
    } else if a[0] == b[0] {
        text_le(a.drop_first(), b.drop_first())
    } else {
        (a[0] as u32) < (b[0] as u32)
    }
}

/// Every text is in order with itself.
pub proof fn lemma_text_le_reflexive(a: Seq<char>)
    ensures
        text_le(a, a),
    decreases a.len(),
{
    if a.len() > 0 {
        lemma_text_le_reflexive(a.drop_first());
    }
}

/// Two texts that are in order both ways are the same text.
pub proof fn lemma_text_le_antisymmetric(a: Seq<char>, b: Seq<char>)
    requires
        text_le(a, b),
        text_le(b, a),
    ensures
        a == b,
    decreases a.len(),
{
    if a.len() > 0 && b.len() > 0 {
        lemma_text_le_antisymmetric(a.drop_first(), b.drop_first());
        assert(a =~= seq![a[0]] + a.drop_first());
        assert(b =~= seq![b[0]] + b.drop_first());
    } else {
        assert(a =~= b);
    }
}

/// The order carries over a text in the middle.
pub proof fn lemma_text_le_transitive(a: Seq<char>, b: Seq<char>, c: Seq<char>)
    requires
        text_le(a, b),
        text_le(b, c),
    ensures
        text_le(a, c),
    decreases a.len(),
{
    if a.len() > 0 && b.len() > 0 && c.len() > 0 && a[0] == b[0] && b[0] == c[0] {
        lemma_text_le_transitive(a.drop_first(), b.drop_first(), c.drop_first());
    }
}

/// Any two texts are in order one way or the other.
pub proof fn lemma_text_le_total(a: Seq<char>, b: Seq<char>)
    ensures
        text_le(a, b) || text_le(b, a),
    decreases a.len(),
{
    if a.len() > 0 && b.len() > 0 {
        if a[0] == b[0] {
            lemma_text_le_total(a.drop_first(), b.drop_first());
        } else {
            vstd::utf8::char_u32_cast(a[0], a[0] as u32);
            vstd::utf8::char_u32_cast(b[0], b[0] as u32);
        }
    }
}

/// Whether the code point of `a` is below that of `b`.
fn code_point_before(a: char, b: char) -> (r: bool)
    ensures
        r == ((a as u32) < (b as u32)),
{
    a < b
}

/// Decides the lexicographic order of two texts.
pub fn text_precedes(a: &str, b: &str) -> (r: bool)
    ensures
        r == text_le(a@, b@),
{
    let mut left = a.chars();
    let mut right = b.chars();
    loop
        invariant
            text_le(a@, b@) == text_le(left.remaining(), right.remaining()),
            left.obeys_prophetic_iter_laws(),
            right.obeys_prophetic_iter_laws(),
            left.decrease() is Some,
        decreases left.decrease()->0,
    {
        match left.next() {
            None => {
                return true;
            },
            Some(x) => {
                match right.next() {
                    None => {
                        return false;
                    },
                    Some(y) => {
                        if x != y {
                            return code_point_before(x, y);
                        }
                    },
                }
            },
        }
    }
}

/// The position of the last separator in `path`, or -1 where it has none.
pub open spec fn last_separator(path: Seq<char>) -> int
    decreases path.len(),
{
    if path.len() == 0 {
        -1
    } else if path.last() == SEPARATOR {
        path.len() - 1
    } else {
        last_separator(path.drop_last())
    }
}

/// The last separator lies inside the text, and nothing after it is a separator.
pub proof fn lemma_last_separator(path: Seq<char>)
    ensures
        -1 <= last_separator(path) < path.len(),
        last_separator(path) >= 0 ==> path[last_separator(path)] == SEPARATOR,
        forall|i: int| last_separator(path) < i < path.len() ==> path[i] != SEPARATOR,
    decreases path.len(),
{
    if path.len() > 0 && path.last() != SEPARATOR {
        let shorter = path.drop_last();
        lemma_last_separator(shorter);
        assert forall|i: int| last_separator(path) < i < path.len() implies path[i]
            != SEPARATOR by {
            if i < shorter.len() {
                assert(shorter[i] == path[i]);
            }
        }
    }
}

/// The final component of `path`: the text after its last separator, the whole
/// text where it has none.
pub open spec fn file_name_of(path: Seq<char>) -> Seq<char> {
    path.subrange(last_separator(path) + 1, path.len() as int)
}

/// The directory that holds `path`: the text before its last separator, the
/// root where that separator opens the text. The root itself and a text
/// without a separator have no parent.
pub open spec fn parent_of(path: Seq<char>) -> Option<Seq<char>> {
    let k = last_separator(path);
    if k < 0 {
        None
    } else if k == 0 {
        if path.len() == 1 {
            None
        } else {
            Some(path.subrange(0, 1))
        }
    } else {
        Some(path.subrange(0, k))
    }
}

/// Finds the last separator of `path` and counts its characters.
fn scan_separators(path: &str) -> (r: (Option<usize>, usize))
    ensures
        r.1 == path@.len(),
        match r.0 {
            Some(k) => k == last_separator(path@),
            None => last_separator(path@) == -1,
        },
{
    let total: usize = path.unicode_len();
    let mut last: Option<usize> = None;
    let mut seen: usize = 0;
    let mut rest = path.chars();
    loop
        invariant
            total == path@.len(),
            seen <= total,
            path@.subrange(0, seen as int) + rest.remaining() == path@,
            rest.obeys_prophetic_iter_laws(),
            rest.decrease() is Some,
            match last {
                Some(k) => k == last_separator(path@.subrange(0, seen as int)),
                None => last_separator(path@.subrange(0, seen as int)) == -1,
            },
        decreases rest.decrease()->0,
    {
        let ghost before = path@.subrange(0, seen as int);
        match rest.next() {
            None => {
                assert(before =~= path@);
                return (last, seen);
            },
            Some(c) => {
                proof {
                    let after = path@.subrange(0, seen + 1);
                    assert(after.drop_last() =~= before);
                    assert(after.last() == c);
                }
                if c == SEPARATOR {
                    last = Some(seen);
                }
                seen = seen + 1;
            },
        }
    }
}

/// The final component of `path`.
pub fn file_name(path: &str) -> (name: String)
    ensures
        name@ == file_name_of(path@),
{
    let (last, total) = scan_separators(path);
    proof {
        lemma_last_separator(path@);
    }
    let start: usize = match last {
        Some(k) => k + 1,
        None => 0,
    };
    String::from_str(path.substring_char(start, total))
}

/// The directory that holds `path`, where the text names one.
pub fn parent(path: &str) -> (dir: Option<String>)
    ensures
        match parent_of(path@) {
            Some(p) => dir is Some && dir->0@ == p,
            None => dir is None,
        },
{
    let (last, total) = scan_separators(path);
    proof {
        lemma_last_separator(path@);
    }
    match last {
        None => None,
        Some(k) => {
            if k == 0 {
                if total == 1 {
                    None
                } else {
                    Some(String::from_str(path.substring_char(0, 1)))
                }
            } else {
                Some(String::from_str(path.substring_char(0, k)))
            }
        },
    }
}

} // verus!
