//! The local file name a download is saved under.

use vstd::prelude::*;
use vstd::string::StrSliceExecFns;
use vstd::string::StringExecFns;

verus! {

/// The character that separates the segments of a target.
pub const SEPARATOR: char = '/';

/// The character that ends the name of a scheme.
pub const COLON: char = ':';

/// Name used when the target has no path or its last segment is empty.
pub const DEFAULT_FILENAME: &'static str = "index.html";

/// True when the mark `://` stands at index `at` of `target`.
pub open spec fn scheme_mark_at(target: Seq<char>, at: int) -> bool {
    &&& 0 <= at
    &&& at + 3 <= target.len()
    &&& target[at] == COLON
    &&& target[at + 1] == SEPARATOR
    &&& target[at + 2] == SEPARATOR
}

/// True when the scheme of `target` ends at index `at`: the first `://` of
/// the target stands there.
pub open spec fn scheme_ends_at(target: Seq<char>, at: int) -> bool {
    &&& scheme_mark_at(target, at)
    &&& forall|j: int| 0 <= j < at ==> !#[trigger] scheme_mark_at(target, j)
}

/// Index just past the last separator of `target`, or 0 when it holds none:
/// where the last segment begins.
pub open spec fn last_segment_start(target: Seq<char>) -> int
    decreases target.len(),
{
    if target.len() == 0 {
        0
    } else if target.last() == SEPARATOR {
        target.len() as int
    } else {
        last_segment_start(target.drop_last())
    }
}

/// What follows the last separator of `target`; all of it when it holds none.
pub open spec fn last_segment(target: Seq<char>) -> Seq<char> {
    target.subrange(last_segment_start(target), target.len() as int)
}

/// True when `target` has a path: a separator follows the `://` that ends
/// its scheme, so that the last segment begins after that mark. A target
/// without a scheme counts as a path as a whole.
pub open spec fn has_path(target: Seq<char>) -> bool {
    forall|at: int| #[trigger]
        scheme_ends_at(target, at) ==> last_segment_start(target) > at + 3
}

/// The file name for `target`: the default name when the target has no path
/// or its last segment is empty, the last segment otherwise.
pub open spec fn spec_resolve_filename(target: Seq<char>) -> Seq<char> {
    if !has_path(target) || last_segment(target).len() == 0 {
        DEFAULT_FILENAME@
    } else {
        last_segment(target)
    }
}

/// The last segment starts inside the target, directly after a separator or
/// at the very beginning, and holds no separator itself.
pub proof fn lemma_last_segment_start(target: Seq<char>)
    ensures
        0 <= last_segment_start(target) <= target.len(),
        last_segment_start(target) > 0 ==> target[last_segment_start(target) - 1] == SEPARATOR,
        forall|i: int| last_segment_start(target) <= i < target.len() ==> target[i] != SEPARATOR,
    decreases target.len(),
{
    if target.len() > 0 && target.last() != SEPARATOR {
        let shorter = target.drop_last();
        lemma_last_segment_start(shorter);
        assert forall|i: int| last_segment_start(target) <= i < target.len() implies target[i]
            != SEPARATOR by {
            if i < shorter.len() {
                assert(shorter[i] == target[i]);
            }
        }
    }
}

/// A separator stands before where the last segment starts, never after.
pub proof fn lemma_separator_before_last_segment(target: Seq<char>, at: int)
    requires
        0 <= at < target.len(),
        target[at] == SEPARATOR,
    ensures
        at < last_segment_start(target),
{
    lemma_last_segment_start(target);
}

/// A target that is empty or ends in a separator resolves to the default
/// name.
pub proof fn lemma_trailing_separator_resolves_to_default(target: Seq<char>)
    requires
        target.len() == 0 || target.last() == SEPARATOR,
    ensures
        spec_resolve_filename(target) == DEFAULT_FILENAME@,
{
}

/// A target without a path resolves to the default name.
pub proof fn lemma_no_path_resolves_to_default(target: Seq<char>)
    requires
        !has_path(target),
    ensures
        spec_resolve_filename(target) == DEFAULT_FILENAME@,
{
}

/// A target in which no separator follows the `://` that ends its scheme,
/// such as a scheme and a bare host, has no path and resolves to the default
/// name, whatever else follows the mark.
pub proof fn lemma_bare_authority_resolves_to_default(target: Seq<char>, at: int)
    requires
        scheme_ends_at(target, at),
        forall|k: int| at + 3 <= k < target.len() ==> target[k] != SEPARATOR,
    ensures
        last_segment_start(target) == at + 3,
        !has_path(target),
        spec_resolve_filename(target) == DEFAULT_FILENAME@,
{
    lemma_last_segment_start(target);
    lemma_separator_before_last_segment(target, at + 2);
    let start = last_segment_start(target);
    if start > at + 3 {
        assert(target[start - 1] == SEPARATOR);
    }
}

/// A target in which a separator follows the `://` that ends its scheme has a
/// path.
pub proof fn lemma_separator_after_scheme_gives_path(target: Seq<char>, at: int, k: int)
    requires
        scheme_ends_at(target, at),
        at + 3 <= k < target.len(),
        target[k] == SEPARATOR,
    ensures
        has_path(target),
{
    lemma_separator_before_last_segment(target, k);
    assert forall|other: int| #[trigger] scheme_ends_at(target, other) implies last_segment_start(
        target,
    ) > other + 3 by {
        assert(scheme_mark_at(target, at));
        assert(scheme_mark_at(target, other));
        assert(other == at);
    }
}

/// A target in which no `://` stands has a path.
pub proof fn lemma_no_scheme_gives_path(target: Seq<char>)
    requires
        forall|j: int| !#[trigger] scheme_mark_at(target, j),
    ensures
        has_path(target),
{
}

/// A target that has a path and ends in anything but a separator resolves to
/// what follows its last separator: a name that is not empty, holds no
/// separator, ends the target, and is preceded there by a separator or by
/// nothing.
pub proof fn lemma_resolved_name_is_last_segment(target: Seq<char>)
    requires
        has_path(target),
        target.len() > 0,
        target.last() != SEPARATOR,
    ensures
        ({
            let name = spec_resolve_filename(target);
            let start = target.len() - name.len();
            &&& 0 < name.len() <= target.len()
            &&& name == target.subrange(start, target.len() as int)
            &&& forall|i: int| 0 <= i < name.len() ==> name[i] != SEPARATOR
            &&& start == 0 || target[start - 1] == SEPARATOR
        }),
{
    lemma_last_segment_start(target);
    let start = last_segment_start(target);
    if start == target.len() {
        assert(target[start - 1] == target.last());
    }
}

/// What one pass over a target finds.
struct Scan {
    /// Where the last segment begins.
    segment_start: usize,
    /// The index just past the `://` that ends the scheme, when there is one.
    scheme_end: Option<usize>,
}

/// Finds, in one pass, where the last segment of `target` begins and where
/// its scheme ends.
fn scan_target(target: &str, length: usize) -> (scan: Scan)
    requires
        length == target@.len(),
    ensures
        scan.segment_start == last_segment_start(target@),
        scan.segment_start <= target@.len(),
        match scan.scheme_end {
            Some(end) => 3 <= end <= target@.len() && scheme_ends_at(target@, end - 3),
            None => forall|j: int| !#[trigger] scheme_mark_at(target@, j),
        },
{
    let mut start: usize = 0;
    let mut scheme_end: Option<usize> = None;
    let mut previous: char = ' ';
    let mut before_previous: char = ' ';
    let mut index: usize = 0;
    for c in iter: target.chars()
        invariant
            length == target@.len(),
            iter.seq() == target@,
            index == iter.index(),
            start <= index <= length,
            start == last_segment_start(target@.subrange(0, index as int)),
            index >= 1 ==> previous == target@[index - 1],
            index >= 2 ==> before_previous == target@[index - 2],
            match scheme_end {
                Some(end) => 3 <= end <= index && scheme_ends_at(target@, end - 3),
                None => forall|j: int| j + 3 <= index ==> !#[trigger] scheme_mark_at(target@, j),
            },
    {
        proof {
            let before = target@.subrange(0, index as int);
            let now = target@.subrange(0, index + 1);
            assert(now.drop_last() =~= before);
            assert(now.last() == c);
        }
        index = index + 1;
        if c == SEPARATOR {
            start = index;
        }
        if scheme_end.is_none() && index >= 3 && c == SEPARATOR && previous == SEPARATOR
            && before_previous == COLON {
            proof {
                assert(scheme_mark_at(target@, index - 3));
            }
            scheme_end = Some(index);
        }
        before_previous = previous;
        previous = c;
    }
    proof {
        assert(target@.subrange(0, index as int) =~= target@);
    }
    Scan { segment_start: start, scheme_end }
}

/// Resolves the name of the output file from the target as it was given:
/// `index.html` when no `/` follows the `://` that ends the scheme or when
/// nothing follows the last `/`, the text after the last `/` otherwise.
pub fn resolve_filename(target: &str) -> (name: String)
    ensures
        name@ == spec_resolve_filename(target@),
        !has_path(target@) ==> name@ == DEFAULT_FILENAME@,
{
    let length: usize = target.unicode_len();
    let scan = scan_target(target, length);
    let start = scan.segment_start;
    let bare = match scan.scheme_end {
        Some(end) => end == start,
        None => false,
    };
    proof {
        match scan.scheme_end {
            Some(end) => {
                if end == start {
                    assert(scheme_ends_at(target@, end - 3));
                    assert(!has_path(target@));
                } else {
                    lemma_last_segment_start(target@);
                    lemma_separator_before_last_segment(target@, end - 1);
                    lemma_separator_after_scheme_gives_path(target@, end - 3, start - 1);
                }
            },
            None => {
                lemma_no_scheme_gives_path(target@);
            },
        }
        assert(bare == !has_path(target@));
    }
    if bare || start == length {
        String::from_str(DEFAULT_FILENAME)
    } else {
        String::from_str(target.substring_char(start, length))
    }
}

} // verus!
