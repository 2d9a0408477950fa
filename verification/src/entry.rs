//! One row of the list: where it comes from, what it shows, how it is
//! highlighted and where it is laid out.

use vstd::prelude::*;

verus! {

/// The separator between the components of a source path.
pub const PATH_SEPARATOR: char = '/';

/// How a row is highlighted. The renderer picks the colour from this when it
/// paints the row.
#[derive(Clone, Copy, Debug, PartialEq, Eq, Structural)]
pub enum Highlight {
    /// Neither playing nor under the pointer.
    Default,
    /// The entry that is playing.
    Current,
    /// Under the pointer, away from the playing entry.
    Hovered,
    /// Under the pointer, directly above or below the playing entry.
    HoveredAdjacent,
}

/// One playlist entry.
pub struct Entry {
    /// What identifies the track, such as the path of its file.
    pub source: String,
    /// What the row shows: the last component of `source`.
    pub label: String,
    /// How the row is highlighted.
    pub highlight: Highlight,
    /// Left edge of the label.
    pub x: i64,
    /// Top edge of the row.
    pub y: i64,
}

/// An entry as a mathematical value.
pub struct EntryView {
    pub source: Seq<char>,
    pub label: Seq<char>,
    pub highlight: Highlight,
    pub x: int,
    pub y: int,
}

impl View for Entry {
    type V = EntryView;

    open spec fn view(&self) -> EntryView {
        EntryView {
            source: self.source@,
            label: self.label@,
            highlight: self.highlight,
            x: self.x as int,
            y: self.y as int,
        }
    }
}

/// An optional index as a mathematical value.
pub open spec fn index_view(index: Option<usize>) -> Option<int> {
    match index {
        Some(i) => Some(i as int),
        None => None,
    }
}

/// The entries of a list as mathematical values.
pub open spec fn views(entries: Seq<Entry>) -> Seq<EntryView> {
    Seq::new(entries.len(), |i: int| entries[i]@)
}

/// The sources of a list as sequences of characters.
pub open spec fn sources_of(sources: Seq<String>) -> Seq<Seq<char>> {
    Seq::new(sources.len(), |i: int| sources[i]@)
}

/// Where the label starts in `source`: just behind the last separator, or at
/// the front where `source` holds none.
pub open spec fn label_start(source: Seq<char>) -> int
    decreases source.len(),
{
    if source.len() == 0 {
        0
    } else if source.last() == PATH_SEPARATOR {
        source.len() as int
    } else {
        label_start(source.drop_last())
    }
}

/// The label of an entry: what follows the last separator of its source, or
/// the whole source where it holds no separator.
pub open spec fn label_of(source: Seq<char>) -> Seq<char> {
    source.subrange(label_start(source), source.len() as int)
}

/// The highlight of row `i` in a list whose playing entry is `current` and
/// whose entry under the pointer, if any, is `hover`.
pub open spec fn highlight_for(i: int, current: int, hover: Option<int>) -> Highlight {
    if i == current {
        Highlight::Current
    } else if hover == Some(i) {
        if i + 1 == current || i == current + 1 {
            Highlight::HoveredAdjacent
        } else {
            Highlight::Hovered
        }
    } else {
        Highlight::Default
    }
}

/// `label_start` is the one position that has a separator just before it, or
/// is the front, and no separator from it on.
pub proof fn lemma_label_start(source: Seq<char>)
    ensures
        0 <= label_start(source) <= source.len(),
        label_start(source) == 0 || source[label_start(source) - 1] == PATH_SEPARATOR,
        forall|j: int| label_start(source) <= j < source.len() ==> source[j] != PATH_SEPARATOR,
    decreases source.len(),
{
    if source.len() > 0 && source.last() != PATH_SEPARATOR {
        let front = source.drop_last();
        lemma_label_start(front);
        assert forall|j: int| label_start(source) <= j < source.len() implies source[j]
            != PATH_SEPARATOR by {
            if j < front.len() {
                assert(front[j] == source[j]);
            }
        }
    }
}

/// A label holds no separator, and a source without separator is its own
/// label.
pub proof fn lemma_label_of(source: Seq<char>)
    ensures
        !label_of(source).contains(PATH_SEPARATOR),
        !source.contains(PATH_SEPARATOR) ==> label_of(source) == source,
{
    lemma_label_start(source);
}

/// The highlight that `highlight_for` describes.
pub fn highlight_of(i: usize, current: usize, hover: Option<usize>) -> (highlight: Highlight)
    ensures
        highlight == highlight_for(i as int, current as int, index_view(hover)),
{
    if i == current {
        Highlight::Current
    } else {
        match hover {
            Some(h) => {
                if h != i {
                    Highlight::Default
                } else if (i < current && current - i == 1) || (i > current && i - current == 1) {
                    Highlight::HoveredAdjacent
                } else {
                    Highlight::Hovered
                }
            },
            None => Highlight::Default,
        }
    }
}

/// The label of `source`, as `label_of` describes it.
pub fn label_from(source: &str) -> (label: String)
    ensures
        label@ == label_of(source@),
{
    let len = source.unicode_len();
    let mut start: usize = 0;
    let mut seen: usize = 0;
    for c in it: source.chars()
        invariant
            len == source@.len(),
            seen == it.index(),
            start == label_start(source@.take(seen as int)),
            it.seq() == source@,
    {
        seen = seen + 1;
        assert(source@.take(seen as int).drop_last() == source@.take(seen - 1));
        if c == PATH_SEPARATOR {
            start = seen;
        }
    }
    assert(source@.take(seen as int) == source@);
    proof {
        lemma_label_start(source@);
    }
    String::from_str(source.substring_char(start, seen))
}

impl Entry {
    /// An entry for `source`, not highlighted, at the origin.
    pub fn new(source: String) -> (entry: Entry)
        ensures
            entry@ == (EntryView {
                source: source@,
                label: label_of(source@),
                highlight: Highlight::Default,
                x: 0,
                y: 0,
            }),
    {
        let label = label_from(source.as_str());
        Entry { source, label, highlight: Highlight::Default, x: 0, y: 0 }
    }
}

} // verus!
