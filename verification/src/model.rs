//! The widget as a mathematical state machine: what a playlist holds, when
//! that state is well formed, and what each operation turns it into.

use crate::entry::{highlight_for, label_of, EntryView, Highlight};
use crate::frame::DrawCommand;
use crate::geometry::{
    content_overflows, row_at, row_offset, visible_rows, LABEL_INSET, MAX_ENTRIES, ROW_HEIGHT,
};
use vstd::prelude::*;

verus! {

/// The state of a playlist widget.
pub struct ListState {
    /// The entries, in list order.
    pub entries: Seq<EntryView>,
    /// Left edge of the viewport.
    pub left: int,
    /// Top edge of the viewport.
    pub top: int,
    /// Width of the border shape: one less than the width asked for.
    pub width: int,
    /// Height of the border shape: one less than the height asked for.
    pub height: int,
    /// How many rows the viewport shows.
    pub visible_count: nat,
    /// Index of the first row that is shown.
    pub scroll_offset: int,
    /// Index of the entry that is playing.
    pub current: int,
    /// Index of the entry under the pointer, unless that is the playing one.
    pub hover: Option<int>,
    /// Whether the pointer is over the widget.
    pub has_pointer: bool,
    /// Whether the widget has changed since it was last drawn.
    pub dirty: bool,
}

/// `entries` with each highlight set to what `current` and `hover` call for.
pub open spec fn highlighted(entries: Seq<EntryView>, current: int, hover: Option<int>) -> Seq<
    EntryView,
> {
    Seq::new(
        entries.len(),
        |i: int| EntryView { highlight: highlight_for(i, current, hover), ..entries[i] },
    )
}

/// `entries` with row `i` moved to `first_row + row_offset(i)`.
pub open spec fn stacked(entries: Seq<EntryView>, first_row: int) -> Seq<EntryView> {
    Seq::new(entries.len(), |i: int| EntryView { y: first_row + row_offset(i), ..entries[i] })
}

/// `entries` stacked from `top` down, with every label `LABEL_INSET` to the
/// right of `left`.
pub open spec fn laid_out(entries: Seq<EntryView>, left: int, top: int) -> Seq<EntryView> {
    Seq::new(
        entries.len(),
        |i: int| EntryView { x: left + LABEL_INSET, y: top + row_offset(i), ..entries[i] },
    )
}

/// One entry per source, labelled, not highlighted, at the origin.
pub open spec fn fresh_entries(sources: Seq<Seq<char>>) -> Seq<EntryView> {
    Seq::new(
        sources.len(),
        |i: int|
            EntryView {
                source: sources[i],
                label: label_of(sources[i]),
                highlight: Highlight::Default,
                x: 0,
                y: 0,
            },
    )
}

impl ListState {
    /// The number of entries.
    pub open spec fn len(self) -> nat {
        self.entries.len()
    }

    /// The height of the band in which rows are counted: the border shape
    /// without its bottom line.
    pub open spec fn inner_height(self) -> int {
        self.height - 1
    }

    /// Whether the list is at least as high as the viewport. Only then does
    /// the widget scroll.
    pub open spec fn overflows(self) -> bool {
        content_overflows(self.len(), self.inner_height())
    }

    /// The state is well formed: the list is not empty, the selection and the
    /// hover point at entries and never at the same one, the scroll offset is
    /// within its bounds and zero unless the list overflows the viewport, and
    /// every row carries the label, the highlight and the grid position that
    /// the rest of the state calls for.
    pub open spec fn wf(self) -> bool {
        &&& 1 <= self.len() <= MAX_ENTRIES
        &&& 0 <= self.left <= u32::MAX
        &&& 0 <= self.top <= u32::MAX
        &&& -1 <= self.width < u32::MAX
        &&& -1 <= self.height < u32::MAX
        &&& 0 <= self.current < self.len()
        &&& self.hover matches Some(h) ==> 0 <= h < self.len() && h != self.current
        &&& self.visible_count == visible_rows(self.len(), self.inner_height())
        &&& 0 <= self.scroll_offset
        &&& self.scroll_offset == 0 || (self.overflows() && self.scroll_offset
            + self.visible_count < self.len() + 2)
        &&& self.entries[0].y == self.top || self.entries[0].y == self.top - row_offset(
            self.scroll_offset,
        )
        &&& forall|i: int|
            0 <= i < self.len() ==> {
                let e = #[trigger] self.entries[i];
                &&& e.label == label_of(e.source)
                &&& e.highlight == highlight_for(i, self.current, self.hover)
                &&& e.x == self.left + LABEL_INSET
                &&& e.y == self.entries[0].y + row_offset(i)
            }
    }

    /// The state of a new widget that holds `entries`, of the given size, at
    /// `(left, top)`: the rows laid out from the top, the first entry
    /// selected, and the view scrolled as a selection of the first entry
    /// scrolls it.
    pub open spec fn arranged(
        entries: Seq<EntryView>,
        size_x: int,
        size_y: int,
        left: int,
        top: int,
    ) -> ListState {
        let placed = ListState {
            entries: laid_out(highlighted(entries, 0, None), left, top),
            left,
            top,
            width: size_x - 1,
            height: size_y - 1,
            visible_count: visible_rows(entries.len(), size_y - 2),
            scroll_offset: 0,
            current: 0,
            hover: None,
            has_pointer: false,
            dirty: true,
        };
        placed.follow(0)
    }

    /// The state of a new widget for `sources`: one fresh entry for each, in
    /// order, arranged as `arranged` says.
    pub open spec fn initial(
        sources: Seq<Seq<char>>,
        size_x: int,
        size_y: int,
        left: int,
        top: int,
    ) -> ListState {
        ListState::arranged(fresh_entries(sources), size_x, size_y, left, top)
    }

    /// The state after the widget moved to `(left, top)`: rows laid out from
    /// the new top, the visible count recomputed, a redraw owed.
    pub open spec fn set_position(self, left: int, top: int) -> ListState {
        ListState {
            entries: laid_out(self.entries, left, top),
            left,
            top,
            visible_count: visible_rows(self.len(), self.inner_height()),
            dirty: true,
            ..self
        }
    }

    /// Whether a request to scroll to `delta` is carried out: it asks for
    /// another offset than the present one, the offset is not negative, the
    /// window ends less than two rows behind the list, and the list
    /// overflows the viewport.
    pub open spec fn accepts_scroll(self, delta: int) -> bool {
        &&& delta != self.scroll_offset
        &&& delta * ROW_HEIGHT >= 0
        &&& delta * ROW_HEIGHT + self.visible_count * ROW_HEIGHT < (self.len() + 2) * ROW_HEIGHT
        &&& self.overflows()
    }

    /// The state after a request to scroll to `delta`: unchanged unless the
    /// request is accepted, else scrolled to `delta`, the rows stacked from
    /// `delta` rows above the top, a redraw owed.
    pub open spec fn set_to_add(self, delta: int) -> ListState {
        if self.accepts_scroll(delta) {
            ListState {
                entries: stacked(self.entries, self.top - row_offset(delta)),
                scroll_offset: delta,
                dirty: true,
                ..self
            }
        } else {
            self
        }
    }

    /// The state after the view followed a selection of `index`: where the
    /// list overflows, scrolled forward if `index` is within two rows of the
    /// window's end or behind it, scrolled back to `index` if it is before the
    /// window.
    pub open spec fn follow(self, index: int) -> ListState {
        if !self.overflows() {
            self
        } else if index + 2 >= self.scroll_offset + self.visible_count {
            self.set_to_add(index + 2 - self.visible_count)
        } else if index < self.scroll_offset {
            self.set_to_add(index)
        } else {
            self
        }
    }

    /// The state after `index` was selected: unchanged if it was selected
    /// already. Else `index` is the playing entry, a hover on it is gone, a
    /// redraw is owed, and unless the selection came from a click the view
    /// follows it.
    pub open spec fn select(self, index: int, by_click: bool) -> ListState {
        if index == self.current {
            self
        } else {
            let hover = if self.hover == Some(index) {
                None
            } else {
                self.hover
            };
            let picked = ListState {
                entries: highlighted(self.entries, index, hover),
                current: index,
                hover,
                dirty: true,
                ..self
            };
            if by_click {
                picked
            } else {
                picked.follow(index)
            }
        }
    }

    /// The state after a selection made by the program.
    pub open spec fn set_current(self, index: int) -> ListState {
        self.select(index, false)
    }

    /// The state with the hover taken away.
    pub open spec fn without_hover(self) -> ListState {
        ListState {
            entries: highlighted(self.entries, self.current, None),
            hover: None,
            ..self
        }
    }

    /// The entry that a click at height `pointer_y` selects, if any: none
    /// above the top edge, none below the last entry.
    pub open spec fn click_target(self, pointer_y: int) -> Option<int> {
        let row = row_at(pointer_y, self.top, self.scroll_offset);
        if pointer_y >= self.top && row < self.len() {
            Some(row)
        } else {
            None
        }
    }

    /// The state after a click at height `pointer_y`: unchanged where the
    /// click selects nothing; else the hover is gone, the entry is selected
    /// without scrolling, and a redraw is owed.
    pub open spec fn clicked(self, pointer_y: int) -> ListState {
        match self.click_target(pointer_y) {
            Some(row) => ListState { dirty: true, ..self.without_hover().select(row, true) },
            None => self,
        }
    }

    /// The entry that a pointer at height `pointer_y` hovers over: the row
    /// under it, unless that is no entry or the playing one.
    pub open spec fn hover_target(self, pointer_y: int) -> Option<int> {
        let row = row_at(pointer_y, self.top, self.scroll_offset);
        if 0 <= row < self.len() && row != self.current {
            Some(row)
        } else {
            None
        }
    }

    /// The state after the pointer moved to height `pointer_y`: the pointer
    /// is over the widget, the hover is on its target, a redraw is owed.
    pub open spec fn cursor_moved(self, pointer_y: int) -> ListState {
        let hover = self.hover_target(pointer_y);
        ListState {
            entries: highlighted(self.entries, self.current, hover),
            hover,
            has_pointer: true,
            dirty: true,
            ..self
        }
    }

    /// The state after the pointer left: unchanged if it was not over the
    /// widget, else without hover and pointer, a redraw owed.
    pub open spec fn mouse_leave(self) -> ListState {
        if self.has_pointer {
            ListState { has_pointer: false, dirty: true, ..self.without_hover() }
        } else {
            self
        }
    }

    /// The playing entry after the entry at `pos` was removed: the same entry
    /// as before if it is still there, else the one that took its place, or
    /// the new last entry where the last one was removed.
    pub open spec fn current_after_removal(self, pos: int) -> int {
        if pos < self.current || (pos == self.current && self.current == self.len() - 1) {
            self.current - 1
        } else {
            self.current
        }
    }

    /// The hover after the entry at `pos` was removed: on the same entry as
    /// before, unless that entry was removed or has become the playing one.
    pub open spec fn hover_after_removal(self, pos: int) -> Option<int> {
        match self.hover {
            Some(h) => {
                let moved = if h > pos {
                    h - 1
                } else {
                    h
                };
                if h == pos || moved == self.current_after_removal(pos) {
                    None
                } else {
                    Some(moved)
                }
            },
            None => None,
        }
    }

    /// The scroll offset after an entry was removed: zero where the list no
    /// longer overflows the viewport, else as before where that is still
    /// within bounds, else the largest offset that is.
    pub open spec fn scroll_after_removal(self) -> int {
        let count = (self.len() - 1) as nat;
        let visible = visible_rows(count, self.inner_height());
        if self.scroll_offset == 0 || !content_overflows(count, self.inner_height()) {
            0
        } else if self.scroll_offset + visible < count + 2 {
            self.scroll_offset
        } else {
            count + 1 - visible
        }
    }

    /// The state after the entry at `pos` was removed from a list of two or
    /// more: the other entries in their order, laid out from the top, the
    /// visible count recomputed, selection, hover and scroll offset carried
    /// over, a redraw owed.
    pub open spec fn remove_music(self, pos: int) -> ListState {
        let current = self.current_after_removal(pos);
        let hover = self.hover_after_removal(pos);
        ListState {
            entries: laid_out(
                highlighted(self.entries.remove(pos), current, hover),
                self.left,
                self.top,
            ),
            visible_count: visible_rows((self.len() - 1) as nat, self.inner_height()),
            scroll_offset: self.scroll_after_removal(),
            current,
            hover,
            dirty: true,
            ..self
        }
    }

    /// Whether the point `(x, y)` lies on the border shape, edges included.
    pub open spec fn is_inside(self, x: int, y: int) -> bool {
        &&& self.top <= y <= self.top + self.height
        &&& self.left <= x <= self.left + self.width
    }

    /// One past the last row that is drawn.
    pub open spec fn window_end(self) -> int {
        if self.scroll_offset + self.visible_count < self.len() {
            self.scroll_offset + self.visible_count
        } else {
            self.len() as int
        }
    }

    /// The number of rows that are drawn.
    pub open spec fn drawn_rows(self) -> nat {
        if self.scroll_offset < self.window_end() {
            (self.window_end() - self.scroll_offset) as nat
        } else {
            0
        }
    }

    /// What a drawing of the widget paints: the border shape, then the rows
    /// of the window from its first to its last.
    pub open spec fn frame(self) -> Seq<DrawCommand> {
        seq![
            DrawCommand::Border {
                left: self.left as u32,
                top: self.top as u32,
                width: self.width as i64,
                height: self.height as i64,
            },
        ] + Seq::new(
            self.drawn_rows(),
            |k: int|
                {
                    let e = self.entries[self.scroll_offset + k];
                    DrawCommand::Row {
                        index: (self.scroll_offset + k) as usize,
                        x: e.x as i64,
                        y: e.y as i64,
                        highlight: e.highlight,
                    }
                },
        )
    }

    /// What `draw` paints: the frame if a redraw is owed, else nothing.
    pub open spec fn painted(self) -> Seq<DrawCommand> {
        if self.dirty {
            self.frame()
        } else {
            Seq::empty()
        }
    }

    /// The state after a drawing: no redraw is owed.
    pub open spec fn draw(self) -> ListState {
        ListState { dirty: false, ..self }
    }
}

} // verus!
