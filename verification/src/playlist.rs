//! The playlist widget: a list of entries behind a viewport, with a playing
//! entry, a hovered entry and a scroll offset.

use crate::entry::{
    highlight_for, highlight_of, index_view, label_of, sources_of, views, Entry, EntryView,
    Highlight,
};
use crate::frame::DrawCommand;
use crate::geometry::{
    lemma_rows_fitting_step, lemma_visible_rows_bound, row_offset, row_under, rows_fitting,
    rows_height, Vector2u, LABEL_INSET, MAX_ENTRIES, ROW_HEIGHT,
};
use crate::model::{fresh_entries, highlighted, laid_out, stacked, ListState};
use vstd::prelude::*;

verus! {

/// Why a playlist cannot be built or changed.
#[derive(Clone, Copy, Debug, PartialEq, Eq, Structural)]
pub enum PlayListError {
    /// The list would hold no entry.
    Empty,
}

/// A scrollable list of entries of which one is playing.
pub struct GraphicPlayList {
    entries: Vec<Entry>,
    position: Vector2u,
    width: i64,
    height: i64,
    visible_count: usize,
    scroll_offset: i64,
    current: usize,
    hover: Option<usize>,
    has_pointer: bool,
    dirty: bool,
}

impl View for GraphicPlayList {
    type V = ListState;

    closed spec fn view(&self) -> ListState {
        ListState {
            entries: views(self.entries@),
            left: self.position.x as int,
            top: self.position.y as int,
            width: self.width as int,
            height: self.height as int,
            visible_count: self.visible_count as nat,
            scroll_offset: self.scroll_offset as int,
            current: self.current as int,
            hover: index_view(self.hover),
            has_pointer: self.has_pointer,
            dirty: self.dirty,
        }
    }
}

/// Lays the rows out from `position` down and counts those that start above
/// the bottom of a band `inner_height` high.
fn lay_out(entries: &mut Vec<Entry>, position: &Vector2u, inner_height: i64) -> (fitting: usize)
    requires
        old(entries)@.len() <= MAX_ENTRIES,
        -2 <= inner_height <= u32::MAX,
    ensures
        views(final(entries)@) == laid_out(
            views(old(entries)@),
            position.x as int,
            position.y as int,
        ),
        fitting == rows_fitting(old(entries)@.len(), inner_height as int),
{
    let count = entries.len();
    let x: i64 = position.x as i64 + LABEL_INSET as i64;
    let mut y: i64 = position.y as i64;
    let mut offset: i64 = 0;
    let mut fitting: usize = 0;
    let mut i: usize = 0;
    while i < count
        invariant
            i <= count,
            count == entries@.len(),
            count == old(entries)@.len(),
            count <= MAX_ENTRIES,
            x == position.x + LABEL_INSET,
            offset == row_offset(i as int),
            y == position.y + offset,
            fitting == rows_fitting(i as nat, inner_height as int),
            fitting <= i,
            forall|j: int|
                0 <= j < i ==> (#[trigger] entries@[j])@ == (EntryView {
                    x: position.x + LABEL_INSET,
                    y: position.y + row_offset(j),
                    ..old(entries)@[j]@
                }),
            forall|j: int| i <= j < count ==> entries@[j] == old(entries)@[j],
        decreases count - i,
    {
        entries[i].x = x;
        entries[i].y = y;
        proof {
            lemma_rows_fitting_step(i as nat, inner_height as int);
        }
        if offset < inner_height {
            fitting = fitting + 1;
        }
        offset = offset + ROW_HEIGHT as i64;
        y = y + ROW_HEIGHT as i64;
        i = i + 1;
    }
    fitting
}

/// The count that `visible_rows` describes, from the number of rows that
/// start above the bottom edge.
fn clip_last_row(fitting: usize, height: i64) -> (visible: usize)
    requires
        fitting <= MAX_ENTRIES,
        -2 <= height <= u32::MAX,
    ensures
        visible == if fitting > 0 && fitting * ROW_HEIGHT > height + 2 {
            fitting - 1
        } else {
            fitting as int
        },
{
    if fitting > 0 && rows_height(fitting as i64) > height + 2 {
        fitting - 1
    } else {
        fitting
    }
}

/// Stacks the rows from `first_row` down.
fn stack(entries: &mut Vec<Entry>, first_row: i64)
    requires
        old(entries)@.len() <= MAX_ENTRIES,
        -(ROW_HEIGHT as int) * (MAX_ENTRIES + 2) <= first_row <= u32::MAX,
    ensures
        views(final(entries)@) == stacked(views(old(entries)@), first_row as int),
{
    let count = entries.len();
    let mut y: i64 = first_row;
    let mut i: usize = 0;
    while i < count
        invariant
            i <= count,
            count == entries@.len(),
            count == old(entries)@.len(),
            count <= MAX_ENTRIES,
            -(ROW_HEIGHT as int) * (MAX_ENTRIES + 2) <= first_row <= u32::MAX,
            y == first_row + row_offset(i as int),
            forall|j: int|
                0 <= j < i ==> (#[trigger] entries@[j])@ == (EntryView {
                    y: first_row + row_offset(j),
                    ..old(entries)@[j]@
                }),
            forall|j: int| i <= j < count ==> entries@[j] == old(entries)@[j],
        decreases count - i,
    {
        entries[i].y = y;
        y = y + ROW_HEIGHT as i64;
        i = i + 1;
    }
}

/// Gives every row the highlight that `current` and `hover` call for.
fn highlight_all(entries: &mut Vec<Entry>, current: usize, hover: Option<usize>)
    ensures
        views(final(entries)@) == highlighted(
            views(old(entries)@),
            current as int,
            index_view(hover),
        ),
{
    let count = entries.len();
    let mut i: usize = 0;
    while i < count
        invariant
            i <= count,
            count == entries@.len(),
            count == old(entries)@.len(),
            forall|j: int|
                0 <= j < i ==> (#[trigger] entries@[j])@ == (EntryView {
                    highlight: highlight_for(j, current as int, index_view(hover)),
                    ..old(entries)@[j]@
                }),
            forall|j: int| i <= j < count ==> entries@[j] == old(entries)@[j],
        decreases count - i,
    {
        entries[i].highlight = highlight_of(i, current, hover);
        i = i + 1;
    }
}

/// One entry per source, in order.
fn make_entries(musics: Vec<String>) -> (entries: Vec<Entry>)
    ensures
        views(entries@) == fresh_entries(sources_of(musics@)),
{
    let mut entries: Vec<Entry> = Vec::new();
    for source in it: musics
        invariant
            entries@.len() == it.index(),
            it.seq() == musics@,
            forall|j: int|
                0 <= j < entries@.len() ==> (#[trigger] entries@[j])@ == fresh_entries(
                    sources_of(musics@),
                )[j],
    {
        entries.push(Entry::new(source));
    }
    entries
}

impl GraphicPlayList {
    /// A playlist for `musics`, of the given size, at `position`. The first
    /// entry is the playing one. Fails on an empty list.
    pub fn new_init(musics: Vec<String>, size: &Vector2u, position: &Vector2u) -> (result: Result<
        GraphicPlayList,
        PlayListError,
    >)
        requires
            musics@.len() <= MAX_ENTRIES,
        ensures
            match result {
                Ok(list) => {
                    &&& musics@.len() > 0
                    &&& list@.wf()
                    &&& list@ == ListState::initial(
                        sources_of(musics@),
                        size.x as int,
                        size.y as int,
                        position.x as int,
                        position.y as int,
                    )
                },
                Err(e) => e == PlayListError::Empty && musics@.len() == 0,
            },
    {
        if musics.len() == 0 {
            return Err(PlayListError::Empty);
        }
        let entries = make_entries(musics);
        assert forall|i: int| 0 <= i < entries@.len() implies {
            let e = (#[trigger] entries@[i])@;
            e.label == label_of(e.source) && e.highlight == Highlight::Default
        } by {
            assert(entries@[i]@ == views(entries@)[i]);
        }
        Ok(GraphicPlayList::init(entries, size, position))
    }

    /// Arranges `entries` in a widget of the given size at `position` and
    /// selects the first of them.
    fn init(entries: Vec<Entry>, size: &Vector2u, position: &Vector2u) -> (list: GraphicPlayList)
        requires
            1 <= entries@.len() <= MAX_ENTRIES,
            forall|i: int|
                0 <= i < entries@.len() ==> {
                    let e = (#[trigger] entries@[i])@;
                    e.label == label_of(e.source) && e.highlight == Highlight::Default
                },
        ensures
            list@.wf(),
            list@ == ListState::arranged(
                views(entries@),
                size.x as int,
                size.y as int,
                position.x as int,
                position.y as int,
            ),
    {
        let ghost given = views(entries@);
        let mut entries = entries;
        entries[0].highlight = Highlight::Current;
        assert(views(entries@) =~= highlighted(given, 0, None));
        let height: i64 = size.y as i64 - 1;
        let fitting = lay_out(&mut entries, position, height - 1);
        let visible_count = clip_last_row(fitting, height - 1);
        let mut list = GraphicPlayList {
            entries,
            position: *position,
            width: size.x as i64 - 1,
            height,
            visible_count,
            scroll_offset: 0,
            current: 0,
            hover: None,
            has_pointer: false,
            dirty: true,
        };
        proof {
            lemma_visible_rows_bound(given.len(), height - 1);
        }
        list.follow(0);
        list
    }

    /// Moves the widget to `position`: lays the rows out from there and
    /// recomputes how many of them the viewport shows.
    pub fn set_position(&mut self, position: &Vector2u)
        requires
            old(self)@.wf(),
        ensures
            final(self)@.wf(),
            final(self)@ == old(self)@.set_position(position.x as int, position.y as int),
    {
        let fitting = lay_out(&mut self.entries, position, self.height - 1);
        self.visible_count = clip_last_row(fitting, self.height - 1);
        self.position = *position;
        self.dirty = true;
        proof {
            crate::laws::law_set_position(old(self)@, position.x as int, position.y as int);
        }
    }

    /// Scrolls the view so that the row at `to_add` is the first one shown.
    /// Does nothing if that is the first row already, if `to_add` is
    /// negative, if the window would end two rows or more behind the list, or
    /// if the list does not fill the viewport.
    pub fn set_to_add(&mut self, to_add: i64)
        requires
            old(self)@.wf(),
        ensures
            final(self)@.wf(),
            final(self)@ == old(self)@.set_to_add(to_add as int),
            old(self)@.accepts_scroll(to_add as int) ==> {
                &&& final(self)@.scroll_offset == to_add
                &&& 0 <= to_add <= final(self)@.len() + 1
                &&& final(self)@.visible_count >= 1 ==> to_add <= final(self)@.len()
            },
    {
        proof {
            lemma_visible_rows_bound(self@.len(), self@.inner_height());
            crate::laws::law_set_to_add(self@, to_add as int);
        }
        let count: i64 = self.entries.len() as i64;
        let visible: i64 = self.visible_count as i64;
        if to_add != self.scroll_offset && to_add >= 0 && to_add < count + 2 - visible
            && rows_height(count) >= self.height - 1 {
            let first_row: i64 = self.position.y as i64 - rows_height(to_add);
            stack(&mut self.entries, first_row);
            self.scroll_offset = to_add;
            self.dirty = true;
        }
    }

    /// Hands back what has to be painted and settles the redraw: the border
    /// and the rows of the window if the widget has changed since it was last
    /// drawn, nothing otherwise.
    pub fn draw(&mut self) -> (frame: Vec<DrawCommand>)
        requires
            old(self)@.wf(),
        ensures
            final(self)@.wf(),
            final(self)@ == old(self)@.draw(),
            frame@ == old(self)@.painted(),
    {
        let mut frame: Vec<DrawCommand> = Vec::new();
        if self.dirty {
            proof {
                lemma_visible_rows_bound(self@.len(), self@.inner_height());
            }
            frame.push(
                DrawCommand::Border {
                    left: self.position.x,
                    top: self.position.y,
                    width: self.width,
                    height: self.height,
                },
            );
            let count: usize = self.entries.len();
            let window: i64 = self.scroll_offset + self.visible_count as i64;
            let end: usize = if window < count as i64 {
                window as usize
            } else {
                count
            };
            let mut i: usize = if self.scroll_offset < end as i64 {
                self.scroll_offset as usize
            } else {
                end
            };
            let ghost start = i;
            while i < end
                invariant
                    start <= i <= end <= count,
                    count == self.entries@.len(),
                    end == self@.window_end(),
                    self@ == old(self)@,
                    self@.wf(),
                    start == end || start == self@.scroll_offset,
                    frame@.len() == 1 + (i - start),
                    frame@.len() <= 1 + self@.drawn_rows(),
                    forall|k: int| 0 <= k < frame@.len() ==> frame@[k] == self@.frame()[k],
                decreases end - i,
            {
                let entry = &self.entries[i];
                frame.push(
                    DrawCommand::Row {
                        index: i,
                        x: entry.x,
                        y: entry.y,
                        highlight: entry.highlight,
                    },
                );
                i = i + 1;
            }
            self.dirty = false;
        }
        frame
    }

    /// Makes the entry at `current` the playing one and scrolls the view so
    /// that it can be seen. Does nothing if that entry is playing already.
    pub fn set_current(&mut self, current: usize)
        requires
            old(self)@.wf(),
            current < old(self)@.len(),
        ensures
            final(self)@.wf(),
            final(self)@ == old(self)@.set_current(current as int),
            final(self)@.current == current,
            forall|i: int|
                0 <= i < final(self)@.len() ==> ((#[trigger] final(self)@.entries[i]).highlight
                    == Highlight::Current <==> i == current),
            current == old(self)@.current ==> final(self)@ == old(self)@,
    {
        self.set_current_intern(current, false)
    }

    /// Makes the entry at `current` the playing one. The view follows the
    /// selection unless it was made by a click: a row that was clicked is in
    /// view already.
    fn set_current_intern(&mut self, current: usize, by_click: bool)
        requires
            old(self)@.wf(),
            current < old(self)@.len(),
        ensures
            final(self)@.wf(),
            final(self)@ == old(self)@.select(current as int, by_click),
            final(self)@.current == current,
    {
        proof {
            crate::laws::law_select(self@, current as int, by_click);
        }
        if current != self.current {
            let previous = self.current;
            let hover = match self.hover {
                Some(h) => if h == current {
                    None
                } else {
                    Some(h)
                },
                None => None,
            };
            self.entries[current].highlight = Highlight::Current;
            self.entries[previous].highlight = Highlight::Default;
            match hover {
                Some(h) => {
                    self.entries[h].highlight = highlight_of(h, current, hover);
                },
                None => {},
            }
            self.current = current;
            self.hover = hover;
            self.dirty = true;
            assert(self@.entries =~= highlighted(
                old(self)@.entries,
                current as int,
                index_view(hover),
            ));
            if !by_click {
                self.follow(current);
            }
        }
    }

    /// Scrolls the view after a selection of `index`, where the list fills
    /// the viewport: forward if `index` is within two rows of the window's
    /// end or behind it, back to `index` if it is before the window.
    fn follow(&mut self, index: usize)
        requires
            old(self)@.wf(),
            index < old(self)@.len(),
        ensures
            final(self)@.wf(),
            final(self)@ == old(self)@.follow(index as int),
    {
        proof {
            lemma_visible_rows_bound(self@.len(), self@.inner_height());
        }
        let count: i64 = self.entries.len() as i64;
        if rows_height(count) >= self.height - 1 {
            let index: i64 = index as i64;
            let visible: i64 = self.visible_count as i64;
            if index + 2 >= self.scroll_offset + visible {
                self.set_to_add(index + 2 - visible);
            } else if index < self.scroll_offset {
                self.set_to_add(index);
            }
        }
    }

    /// The index of the playing entry.
    pub fn get_current(&self) -> (current: usize)
        ensures
            current == self@.current,
    {
        self.current
    }

    /// The index of the first row that is shown.
    pub fn get_add_to_view(&self) -> (offset: i64)
        ensures
            offset == self@.scroll_offset,
    {
        self.scroll_offset
    }

    /// Removes the entry at `pos` and lays the rest out afresh. The playing
    /// entry stays the same entry where it is still in the list; where it is
    /// the one removed, the entry that takes its place is playing, or the new
    /// last entry. The hover stays on its entry unless that entry is removed
    /// or becomes the playing one. The scroll offset is pulled back into its
    /// bounds, and to zero where the list no longer overflows the viewport.
    /// Refuses to remove the only entry, and changes nothing then.
    pub fn remove_music(&mut self, pos: usize) -> (result: Result<(), PlayListError>)
        requires
            old(self)@.wf(),
            pos < old(self)@.len(),
        ensures
            final(self)@.wf(),
            match result {
                Ok(_) => {
                    &&& old(self)@.len() >= 2
                    &&& final(self)@ == old(self)@.remove_music(pos as int)
                    &&& final(self)@.len() == old(self)@.len() - 1
                },
                Err(e) => {
                    &&& e == PlayListError::Empty
                    &&& old(self)@.len() == 1
                    &&& final(self)@ == old(self)@
                },
            },
    {
        let count = self.entries.len();
        if count == 1 {
            return Err(PlayListError::Empty);
        }
        proof {
            crate::laws::law_remove_music(self@, pos as int);
            lemma_visible_rows_bound((count - 1) as nat, self@.inner_height());
        }
        let current = if pos < self.current || (pos == self.current && self.current == count - 1) {
            self.current - 1
        } else {
            self.current
        };
        let hover = match self.hover {
            Some(h) => {
                let moved = if h > pos {
                    h - 1
                } else {
                    h
                };
                if h == pos || moved == current {
                    None
                } else {
                    Some(moved)
                }
            },
            None => None,
        };
        self.entries.remove(pos);
        assert(views(self.entries@) =~= old(self)@.entries.remove(pos as int));
        highlight_all(&mut self.entries, current, hover);
        let position = self.position;
        let fitting = lay_out(&mut self.entries, &position, self.height - 1);
        let visible = clip_last_row(fitting, self.height - 1);
        if self.scroll_offset != 0 {
            let rest: i64 = (count - 1) as i64;
            if rows_height(rest) < self.height - 1 {
                self.scroll_offset = 0;
            } else if self.scroll_offset + visible as i64 >= rest + 2 {
                self.scroll_offset = rest + 1 - visible as i64;
            }
        }
        self.visible_count = visible;
        self.current = current;
        self.hover = hover;
        self.dirty = true;
        Ok(())
    }

    /// Whether `pos` lies on the border shape, edges included.
    pub fn is_inside(&self, pos: &Vector2u) -> (inside: bool)
        requires
            self@.wf(),
        ensures
            inside == self@.is_inside(pos.x as int, pos.y as int),
    {
        let x: i64 = pos.x as i64;
        let y: i64 = pos.y as i64;
        let left: i64 = self.position.x as i64;
        let top: i64 = self.position.y as i64;
        y >= top && y <= top + self.height && x >= left && x <= left + self.width
    }

    /// Tells the widget that the pointer has left it: the hover goes.
    pub fn mouse_leave(&mut self)
        requires
            old(self)@.wf(),
        ensures
            final(self)@.wf(),
            final(self)@ == old(self)@.mouse_leave(),
            !final(self)@.has_pointer,
            old(self)@.has_pointer ==> final(self)@.hover.is_none(),
            old(self)@.has_pointer ==> forall|i: int|
                0 <= i < final(self)@.len() && i != final(self)@.current ==> (
                #[trigger] final(self)@.entries[i]).highlight == Highlight::Default,
            !old(self)@.has_pointer ==> final(self)@ == old(self)@,
    {
        proof {
            crate::laws::law_mouse_leave(self@);
        }
        if self.has_pointer {
            self.clear_hover();
            self.has_pointer = false;
            self.dirty = true;
        }
    }

    /// Takes the hover away, and with it the highlight of the hovered row.
    fn clear_hover(&mut self)
        requires
            old(self)@.wf(),
        ensures
            final(self)@ == old(self)@.without_hover(),
            final(self)@.wf(),
    {
        match self.hover {
            Some(s) => {
                self.entries[s].highlight = Highlight::Default;
                self.hover = None;
            },
            None => {},
        }
        assert(self@.entries =~= highlighted(old(self)@.entries, self@.current, None));
    }

    /// Handles a click at `position`. A click on an entry makes it the
    /// playing one and takes the hover away; the view is not scrolled. Says
    /// whether an entry was hit: none is above the top edge or below the last
    /// entry, and such a click changes nothing.
    pub fn clicked(&mut self, position: &Vector2u) -> (hit: bool)
        requires
            old(self)@.wf(),
        ensures
            final(self)@.wf(),
            final(self)@ == old(self)@.clicked(position.y as int),
            hit == old(self)@.click_target(position.y as int).is_some(),
            !hit <==> position.y < old(self)@.top || crate::geometry::row_at(
                position.y as int,
                old(self)@.top,
                old(self)@.scroll_offset,
            ) >= old(self)@.len(),
            hit ==> final(self)@.current == crate::geometry::row_at(
                position.y as int,
                old(self)@.top,
                old(self)@.scroll_offset,
            ),
            !hit ==> final(self)@ == old(self)@,
            final(self)@.scroll_offset == old(self)@.scroll_offset,
    {
        proof {
            crate::laws::law_clicked(self@, position.y as int);
            crate::laws::law_scroll_bounds(self@);
        }
        if position.y >= self.position.y {
            let row = row_under(position.y, self.position.y, self.scroll_offset);
            if row < self.entries.len() as i64 {
                self.clear_hover();
                self.set_current_intern(row as usize, true);
                self.dirty = true;
                true
            } else {
                false
            }
        } else {
            false
        }
    }

    /// Handles a move of the pointer to `position`: the row under it is
    /// hovered, unless it is the playing one or no entry at all.
    pub fn cursor_moved(&mut self, position: &Vector2u)
        requires
            old(self)@.wf(),
        ensures
            final(self)@.wf(),
            final(self)@ == old(self)@.cursor_moved(position.y as int),
            final(self)@.hover != Some(final(self)@.current),
    {
        proof {
            crate::laws::law_cursor_moved(self@, position.y as int);
            crate::laws::law_scroll_bounds(self@);
        }
        let row = row_under(position.y, self.position.y, self.scroll_offset);
        self.dirty = true;
        self.has_pointer = true;
        if row < 0 || row >= self.entries.len() as i64 {
            self.clear_hover();
            return ;
        }
        let target = row as usize;
        match self.hover {
            Some(s) => {
                if self.current == target {
                    self.entries[s].highlight = Highlight::Default;
                    self.hover = None;
                } else if s != target {
                    self.entries[s].highlight = Highlight::Default;
                    self.hover = Some(target);
                    self.entries[target].highlight = highlight_of(
                        target,
                        self.current,
                        Some(target),
                    );
                }
            },
            None => {
                if self.current != target {
                    self.hover = Some(target);
                    self.entries[target].highlight = highlight_of(
                        target,
                        self.current,
                        Some(target),
                    );
                }
            },
        }
        assert(self@.entries =~= highlighted(
            old(self)@.entries,
            self@.current,
            old(self)@.hover_target(position.y as int),
        ));
    }

    /// The number of entries.
    pub fn len(&self) -> (count: usize)
        ensures
            count == self@.len(),
    {
        self.entries.len()
    }

    /// The entry at `index`.
    pub fn entry(&self, index: usize) -> (entry: &Entry)
        requires
            index < self@.len(),
        ensures
            entry@ == self@.entries[index as int],
    {
        &self.entries[index]
    }

    /// How many rows the viewport shows.
    pub fn get_visible_count(&self) -> (count: usize)
        ensures
            count == self@.visible_count,
    {
        self.visible_count
    }

    /// The index of the entry under the pointer, if there is one and it is
    /// not the playing one.
    pub fn get_hover(&self) -> (hover: Option<usize>)
        ensures
            index_view(hover) == self@.hover,
    {
        self.hover
    }

    /// Where the widget is.
    pub fn get_position(&self) -> (position: Vector2u)
        ensures
            position.x == self@.left,
            position.y == self@.top,
    {
        self.position
    }

    /// Whether the pointer is over the widget.
    pub fn has_mouse(&self) -> (inside: bool)
        ensures
            inside == self@.has_pointer,
    {
        self.has_pointer
    }

    /// Whether the widget has changed since it was last drawn.
    pub fn need_to_draw(&self) -> (dirty: bool)
        ensures
            dirty == self@.dirty,
    {
        self.dirty
    }
}

} // verus!
