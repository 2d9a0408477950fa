//! What holds of the widget whatever is done to it: every operation keeps the
//! state well formed, and the selection, the hover and the scroll offset obey
//! the rules stated here.

use crate::entry::Highlight;
use crate::geometry::{lemma_visible_rows_bound, row_at, MAX_ENTRIES};
use crate::model::ListState;
use vstd::prelude::*;

verus! {

/// In a well-formed state exactly one entry is highlighted as playing: the
/// current one.
pub proof fn law_one_current(s: ListState)
    requires
        s.wf(),
    ensures
        s.entries[s.current].highlight == Highlight::Current,
        forall|i: int|
            0 <= i < s.len() && i != s.current ==> (#[trigger] s.entries[i]).highlight
                != Highlight::Current,
{
}

/// In a well-formed state the entry under the pointer is highlighted as
/// hovered, and no other entry is.
pub proof fn law_one_hover(s: ListState)
    requires
        s.wf(),
    ensures
        forall|i: int|
            0 <= i < s.len() ==> (s.hover == Some(i) <==> {
                let h = (#[trigger] s.entries[i]).highlight;
                h == Highlight::Hovered || h == Highlight::HoveredAdjacent
            }),
{
}

/// In a well-formed state the scroll offset is at most one more than the
/// number of entries, at most that number where the viewport shows a row, and
/// zero where the list does not overflow the viewport.
pub proof fn law_scroll_bounds(s: ListState)
    requires
        s.wf(),
    ensures
        0 <= s.scroll_offset <= s.len() + 1,
        s.visible_count >= 1 ==> s.scroll_offset <= s.len(),
        !s.overflows() ==> s.scroll_offset == 0,
        s.visible_count <= s.len(),
{
    lemma_visible_rows_bound(s.len(), s.inner_height());
}

/// A new widget is well formed, shows every source in order and has its first
/// entry selected.
pub proof fn law_initial(sources: Seq<Seq<char>>, size_x: int, size_y: int, left: int, top: int)
    requires
        1 <= sources.len() <= MAX_ENTRIES,
        0 <= size_x <= u32::MAX,
        0 <= size_y <= u32::MAX,
        0 <= left <= u32::MAX,
        0 <= top <= u32::MAX,
    ensures
        ListState::initial(sources, size_x, size_y, left, top).wf(),
        ListState::initial(sources, size_x, size_y, left, top).len() == sources.len(),
        ListState::initial(sources, size_x, size_y, left, top).current == 0,
        ListState::initial(sources, size_x, size_y, left, top).hover.is_none(),
        forall|i: int|
            0 <= i < sources.len() ==> (#[trigger] ListState::initial(
                sources,
                size_x,
                size_y,
                left,
                top,
            ).entries[i]).source == sources[i],
{
    lemma_visible_rows_bound(sources.len(), size_y - 2);
}

/// Moving the widget keeps the state well formed and leaves selection, hover
/// and scroll offset alone.
pub proof fn law_set_position(s: ListState, left: int, top: int)
    requires
        s.wf(),
        0 <= left <= u32::MAX,
        0 <= top <= u32::MAX,
    ensures
        s.set_position(left, top).wf(),
        s.set_position(left, top).current == s.current,
        s.set_position(left, top).hover == s.hover,
        s.set_position(left, top).scroll_offset == s.scroll_offset,
        s.set_position(left, top).visible_count == s.visible_count,
{
}

/// Scrolling keeps the state well formed. A request that is accepted makes
/// its argument the scroll offset; the offset is then at most one more than
/// the number of entries, and at most that number where the viewport shows a
/// row.
pub proof fn law_set_to_add(s: ListState, delta: int)
    requires
        s.wf(),
    ensures
        s.set_to_add(delta).wf(),
        s.accepts_scroll(delta) ==> {
            &&& s.set_to_add(delta).scroll_offset == delta
            &&& 0 <= delta <= s.len() + 1
            &&& s.visible_count >= 1 ==> delta <= s.len()
        },
        !s.accepts_scroll(delta) ==> s.set_to_add(delta) == s,
{
}

/// Following a selection keeps the state well formed and changes nothing but
/// the scroll offset, the rows' positions and the redraw flag.
pub proof fn law_follow(s: ListState, index: int)
    requires
        s.wf(),
    ensures
        s.follow(index).wf(),
        s.follow(index).current == s.current,
        s.follow(index).hover == s.hover,
{
    law_set_to_add(s, index + 2 - s.visible_count);
    law_set_to_add(s, index);
}

/// Selecting an entry keeps the state well formed and makes that entry the
/// playing one. A selection by click leaves the scroll offset alone.
pub proof fn law_select(s: ListState, index: int, by_click: bool)
    requires
        s.wf(),
        0 <= index < s.len(),
    ensures
        s.select(index, by_click).wf(),
        s.select(index, by_click).current == index,
        s.select(index, by_click).len() == s.len(),
        by_click ==> s.select(index, by_click).scroll_offset == s.scroll_offset,
{
    if index != s.current {
        let hover = if s.hover == Some(index) {
            None
        } else {
            s.hover
        };
        let picked = ListState {
            entries: crate::model::highlighted(s.entries, index, hover),
            current: index,
            hover,
            dirty: true,
            ..s
        };
        law_follow(picked, index);
    }
}

/// Selecting the same entry twice is selecting it once.
pub proof fn law_set_current_idempotent(s: ListState, index: int)
    requires
        s.wf(),
        0 <= index < s.len(),
    ensures
        s.set_current(index).set_current(index) == s.set_current(index),
        index == s.current ==> s.set_current(index) == s,
{
    law_select(s, index, false);
}

/// A click keeps the state well formed. It hits an entry unless it is above
/// the top edge or below the last entry, and changes nothing then; a click
/// that hits makes the row under the pointer the playing entry, takes the
/// hover away and does not scroll.
pub proof fn law_clicked(s: ListState, pointer_y: int)
    requires
        s.wf(),
    ensures
        s.clicked(pointer_y).wf(),
        s.clicked(pointer_y).scroll_offset == s.scroll_offset,
        s.click_target(pointer_y).is_none() <==> pointer_y < s.top || row_at(
            pointer_y,
            s.top,
            s.scroll_offset,
        ) >= s.len(),
        s.click_target(pointer_y).is_some() ==> {
            &&& s.clicked(pointer_y).current == row_at(pointer_y, s.top, s.scroll_offset)
            &&& s.clicked(pointer_y).hover.is_none()
        },
        s.click_target(pointer_y).is_none() ==> s.clicked(pointer_y) == s,
{
    match s.click_target(pointer_y) {
        Some(row) => {
            law_select(s.without_hover(), row, true);
        },
        None => {},
    }
}

/// A move of the pointer keeps the state well formed, and the hover is never
/// on the playing entry.
pub proof fn law_cursor_moved(s: ListState, pointer_y: int)
    requires
        s.wf(),
    ensures
        s.cursor_moved(pointer_y).wf(),
        s.cursor_moved(pointer_y).hover != Some(s.cursor_moved(pointer_y).current),
        s.cursor_moved(pointer_y).current == s.current,
        s.cursor_moved(pointer_y).has_pointer,
{
}

/// When the pointer leaves, the hover goes and every entry but the playing
/// one is back to the default highlight. Leaving twice is leaving once.
pub proof fn law_mouse_leave(s: ListState)
    requires
        s.wf(),
    ensures
        s.mouse_leave().wf(),
        s.has_pointer ==> s.mouse_leave().hover.is_none(),
        s.has_pointer ==> forall|i: int|
            0 <= i < s.len() && i != s.current ==> (#[trigger] s.mouse_leave().entries[i]).highlight
                == Highlight::Default,
        !s.mouse_leave().has_pointer,
        s.mouse_leave().mouse_leave() == s.mouse_leave(),
{
}

/// Removing one of two or more entries keeps the state well formed and
/// leaves one entry less; the other entries keep their order.
pub proof fn law_remove_music(s: ListState, pos: int)
    requires
        s.wf(),
        s.len() >= 2,
        0 <= pos < s.len(),
    ensures
        s.remove_music(pos).wf(),
        s.remove_music(pos).len() == s.len() - 1,
        forall|i: int|
            0 <= i < s.len() - 1 ==> (#[trigger] s.remove_music(pos).entries[i]).source
                == s.entries[if i < pos {
                i
            } else {
                i + 1
            }].source,
        s.current != pos ==> s.remove_music(pos).entries[s.remove_music(pos).current].source
            == s.entries[s.current].source,
{
    lemma_visible_rows_bound((s.len() - 1) as nat, s.inner_height());
}

/// Drawing keeps the state well formed and settles the redraw that was owed;
/// a second drawing paints nothing.
pub proof fn law_draw(s: ListState)
    requires
        s.wf(),
    ensures
        s.draw().wf(),
        !s.draw().dirty,
        s.draw().painted() == Seq::<crate::frame::DrawCommand>::empty(),
        s.dirty ==> s.painted().len() == 1 + s.drawn_rows(),
{
}

} // verus!
