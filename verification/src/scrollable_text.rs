//! Scrollable text viewport with scrollbar: which lines are shown, and
//! where the scrollbar thumb sits.
use vstd::prelude::*;

use crate::text::{chars_of, split_lines, text_lines};

verus! {

/// At most this many lines are rendered at once.
pub const MAX_VISIBLE: usize = 200;

/// The thumb size: `visible² / total`, at least one row and at most the
/// whole track.
pub open spec fn thumb_size(total: nat, visible: nat) -> nat {
    let raw = visible * visible / total;
    let at_least_one = if raw < 1 { 1 } else { raw };
    if at_least_one > visible {
        visible
    } else {
        at_least_one
    }
}

/// Scrollbar thumb (position, size) within a track of `visible` rows for a
/// text of `total` lines scrolled by `offset` lines.  When everything fits
/// (or there is no track) the thumb is the whole track.  Otherwise the
/// thumb moves over the rows it leaves free in proportion to
/// `offset / (total - visible)`, and stops at the end of the track.
pub open spec fn geometry(total: nat, visible: nat, offset: nat) -> (nat, nat) {
    if total <= visible || visible == 0 {
        (0, visible)
    } else {
        let size = thumb_size(total, visible);
        let free_rows = (visible - size) as nat;
        let max_offset = (total - visible) as nat;
        let pos = offset * free_rows / max_offset;
        (if pos > free_rows {
            free_rows
        } else {
            pos
        }, size)
    }
}

/// The products that `scrollbar_geometry` computes fit in a `usize`.
pub open spec fn geometry_in_range(total: nat, visible: nat, offset: nat) -> bool {
    total <= visible || visible == 0 || (visible * visible <= usize::MAX && offset * ((visible
        - thumb_size(total, visible)) as nat) <= usize::MAX)
}

/// Compute scrollbar thumb position and size.
pub fn scrollbar_geometry(total: usize, visible: usize, offset: usize) -> (res: (usize, usize))
    requires
        geometry_in_range(total as nat, visible as nat, offset as nat),
    ensures
        (res.0 as nat, res.1 as nat) == geometry(total as nat, visible as nat, offset as nat),
        res.0 + res.1 <= visible,
{
    proof {
        lemma_thumb_within_track(total as nat, visible as nat, offset as nat);
    }
    if total <= visible || visible == 0 {
        return (0, visible);
    }
    let squared = visible * visible;
    let raw = squared / total;
    let thumb_size = if raw < 1 {
        1
    } else {
        raw
    };
    let thumb_size = if thumb_size > visible {
        visible
    } else {
        thumb_size
    };
    let max_offset = total.saturating_sub(visible);
    let scrollable_rows = visible.saturating_sub(thumb_size);
    let thumb_pos = if max_offset > 0 {
        let pos = offset * scrollable_rows / max_offset;
        if pos > scrollable_rows {
            scrollable_rows
        } else {
            pos
        }
    } else {
        0
    };
    (thumb_pos, thumb_size)
}

// ---------------------------------------------------------------------------
// Laws of the scrollbar
// ---------------------------------------------------------------------------

/// The thumb lies inside the track, and is at least one row tall whenever
/// the text does not fit.
pub proof fn lemma_thumb_within_track(total: nat, visible: nat, offset: nat)
    ensures
        geometry(total, visible, offset).0 + geometry(total, visible, offset).1 <= visible,
        total > visible && visible > 0 ==> geometry(total, visible, offset).1 >= 1,
{
}

/// Scrolled to the top, the thumb starts at the first row.
pub proof fn lemma_thumb_at_top(total: nat, visible: nat)
    ensures
        geometry(total, visible, 0).0 == 0,
{
    if !(total <= visible || visible == 0) {
        let free_rows = (visible - thumb_size(total, visible)) as nat;
        let max_offset = (total - visible) as nat;
        assert(0 * free_rows == 0);
        assert(0nat / max_offset == 0) by (nonlinear_arith)
            requires
                max_offset > 0,
        ;
    }
}

/// Scrolled to the last page (or beyond), the thumb ends at the last row.
pub proof fn lemma_thumb_at_bottom(total: nat, visible: nat, offset: nat)
    requires
        total > visible > 0,
        offset >= total - visible,
    ensures
        geometry(total, visible, offset).0 + geometry(total, visible, offset).1 == visible,
{
    let free_rows = (visible - thumb_size(total, visible)) as nat;
    let max_offset = (total - visible) as nat;
    vstd::arithmetic::mul::lemma_mul_inequality(max_offset as int, offset as int, free_rows as int);
    vstd::arithmetic::div_mod::lemma_div_is_ordered(
        (max_offset * free_rows) as int,
        (offset * free_rows) as int,
        max_offset as int,
    );
    vstd::arithmetic::div_mod::lemma_div_multiples_vanish(free_rows as int, max_offset as int);
}

/// Scrolling further down never moves the thumb up.
pub proof fn lemma_thumb_monotone(total: nat, visible: nat, offset1: nat, offset2: nat)
    requires
        offset1 <= offset2,
    ensures
        geometry(total, visible, offset1).0 <= geometry(total, visible, offset2).0,
{
    if !(total <= visible || visible == 0) {
        let free_rows = (visible - thumb_size(total, visible)) as nat;
        let max_offset = (total - visible) as nat;
        vstd::arithmetic::mul::lemma_mul_inequality(
            offset1 as int,
            offset2 as int,
            free_rows as int,
        );
        vstd::arithmetic::div_mod::lemma_div_is_ordered(
            (offset1 * free_rows) as int,
            (offset2 * free_rows) as int,
            max_offset as int,
        );
    }
}

// ---------------------------------------------------------------------------
// The viewport
// ---------------------------------------------------------------------------

/// What the scrollable text viewport shows: the lines in the scroll window,
/// and, when there is a scrollbar, one entry per track row telling whether
/// that row belongs to the thumb.
pub struct ScrollView {
    pub lines: Vec<String>,
    pub scrollbar: Vec<bool>,
}

/// The scroll offset actually used: the requested one, but at most the
/// index of the last line.
pub open spec fn clamped_offset(total: nat, scroll_offset: nat) -> nat {
    let last: nat = if total >= 1 { (total - 1) as nat } else { 0 };
    if scroll_offset < last {
        scroll_offset
    } else {
        last
    }
}

/// The lines from `offset` on, at most [`MAX_VISIBLE`] of them.
pub open spec fn window(lines: Seq<Seq<char>>, offset: nat) -> Seq<Seq<char>> {
    let end = if offset + MAX_VISIBLE < lines.len() {
        offset + MAX_VISIBLE
    } else {
        lines.len() as int
    };
    lines.subrange(offset as int, end)
}

/// One entry per track row: whether the row lies within the thumb.
pub open spec fn thumb_rows(rows: nat, pos: nat, size: nat) -> Seq<bool> {
    Seq::new(rows, |row: int| pos <= row && row < pos + size)
}

/// The lines shown for `content` scrolled by `scroll_offset`.
pub open spec fn shown_lines(content: Seq<char>, scroll_offset: nat) -> Seq<Seq<char>> {
    let lines = text_lines(content);
    window(lines, clamped_offset(lines.len(), scroll_offset))
}

/// The scrollbar for `content` scrolled by `scroll_offset`: a track as tall
/// as the shown lines with the thumb of [`geometry`] marked, present only
/// when the text has more than one line.
pub open spec fn scrollbar_rows(content: Seq<char>, scroll_offset: nat) -> Seq<bool> {
    let lines = text_lines(content);
    let offset = clamped_offset(lines.len(), scroll_offset);
    let rows = shown_lines(content, scroll_offset).len();
    let (pos, size) = geometry(lines.len(), rows, offset);
    if lines.len() > 1 {
        thumb_rows(rows, pos, size)
    } else {
        Seq::empty()
    }
}

/// The scrollbar arithmetic for `content` scrolled by `scroll_offset` fits
/// in a `usize`.
pub open spec fn layout_in_range(content: Seq<char>, scroll_offset: nat) -> bool {
    let lines = text_lines(content);
    geometry_in_range(
        lines.len(),
        shown_lines(content, scroll_offset).len(),
        clamped_offset(lines.len(), scroll_offset),
    )
}

/// Lay out the scrollable text viewport: the visible window of lines of
/// `content` and the scrollbar beside it.
pub fn scrollable_text_view(content: &str, scroll_offset: usize) -> (view: ScrollView)
    requires
        layout_in_range(content@, scroll_offset as nat),
    ensures
        view.lines.deep_view() == shown_lines(content@, scroll_offset as nat),
        view.scrollbar@ == scrollbar_rows(content@, scroll_offset as nat),
{
    let chars = chars_of(content);
    let all_lines = split_lines(&chars);
    let total = all_lines.len();
    let last = total.saturating_sub(1);
    let offset = if scroll_offset < last {
        scroll_offset
    } else {
        last
    };
    let end = if total - offset > MAX_VISIBLE {
        offset + MAX_VISIBLE
    } else {
        total
    };
    let ghost all = all_lines.deep_view();
    let mut visible_lines: Vec<String> = Vec::new();
    let mut k = offset;
    while k < end
        invariant
            offset <= k <= end <= all_lines@.len(),
            all == all_lines.deep_view(),
            visible_lines.deep_view() == all.subrange(offset as int, k as int),
        decreases end - k,
    {
        let line = all_lines[k].clone();
        let ghost before = visible_lines.deep_view();
        assert(all[k as int] == line@);
        visible_lines.push(line);
        assert(visible_lines.deep_view() =~= before.push(line@));
        k = k + 1;
        assert(visible_lines.deep_view() =~= all.subrange(offset as int, k as int));
    }
    assert(visible_lines.deep_view() =~= shown_lines(content@, scroll_offset as nat));
    let sb_height = visible_lines.len();
    let (thumb_pos, thumb_size) = scrollbar_geometry(total, sb_height, offset);
    let mut scrollbar: Vec<bool> = Vec::new();
    if total > 1 {
        let mut row: usize = 0;
        while row < sb_height
            invariant
                row <= sb_height,
                thumb_pos + thumb_size <= sb_height,
                scrollbar@ =~= thumb_rows(
                    sb_height as nat,
                    thumb_pos as nat,
                    thumb_size as nat,
                ).take(row as int),
            decreases sb_height - row,
        {
            scrollbar.push(row >= thumb_pos && row < thumb_pos + thumb_size);
            row = row + 1;
        }
    }
    ScrollView { lines: visible_lines, scrollbar }
}

/// Whether [`scrollable_text_view`] can lay out `content` scrolled by
/// `scroll_offset` without its scrollbar arithmetic leaving `usize`.
pub fn scrollable_text_fits(content: &str, scroll_offset: usize) -> (fits: bool)
    ensures
        fits == layout_in_range(content@, scroll_offset as nat),
{
    let chars = chars_of(content);
    let all_lines = split_lines(&chars);
    let total = all_lines.len();
    let last = total.saturating_sub(1);
    let offset = if scroll_offset < last {
        scroll_offset
    } else {
        last
    };
    let visible = if total - offset > MAX_VISIBLE {
        MAX_VISIBLE
    } else {
        total - offset
    };
    proof {
        assert(all_lines.deep_view().len() == all_lines@.len());
    }
    if total <= visible || visible == 0 {
        return true;
    }
    assert(visible <= MAX_VISIBLE);
    assert(visible * visible <= 40000) by (nonlinear_arith)
        requires
            visible <= 200,
    ;
    let squared = visible * visible;
    let raw = squared / total;
    let thumb_size = if raw < 1 {
        1
    } else if raw > visible {
        visible
    } else {
        raw
    };
    offset.checked_mul(visible - thumb_size).is_some()
}


/// The scrollbar has one row per shown line when the text has more than one
/// line (none otherwise), and a row belongs to the thumb exactly when it
/// lies in `[pos, pos + size)` of the scrollbar geometry: the rows before
/// the thumb and after it are track.
pub proof fn lemma_scrollbar_marks_thumb(content: Seq<char>, scroll_offset: nat)
    ensures
        ({
            let lines = text_lines(content);
            let rows = shown_lines(content, scroll_offset).len();
            let (pos, size) = geometry(lines.len(), rows, clamped_offset(lines.len(), scroll_offset));
            let bar = scrollbar_rows(content, scroll_offset);
            &&& lines.len() > 1 ==> bar.len() == rows
            &&& lines.len() <= 1 ==> bar.len() == 0
            &&& pos + size <= rows
            &&& forall|row: int| 0 <= row < bar.len() ==> (#[trigger] bar[row] <==> (pos <= row
                && row < pos + size))
        }),
{
    let lines = text_lines(content);
    let rows = shown_lines(content, scroll_offset).len();
    lemma_thumb_within_track(lines.len(), rows, clamped_offset(lines.len(), scroll_offset));
}

} // verus!
