//! Measurements for drawing the main view: insets, scroll bars, the tab
//! strip of the right panel, the lyrics window and padded columns.

use vstd::prelude::*;
use crate::main_view::{RightPanelState, LYRICS_LINE_COUNT};
use crate::panels::{RightPanelKind, TAB_COUNT};
use crate::selection::{min_int, sat_sub};
use crate::text::push_char;

verus! {

/// A rectangle of terminal cells.
#[derive(Debug, PartialEq, Eq, Structural, Clone, Copy)]
pub struct Area {
    pub x: u16,
    pub y: u16,
    pub width: u16,
    pub height: u16,
}

/// `a + b`, or the largest `u16` where that would overflow.
pub open spec fn sat_add_u16(a: int, b: int) -> int {
    if a + b > u16::MAX { u16::MAX as int } else { a + b }
}

/// The inside of a bordered area: one cell in from each side.
pub fn inset(area: Area) -> (r: Area)
    ensures
        r.x == sat_add_u16(area.x as int, 1),
        r.y == sat_add_u16(area.y as int, 1),
        r.width == sat_sub(area.width as int, 2),
        r.height == sat_sub(area.height as int, 2),
{
    Area {
        x: area.x.saturating_add(1),
        y: area.y.saturating_add(1),
        width: area.width.saturating_sub(2),
        height: area.height.saturating_sub(2),
    }
}

/// Whether a table of `total` rows needs a scroll bar inside an area of
/// `inner_height` rows, of which the header takes two.
pub fn needs_scrollbar(total: usize, inner_height: u16) -> (r: bool)
    ensures
        r == (total > sat_sub(inner_height as int, 2)),
{
    total > inner_height.saturating_sub(2) as usize
}

/// Width of the caption of a tab, in characters.
pub open spec fn caption_width(k: RightPanelKind) -> int {
    k.spec_label().len() as int
}

/// Number of tabs, from position `i` on, that fit in `available` cells of
/// which `used` are taken: each takes its caption and three cells, and all
/// but the last need four more for a trailing ellipsis.
pub open spec fn tabs_that_fit(i: int, used: int, available: int) -> int
    decreases TAB_COUNT - i,
{
    if i >= TAB_COUNT || i < 0 {
        0
    } else {
        let cost = caption_width(RightPanelKind::from_index(i)) + 3;
        let right = if i + 1 < TAB_COUNT { 4int } else { 0int };
        if used + cost + right > available {
            0
        } else {
            1 + tabs_that_fit(i + 1, used + cost, available)
        }
    }
}

/// The tab strip: how many tabs show (at least one) from `offset` on in
/// `width` cells, where a leading ellipsis takes four cells after the first tab.
pub open spec fn visible_tab_count(offset: int, width: int) -> int {
    let available = sat_sub(width, 4);
    let used = if offset > 0 { 4int } else { 0int };
    let n = tabs_that_fit(offset, used, available);
    if n >= 1 { n } else { 1 }
}

/// The first tab shown after making the active tab visible.
pub open spec fn scrolled_tab_offset(offset: int, active: int, vis: int) -> int {
    if active < offset {
        active
    } else if active >= offset + vis {
        sat_sub(active, vis - 1)
    } else {
        offset
    }
}

proof fn lemma_tabs_that_fit_bounds(i: int, used: int, available: int)
    ensures
        0 <= tabs_that_fit(i, used, available),
        0 <= i <= TAB_COUNT ==> tabs_that_fit(i, used, available) <= TAB_COUNT - i,
    decreases TAB_COUNT - i,
{
    if 0 <= i < TAB_COUNT {
        let cost = caption_width(RightPanelKind::from_index(i)) + 3;
        lemma_tabs_that_fit_bounds(i + 1, used + cost, available);
    }
}

impl RightPanelKind {
    /// Width of the caption, in characters.
    pub fn caption_width(&self) -> (r: usize)
        ensures
            r == caption_width(*self),
            5 <= r <= 7,
    {
        proof {
            reveal_strlit("Queue");
            reveal_strlit("Lyrics");
            reveal_strlit("Related");
        }
        match self {
            RightPanelKind::Queue => 5,
            RightPanelKind::Lyrics => 6,
            RightPanelKind::Related => 7,
        }
    }
}

impl RightPanelState {
    /// Scrolls the tab strip so that the active tab shows in `width`
    /// cells; returns the position after the last tab shown.
    pub fn scroll_tabs(&mut self, width: u16) -> (vis_end: usize)
        requires
            old(self).tab_offset <= TAB_COUNT,
        ensures
            ({
                let vis = visible_tab_count(old(self).tab_offset as int, width as int);
                let off = scrolled_tab_offset(old(self).tab_offset as int, old(self).kind.index(), vis);
                &&& final(self).tab_offset == off
                &&& vis_end == min_int(off + vis, TAB_COUNT as int)
                &&& *final(self) == (RightPanelState { tab_offset: off as usize, ..*old(self) })
            }),
            final(self).tab_offset < TAB_COUNT,
            final(self).tab_offset < vis_end <= TAB_COUNT,
    {
        let available: usize = width.saturating_sub(4) as usize;
        let offset = self.tab_offset;
        let mut used: usize = if offset > 0 { 4 } else { 0 };
        let mut vis: usize = 0;
        let mut i = offset;
        proof { lemma_tabs_that_fit_bounds(offset as int, used as int, available as int); }
        while i < TAB_COUNT
            invariant
                offset <= i <= TAB_COUNT,
                vis == i - offset,
                used <= 4 + 10 * vis,
                tabs_that_fit(offset as int, (if offset > 0 { 4int } else { 0int }), available as int)
                    == vis + tabs_that_fit(i as int, used as int, available as int),
            ensures
                offset <= i <= TAB_COUNT,
                vis == i - offset,
                tabs_that_fit(offset as int, (if offset > 0 { 4int } else { 0int }), available as int) == vis,
            decreases TAB_COUNT - i,
        {
            let cost = RightPanelKind::at(i).caption_width() + 3;
            let right: usize = if i + 1 < TAB_COUNT { 4 } else { 0 };
            if used + cost + right > available {
                break;
            }
            used = used + cost;
            vis = vis + 1;
            i = i + 1;
        }
        proof { lemma_tabs_that_fit_bounds(i as int, used as int, available as int); }
        let vis = if vis >= 1 { vis } else { 1 };
        let active = self.kind.position();
        if active < self.tab_offset {
            self.tab_offset = active;
        } else if active >= self.tab_offset + vis {
            self.tab_offset = if active >= vis - 1 { active - (vis - 1) } else { 0 };
        }
        let end = self.tab_offset + vis;
        if end <= TAB_COUNT { end } else { TAB_COUNT }
    }

    /// Fits the lyrics to an area `height` rows high: remembers the height
    /// and, for timed lyrics, keeps the scroll position within the lines;
    /// returns the last line shown then.
    pub fn fit_lyrics(&mut self, height: u16) -> (r: Option<u16>)
        ensures
            final(self).lyrics_visible_height == height,
            old(self).lyrics_timed ==> {
                let scroll = min_int(old(self).lyrics_scroll as int, sat_sub(LYRICS_LINE_COUNT as int, height as int));
                &&& final(self).lyrics_scroll == scroll
                &&& r == Some(min_int(scroll + height, LYRICS_LINE_COUNT as int) as u16)
            },
            !old(self).lyrics_timed ==> final(self).lyrics_scroll == old(self).lyrics_scroll && r is None,
            final(self).kind == old(self).kind,
            final(self).tab_offset == old(self).tab_offset,
            final(self).queue_list_state == old(self).queue_list_state,
            final(self).lyrics_timed == old(self).lyrics_timed,
            final(self).related_state == old(self).related_state,
    {
        self.lyrics_visible_height = height;
        if self.lyrics_timed {
            let max_scroll: u16 = if LYRICS_LINE_COUNT >= height { LYRICS_LINE_COUNT - height } else { 0 };
            if self.lyrics_scroll > max_scroll {
                self.lyrics_scroll = max_scroll;
            }
            let current: u16 = self.lyrics_scroll + height;
            Some(if current <= LYRICS_LINE_COUNT { current } else { LYRICS_LINE_COUNT })
        } else {
            None
        }
    }
}

/// `s` followed by spaces up to `width` characters, as `{:<width$}`
/// prints it; longer text is left as it is.
pub fn pad_right(s: &str, width: usize) -> (r: String)
    ensures
        r@ == s@ + Seq::new(sat_sub(width as int, s@.len() as int) as nat, |_i: int| ' '),
{
    let mut r = s.to_owned();
    let len = s.unicode_len();
    let mut n = len;
    while n < width
        invariant
            len == s@.len(),
            len <= n,
            n <= width || n == len,
            r@ == s@ + Seq::new(sat_sub(n as int, len as int) as nat, |_i: int| ' '),
        decreases width - n,
    {
        let ghost before = r@;
        push_char(&mut r, ' ');
        n = n + 1;
        assert(Seq::new(sat_sub(n as int, len as int) as nat, |_i: int| ' ')
            =~= Seq::new(sat_sub(n - 1, len as int) as nat, |_i: int| ' ').push(' '));
        assert(r@ =~= s@ + Seq::new(sat_sub(n as int, len as int) as nat, |_i: int| ' '));
    }
    assert(r@ =~= s@ + Seq::new(sat_sub(width as int, s@.len() as int) as nat, |_i: int| ' '));
    r
}

/// Width of the title column of the queue, for a list `width` cells wide:
/// eight cells go to the length, and titles take at most 28.
pub fn queue_title_width(width: u16) -> (r: usize)
    ensures
        r == min_int(sat_sub(width as int, 8), 28),
{
    let w = width.saturating_sub(8) as usize;
    if w <= 28 { w } else { 28 }
}

} // verus!
