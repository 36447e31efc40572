//! A bounded viewport over an append-only log of display events.
//!
//! The list keeps a window `[start, end)` into the log, a selection cursor
//! relative to that window, and a horizontal scroll offset over the widest
//! line rendered so far. Every navigation intent becomes a clamping mutation
//! of that state; none of them can index out of range or overflow.
//!
//! Each navigation method is specified against a spec-level transition
//! function over the whole list state, so a caller knows the exact state
//! after every gesture, and the laws about sequences of gestures are proved
//! once over those transition functions.

use vstd::prelude::*;
use vstd::slice::slice_subrange;

use crate::action::Action;

verus! {

/// The smaller of two integers.
pub open spec fn int_min(a: int, b: int) -> int {
    if a <= b {
        a
    } else {
        b
    }
}

/// The larger of two integers.
pub open spec fn int_max(a: int, b: int) -> int {
    if a >= b {
        a
    } else {
        b
    }
}

/// Subtraction on integers, floored at zero.
pub open spec fn sat_sub(a: int, b: int) -> int {
    if a >= b {
        a - b
    } else {
        0
    }
}

/// One immutable display event of the log: an already rendered line, kept as
/// plain text. Styling and exact column widths are the display layer's
/// business; the list treats a line as opaque and takes the display width
/// the renderer reports for it.
#[derive(Debug, Clone, PartialEq, Eq)]
pub struct DisplayEvent {
    pub text: String,
}

/// The navigation state of the event list.
///
/// `window` is a half-open range `[window.0, window.1)` into `items`.
/// `selection` is a row index relative to the window, or `None` when nothing
/// is selected; `last_selected` remembers the row a cleared selection should
/// come back to. `max_width` is the widest rendered line seen so far and
/// only grows; `horizontal_offset` scrolls over it.
pub struct EventList {
    pub items: Vec<DisplayEvent>,
    /// Current window of the event list, `[start, end)`.
    pub window: (usize, usize),
    /// How many items of the log are inside the window, as of the last
    /// render pass.
    pub nr_items_in_window: usize,
    /// Row selected inside the window, if any.
    pub selection: Option<usize>,
    /// The row a cleared selection comes back to on the next vertical move.
    pub last_selected: Option<usize>,
    pub horizontal_offset: usize,
    /// Width available to the list items, not counting the selection
    /// indicator column.
    pub inner_width: u16,
    pub max_width: usize,
    pub max_window_len: usize,
    pub follow: bool,
}

impl EventList {
    /// The window is a well-formed range over the log: ordered, no longer
    /// than the viewport, and lying entirely inside the log. Every
    /// navigation operation clamps rather than errs, so none can break
    /// this.
    pub open spec fn window_wf(self) -> bool {
        &&& self.window.0 <= self.window.1
        &&& self.window.1 - self.window.0 <= self.max_window_len
        &&& self.window.1 <= self.items@.len()
    }

    /// The horizontal offset never exposes empty space beyond the widest
    /// rendered line: it stays within `[0, max_width - inner_width]`,
    /// floored at zero.
    pub open spec fn horizontal_wf(self) -> bool {
        self.horizontal_offset <= sat_sub(self.max_width as int, self.inner_width as int)
    }

    /// How many log items the current window actually covers.
    pub open spec fn spec_window_size(self) -> int {
        int_min(self.window.1 as int, self.items@.len() as int) - self.window.0 as int
    }

    /// The per-frame bookkeeping of the render pass has happened for the
    /// current window: the recorded item count matches the window.
    pub open spec fn counted(self) -> bool {
        self.nr_items_in_window == self.spec_window_size()
    }

    pub fn new(follow: bool) -> (r: Self)
        ensures
            r.items@ =~= Seq::<DisplayEvent>::empty(),
            r.window == (0usize, 0usize),
            r.nr_items_in_window == 0,
            r.selection is None,
            r.last_selected is None,
            r.horizontal_offset == 0,
            r.inner_width == 0,
            r.max_width == 0,
            r.max_window_len == 0,
            r.follow == follow,
            r.window_wf(),
            r.horizontal_wf(),
    {
        Self {
            items: Vec::new(),
            window: (0, 0),
            nr_items_in_window: 0,
            selection: None,
            last_selected: None,
            horizontal_offset: 0,
            inner_width: 0,
            max_width: 0,
            max_window_len: 0,
            follow,
        }
    }

    pub fn toggle_follow(&mut self)
        ensures
            *final(self) == (EventList { follow: !old(self).follow, ..*old(self) }),
    {
        self.follow = !self.follow;
    }

    pub fn stop_follow(&mut self)
        ensures
            *final(self) == (EventList { follow: false, ..*old(self) }),
    {
        self.follow = false;
    }

    /// Sliding the window down by one item, when its end has not reached the
    /// end of the log.
    pub open spec fn spec_next_window(s: EventList) -> EventList {
        if s.window.1 < s.items@.len() {
            EventList { window: ((s.window.0 + 1) as usize, (s.window.1 + 1) as usize), ..s }
        } else {
            s
        }
    }

    /// Try to slide down the window by one item.
    /// Returns true if the window was slid down, false otherwise.
    pub fn next_window(&mut self) -> (r: bool)
        requires
            old(self).window.0 <= old(self).window.1,
        ensures
            *final(self) == Self::spec_next_window(*old(self)),
            r == (old(self).window.1 < old(self).items@.len()),
    {
        if self.window.1 < self.items.len() {
            self.window.0 += 1;
            self.window.1 += 1;
            true
        } else {
            false
        }
    }

    /// Sliding the window up by one item, when it has not reached the head
    /// of the log.
    pub open spec fn spec_previous_window(s: EventList) -> EventList {
        if s.window.0 > 0 {
            EventList { window: ((s.window.0 - 1) as usize, (s.window.1 - 1) as usize), ..s }
        } else {
            s
        }
    }

    /// Try to slide up the window by one item.
    /// Returns true if the window was slid up, false otherwise.
    pub fn previous_window(&mut self) -> (r: bool)
        requires
            old(self).window.0 <= old(self).window.1,
        ensures
            *final(self) == Self::spec_previous_window(*old(self)),
            r == (old(self).window.0 > 0),
    {
        if self.window.0 > 0 {
            self.window.0 -= 1;
            self.window.1 -= 1;
            true
        } else {
            false
        }
    }

    /// Moving the cursor down one row. With a selection at the last row the
    /// window slides down instead (when it can) and the cursor keeps its
    /// rendered position; the result is clamped to the rows the window
    /// actually shows. Without a selection, the remembered row (or row 0) is
    /// selected again.
    pub open spec fn spec_next(s: EventList) -> EventList {
        match s.selection {
            Some(i) => {
                let slide = i >= s.window.1 - s.window.0 - 1;
                let s1 = if slide {
                    Self::spec_next_window(s)
                } else {
                    s
                };
                let j = if slide {
                    i as int
                } else {
                    i + 1
                };
                let clamped = int_min(j, s.nr_items_in_window - 1);
                EventList { selection: Some(clamped as usize), ..s1 }
            },
            None => {
                let i = match s.last_selected {
                    Some(j) => j,
                    None => 0usize,
                };
                EventList { selection: Some(i), ..s }
            },
        }
    }

    /// Select the next row, sliding the window down when the cursor is
    /// already at its last row.
    pub fn next(&mut self)
        requires
            old(self).selection is Some ==> {
                &&& old(self).window.0 < old(self).window.1
                &&& old(self).nr_items_in_window >= 1
            },
        ensures
            *final(self) == Self::spec_next(*old(self)),
    {
        let i: usize = match self.selection {
            Some(i) => {
                let j: usize = if i >= self.window.1 - self.window.0 - 1 {
                    self.next_window();
                    i
                } else {
                    i + 1
                };
                let limit: usize = self.nr_items_in_window - 1;
                if j <= limit {
                    j
                } else {
                    limit
                }
            },
            None => match self.last_selected {
                Some(j) => j,
                None => 0,
            },
        };
        self.selection = Some(i);
    }

    /// Moving the cursor up one row. With the selection at row 0 the window
    /// slides up instead (when it can); otherwise the cursor moves up one
    /// row. Without a selection, the remembered row (or row 0) is selected
    /// again.
    pub open spec fn spec_previous(s: EventList) -> EventList {
        match s.selection {
            Some(i) => {
                if i == 0 {
                    EventList { selection: Some(0usize), ..Self::spec_previous_window(s) }
                } else {
                    EventList { selection: Some((i - 1) as usize), ..s }
                }
            },
            None => {
                let i = match s.last_selected {
                    Some(j) => j,
                    None => 0usize,
                };
                EventList { selection: Some(i), ..s }
            },
        }
    }

    /// Select the previous row, sliding the window up when the cursor is
    /// already at row 0.
    pub fn previous(&mut self)
        requires
            old(self).selection is Some ==> old(self).window.0 <= old(self).window.1,
        ensures
            *final(self) == Self::spec_previous(*old(self)),
    {
        let i: usize = match self.selection {
            Some(i) => {
                if i == 0 {
                    self.previous_window();
                    i
                } else {
                    i - 1
                }
            },
            None => match self.last_selected {
                Some(j) => j,
                None => 0,
            },
        };
        self.selection = Some(i);
    }

    /// Clearing the selection remembers the selected row, so that the next
    /// vertical move can come back to it; the window itself stays put.
    pub open spec fn spec_unselect(s: EventList) -> EventList {
        EventList { selection: None, last_selected: s.selection, ..s }
    }

    /// Clear the selection, remembering the selected row.
    pub fn unselect(&mut self)
        ensures
            *final(self) == Self::spec_unselect(*old(self)),
    {
        self.last_selected = self.selection;
        self.selection = None;
    }

    /// Sliding the window down by a full page when the log still has a full
    /// page below it; otherwise pinning the window to the last
    /// `max_window_len` items, or to the whole of a shorter log.
    pub open spec fn spec_page_down(s: EventList) -> EventList {
        if s.window.1 + s.max_window_len <= s.items@.len() {
            EventList {
                window: (
                    (s.window.0 + s.max_window_len) as usize,
                    (s.window.1 + s.max_window_len) as usize,
                ),
                ..s
            }
        } else {
            let start = sat_sub(s.items@.len() as int, s.max_window_len as int);
            EventList {
                window: (
                    start as usize,
                    int_min(start + s.max_window_len, s.items@.len() as int) as usize,
                ),
                ..s
            }
        }
    }

    /// Slide the window down by a full page, clamping to the tail of the log.
    pub fn page_down(&mut self)
        requires
            old(self).window.0 <= old(self).window.1,
        ensures
            *final(self) == Self::spec_page_down(*old(self)),
    {
        let len = self.items.len();
        if self.max_window_len <= len && self.window.1 <= len - self.max_window_len {
            self.window.0 += self.max_window_len;
            self.window.1 += self.max_window_len;
        } else {
            // If we can't slide down the window by a full page,
            // just set the window to the last items.
            self.window.0 = if len >= self.max_window_len {
                len - self.max_window_len
            } else {
                0
            };
            self.window.1 = len;
        }
    }

    /// Sliding the window up by a full page when a full page lies above it;
    /// otherwise pinning the window to the first `max_window_len` items, or
    /// to the whole of a shorter log.
    pub open spec fn spec_page_up(s: EventList) -> EventList {
        if s.window.0 >= s.max_window_len {
            EventList {
                window: (
                    (s.window.0 - s.max_window_len) as usize,
                    (s.window.1 - s.max_window_len) as usize,
                ),
                ..s
            }
        } else {
            EventList {
                window: (0usize, int_min(s.max_window_len as int, s.items@.len() as int) as usize),
                ..s
            }
        }
    }

    /// Slide the window up by a full page, clamping to the head of the log.
    pub fn page_up(&mut self)
        requires
            old(self).window.0 <= old(self).window.1,
        ensures
            *final(self) == Self::spec_page_up(*old(self)),
    {
        // Try to slide up the window by a full page.
        if self.window.0 >= self.max_window_len {
            self.window.0 -= self.max_window_len;
            self.window.1 -= self.max_window_len;
        } else {
            // If we can't slide up the window by a full page,
            // just set the window to the first items.
            self.window.0 = 0;
            self.window.1 = if self.max_window_len <= self.items.len() {
                self.max_window_len
            } else {
                self.items.len()
            };
        }
    }

    /// Pinning the window to the first `max_window_len` items, or to the
    /// whole of a shorter log.
    pub open spec fn spec_scroll_to_top(s: EventList) -> EventList {
        EventList {
            window: (0usize, int_min(s.max_window_len as int, s.items@.len() as int) as usize),
            ..s
        }
    }

    /// Jump the window to the top of the log.
    pub fn scroll_to_top(&mut self)
        ensures
            *final(self) == Self::spec_scroll_to_top(*old(self)),
    {
        self.window.0 = 0;
        self.window.1 = if self.max_window_len <= self.items.len() {
            self.max_window_len
        } else {
            self.items.len()
        };
    }

    /// Pinning the window to the last `max_window_len` items, or to the
    /// whole of a shorter log.
    pub open spec fn spec_scroll_to_bottom(s: EventList) -> EventList {
        let start = sat_sub(s.items@.len() as int, s.max_window_len as int);
        EventList {
            window: (
                start as usize,
                int_min(start + s.max_window_len, s.items@.len() as int) as usize,
            ),
            ..s
        }
    }

    /// Jump the window to the bottom of the log.
    pub fn scroll_to_bottom(&mut self)
        ensures
            *final(self) == Self::spec_scroll_to_bottom(*old(self)),
    {
        self.window.0 = if self.items.len() >= self.max_window_len {
            self.items.len() - self.max_window_len
        } else {
            0
        };
        self.window.1 = self.items.len();
    }

    /// The upper bound of the horizontal offset: the widest rendered line
    /// minus the visible width, floored at zero.
    pub open spec fn spec_horizontal_bound(s: EventList) -> int {
        sat_sub(s.max_width as int, s.inner_width as int)
    }

    /// Scrolling one column to the left, saturating at the first column.
    pub open spec fn spec_scroll_left(s: EventList) -> EventList {
        EventList { horizontal_offset: sat_sub(s.horizontal_offset as int, 1) as usize, ..s }
    }

    pub fn scroll_left(&mut self)
        ensures
            *final(self) == Self::spec_scroll_left(*old(self)),
    {
        self.horizontal_offset = if self.horizontal_offset >= 1 {
            self.horizontal_offset - 1
        } else {
            0
        };
    }

    /// Scrolling one column to the right, clamped so that no space beyond
    /// the widest rendered line is exposed.
    pub open spec fn spec_scroll_right(s: EventList) -> EventList {
        EventList {
            horizontal_offset: int_min(
                s.horizontal_offset + 1,
                Self::spec_horizontal_bound(s),
            ) as usize,
            ..s
        }
    }

    pub fn scroll_right(&mut self)
        ensures
            *final(self) == Self::spec_scroll_right(*old(self)),
    {
        let bound: usize = if self.max_width >= self.inner_width as usize {
            self.max_width - self.inner_width as usize
        } else {
            0
        };
        self.horizontal_offset = if self.horizontal_offset < bound {
            self.horizontal_offset + 1
        } else {
            bound
        };
    }

    /// Scrolling a full page to the left, saturating at the first column.
    pub open spec fn spec_page_left(s: EventList) -> EventList {
        EventList {
            horizontal_offset: sat_sub(s.horizontal_offset as int, s.inner_width as int) as usize,
            ..s
        }
    }

    pub fn page_left(&mut self)
        ensures
            *final(self) == Self::spec_page_left(*old(self)),
    {
        self.horizontal_offset = if self.horizontal_offset >= self.inner_width as usize {
            self.horizontal_offset - self.inner_width as usize
        } else {
            0
        };
    }

    /// Scrolling a full page to the right, clamped so that no space beyond
    /// the widest rendered line is exposed.
    pub open spec fn spec_page_right(s: EventList) -> EventList {
        EventList {
            horizontal_offset: int_min(
                s.horizontal_offset + s.inner_width,
                Self::spec_horizontal_bound(s),
            ) as usize,
            ..s
        }
    }

    pub fn page_right(&mut self)
        ensures
            *final(self) == Self::spec_page_right(*old(self)),
    {
        let bound: usize = if self.max_width >= self.inner_width as usize {
            self.max_width - self.inner_width as usize
        } else {
            0
        };
        let step = self.inner_width as usize;
        self.horizontal_offset = if self.horizontal_offset >= bound {
            bound
        } else if bound - self.horizontal_offset <= step {
            bound
        } else {
            self.horizontal_offset + step
        };
    }

    /// Jumping to the first column.
    pub open spec fn spec_scroll_to_start(s: EventList) -> EventList {
        EventList { horizontal_offset: 0usize, ..s }
    }

    pub fn scroll_to_start(&mut self)
        ensures
            *final(self) == Self::spec_scroll_to_start(*old(self)),
    {
        self.horizontal_offset = 0;
    }

    /// Jumping to the last column that still shows part of the widest
    /// rendered line.
    pub open spec fn spec_scroll_to_end(s: EventList) -> EventList {
        EventList { horizontal_offset: Self::spec_horizontal_bound(s) as usize, ..s }
    }

    pub fn scroll_to_end(&mut self)
        ensures
            *final(self) == Self::spec_scroll_to_end(*old(self)),
    {
        self.horizontal_offset = if self.max_width >= self.inner_width as usize {
            self.max_width - self.inner_width as usize
        } else {
            0
        };
    }

    /// Appending one event to the log. In follow mode the window is
    /// re-pinned to the tail, as if jumping to the bottom of the grown log;
    /// otherwise the window stays put.
    pub open spec fn spec_push_event(s: EventList, event: DisplayEvent) -> EventList {
        if s.follow {
            Self::spec_scroll_to_bottom_over(s, s.items@.len() as int + 1)
        } else {
            s
        }
    }

    /// Helper for `spec_push_event`: the window pinned to the tail of a log
    /// of `len` items.
    pub open spec fn spec_scroll_to_bottom_over(s: EventList, len: int) -> EventList {
        let start = sat_sub(len, s.max_window_len as int);
        EventList {
            window: (start as usize, int_min(start + s.max_window_len, len) as usize),
            ..s
        }
    }

    /// Append one event to the log; in follow mode, keep the window pinned
    /// to the tail of the log.
    pub fn push_event(&mut self, event: DisplayEvent)
        ensures
            final(self).items@ =~= old(self).items@.push(event),
            final(self).window == Self::spec_push_event(*old(self), event).window,
            final(self).selection == old(self).selection,
            final(self).last_selected == old(self).last_selected,
            final(self).nr_items_in_window == old(self).nr_items_in_window,
            final(self).horizontal_offset == old(self).horizontal_offset,
            final(self).inner_width == old(self).inner_width,
            final(self).max_width == old(self).max_width,
            final(self).max_window_len == old(self).max_window_len,
            final(self).follow == old(self).follow,
    {
        self.items.push(event);
        if self.follow {
            self.scroll_to_bottom();
        }
    }

    /// The largest of `floor` and the widths in `widths`.
    pub open spec fn seq_max_width(widths: Seq<usize>, floor: int) -> int
        decreases widths.len(),
    {
        if widths.len() == 0 {
            floor
        } else {
            int_max(Self::seq_max_width(widths.drop_last(), floor), widths.last() as int)
        }
    }

    /// The bookkeeping half of a render pass over the current window.
    ///
    /// The display layer styles each item of the visible slice into a line
    /// and measures its display width; this records what the windowing math
    /// needs from that pass: the width available for item text (one column
    /// of `area_width` goes to the selection indicator), how many items the
    /// window covers, and the widest line seen so far. `max_width` only
    /// grows, so horizontal extremes computed from it stay meaningful
    /// between frames.
    pub fn render(&mut self, area_width: u16, line_widths: &Vec<usize>)
        requires
            area_width >= 1,
            old(self).window.0 <= old(self).window.1,
            old(self).window.0 <= old(self).items@.len(),
            line_widths@.len() == old(self).spec_window_size(),
        ensures
            final(self).inner_width == area_width - 1,
            final(self).nr_items_in_window == old(self).spec_window_size(),
            final(self).counted(),
            final(self).max_width == Self::seq_max_width(
                line_widths@,
                int_max(old(self).max_width as int, area_width as int),
            ),
            final(self).max_width >= old(self).max_width,
            final(self).items@ == old(self).items@,
            final(self).window == old(self).window,
            final(self).selection == old(self).selection,
            final(self).last_selected == old(self).last_selected,
            final(self).horizontal_offset == old(self).horizontal_offset,
            final(self).max_window_len == old(self).max_window_len,
            final(self).follow == old(self).follow,
    {
        self.inner_width = area_width - 1;  // 1 for the selection indicator
        let end = if self.window.1 <= self.items.len() {
            self.window.1
        } else {
            self.items.len()
        };
        self.nr_items_in_window = end - self.window.0;
        let mut max_len: usize = if self.max_width >= area_width as usize {
            self.max_width
        } else {
            area_width as usize
        };
        let ghost floor = int_max(old(self).max_width as int, area_width as int);
        let mut k: usize = 0;
        while k < line_widths.len()
            invariant
                k <= line_widths@.len(),
                max_len as int == Self::seq_max_width(line_widths@.subrange(0, k as int), floor),
                max_len >= old(self).max_width,
            decreases line_widths@.len() - k,
        {
            let w = line_widths[k];
            if w > max_len {
                max_len = w;
            }
            proof {
                assert(line_widths@.subrange(0, k + 1).drop_last() =~= line_widths@.subrange(
                    0,
                    k as int,
                ));
            }
            k += 1;
        }
        proof {
            assert(line_widths@.subrange(0, line_widths@.len() as int) =~= line_widths@);
        }
        self.max_width = max_len;
    }

    /// Where one intent from the input layer takes the navigation state.
    /// Intents that are not navigation (quit, popups, clipboard, resize)
    /// leave the list alone.
    pub open spec fn spec_apply_action(s: EventList, a: Action) -> EventList {
        match a {
            Action::NextItem => Self::spec_next(s),
            Action::PrevItem => Self::spec_previous(s),
            Action::PageDown => Self::spec_page_down(s),
            Action::PageUp => Self::spec_page_up(s),
            Action::PageLeft => Self::spec_page_left(s),
            Action::PageRight => Self::spec_page_right(s),
            Action::ScrollLeft => Self::spec_scroll_left(s),
            Action::ScrollRight => Self::spec_scroll_right(s),
            Action::ScrollToTop => Self::spec_scroll_to_top(s),
            Action::ScrollToBottom => Self::spec_scroll_to_bottom(s),
            Action::ScrollToStart => Self::spec_scroll_to_start(s),
            Action::ScrollToEnd => Self::spec_scroll_to_end(s),
            Action::ToggleFollow => EventList { follow: !s.follow, ..s },
            Action::StopFollow => EventList { follow: false, ..s },
            _ => s,
        }
    }

    /// Resolve one intent from the input layer against the navigation
    /// state. This is the single entry point the interactive loop uses.
    pub fn apply_action(&mut self, a: Action)
        requires
            (a == Action::NextItem && old(self).selection is Some) ==> {
                &&& old(self).window.0 < old(self).window.1
                &&& old(self).nr_items_in_window >= 1
            },
            a == Action::PrevItem || a == Action::PageDown || a == Action::PageUp ==> old(
                self,
            ).window.0 <= old(self).window.1,
        ensures
            *final(self) == Self::spec_apply_action(*old(self), a),
    {
        match a {
            Action::NextItem => self.next(),
            Action::PrevItem => self.previous(),
            Action::PageDown => self.page_down(),
            Action::PageUp => self.page_up(),
            Action::PageLeft => self.page_left(),
            Action::PageRight => self.page_right(),
            Action::ScrollLeft => self.scroll_left(),
            Action::ScrollRight => self.scroll_right(),
            Action::ScrollToTop => self.scroll_to_top(),
            Action::ScrollToBottom => self.scroll_to_bottom(),
            Action::ScrollToStart => self.scroll_to_start(),
            Action::ScrollToEnd => self.scroll_to_end(),
            Action::ToggleFollow => self.toggle_follow(),
            Action::StopFollow => self.stop_follow(),
            _ => (),
        }
    }

    /// The visible slice of the log: the items of `[window.0, window.1)`
    /// that exist, i.e. up to `min(window.1, items.len())`.
    pub fn window(items: &Vec<DisplayEvent>, window: (usize, usize)) -> (r: &[DisplayEvent])
        requires
            window.0 <= window.1,
            window.0 <= items@.len(),
        ensures
            r@ =~= items@.subrange(
                window.0 as int,
                int_min(window.1 as int, items@.len() as int),
            ),
    {
        let end = if window.1 <= items.len() {
            window.1
        } else {
            items.len()
        };
        slice_subrange(items.as_slice(), window.0, end)
    }
}

} // verus!
