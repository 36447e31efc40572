//! Laws of the navigation engine, proved once over the spec-level
//! transition functions of [`crate::event_list::EventList`].

use vstd::prelude::*;

use crate::action::Action;
use crate::event_list::int_min;
use crate::event_list::sat_sub;
use crate::event_list::EventList;
use crate::state::history_of;
use crate::state::ProcessState;

verus! {

/// Where one navigation intent takes the vertical state: the window and, for
/// cursor moves, the selection. Intents that are not vertical navigation
/// leave the state alone.
pub open spec fn spec_vertical_step(s: EventList, a: Action) -> EventList {
    match a {
        Action::NextItem => EventList::spec_next(s),
        Action::PrevItem => EventList::spec_previous(s),
        Action::PageDown => EventList::spec_page_down(s),
        Action::PageUp => EventList::spec_page_up(s),
        Action::ScrollToTop => EventList::spec_scroll_to_top(s),
        Action::ScrollToBottom => EventList::spec_scroll_to_bottom(s),
        _ => s,
    }
}

/// The state after a whole sequence of navigation intents, applied first to
/// last.
pub open spec fn spec_vertical_run(s: EventList, ops: Seq<Action>) -> EventList
    decreases ops.len(),
{
    if ops.len() == 0 {
        s
    } else {
        spec_vertical_run(spec_vertical_step(s, ops.first()), ops.drop_first())
    }
}

/// Every single vertical navigation step keeps the window well formed:
/// `0 <= window.0 <= window.1 <= items.len()` and
/// `window.1 - window.0 <= max_window_len`.
pub proof fn lemma_vertical_step_preserves_window_wf(s: EventList, a: Action)
    requires
        s.window_wf(),
        s.items@.len() <= usize::MAX,
    ensures
        spec_vertical_step(s, a).window_wf(),
        spec_vertical_step(s, a).items == s.items,
        spec_vertical_step(s, a).max_window_len == s.max_window_len,
{
}

/// For all sequences of vertical navigation operations the window stays
/// well formed: `0 <= window.0 <= window.1 <= items.len()` and
/// `window.1 - window.0 <= max_window_len` always hold.
pub proof fn lemma_vertical_run_preserves_window_wf(s: EventList, ops: Seq<Action>)
    requires
        s.window_wf(),
        s.items@.len() <= usize::MAX,
    ensures
        spec_vertical_run(s, ops).window_wf(),
        spec_vertical_run(s, ops).items == s.items,
        spec_vertical_run(s, ops).max_window_len == s.max_window_len,
    decreases ops.len(),
{
    if ops.len() > 0 {
        lemma_vertical_step_preserves_window_wf(s, ops.first());
        lemma_vertical_run_preserves_window_wf(spec_vertical_step(s, ops.first()), ops.drop_first());
    }
}

/// One frame of moving down: the cursor move, followed by the bookkeeping
/// that the next render pass does on the window item count.
pub open spec fn spec_step_down(s: EventList) -> EventList {
    let s1 = EventList::spec_next(s);
    EventList { nr_items_in_window: s1.spec_window_size() as usize, ..s1 }
}

/// Repeating [`spec_step_down`] `n` times.
pub open spec fn iterate_step_down(s: EventList, n: nat) -> EventList
    decreases n,
{
    if n == 0 {
        s
    } else {
        iterate_step_down(spec_step_down(s), (n - 1) as nat)
    }
}

/// The bottom of the log: the window covers the tail and the cursor sits on
/// the last row the window shows.
pub open spec fn at_bottom(s: EventList) -> bool {
    &&& s.window.1 >= s.items@.len()
    &&& s.counted()
    &&& s.nr_items_in_window >= 1
    &&& s.selection == Some((s.nr_items_in_window - 1) as usize)
}

/// How far a state is from the bottom: rows the window still has to slide,
/// plus rows the cursor still has to move inside the window.
pub open spec fn down_distance(s: EventList) -> int {
    (s.items@.len() - int_min(s.window.1 as int, s.items@.len() as int)) + (s.nr_items_in_window - 1
        - s.selection->0)
}

/// A state from which moving down behaves predictably: the window is well
/// formed, the render bookkeeping matches the window, and the cursor sits on
/// one of the rows the window shows.
pub open spec fn down_ready(s: EventList) -> bool {
    &&& s.window_wf()
    &&& s.counted()
    &&& s.items@.len() <= usize::MAX
    &&& s.nr_items_in_window >= 1
    &&& s.selection is Some
    &&& s.selection->0 < s.nr_items_in_window
}

/// The bottom is a fixed point: moving down once there changes nothing.
pub proof fn lemma_bottom_is_fixed_point(s: EventList)
    requires
        down_ready(s),
        at_bottom(s),
    ensures
        spec_step_down(s) == s,
{
}

/// Moving down from any ready state strictly approaches the bottom, one row
/// per step, and stays ready.
pub proof fn lemma_step_down_progress(s: EventList)
    requires
        down_ready(s),
        !at_bottom(s),
    ensures
        down_ready(spec_step_down(s)),
        down_distance(spec_step_down(s)) == down_distance(s) - 1,
        spec_step_down(s).items == s.items,
{
}

/// Moving down repeatedly from any ready state reaches the bottom after
/// exactly as many steps as the state is rows away from it, and the bottom
/// is a fixed point from then on.
pub proof fn lemma_repeated_down_reaches_bottom(s: EventList)
    requires
        down_ready(s),
    ensures
        down_distance(s) >= 0,
        at_bottom(iterate_step_down(s, down_distance(s) as nat)),
        spec_step_down(iterate_step_down(s, down_distance(s) as nat)) == iterate_step_down(
            s,
            down_distance(s) as nat,
        ),
    decreases down_distance(s),
{
    if at_bottom(s) {
        lemma_bottom_is_fixed_point(s);
    } else {
        lemma_step_down_progress(s);
        lemma_repeated_down_reaches_bottom(spec_step_down(s));
    }
}

/// Repeating a cursor move up `n` times. Moving up needs no render
/// bookkeeping in between: it never reads the window item count.
pub open spec fn iterate_previous(s: EventList, n: nat) -> EventList
    decreases n,
{
    if n == 0 {
        s
    } else {
        iterate_previous(EventList::spec_previous(s), (n - 1) as nat)
    }
}

/// The top of the log: the window starts at the first item and the cursor
/// sits on row 0.
pub open spec fn at_top(s: EventList) -> bool {
    &&& s.window.0 == 0
    &&& s.selection == Some(0usize)
}

/// How far a state is from the top.
pub open spec fn up_distance(s: EventList) -> int {
    s.window.0 + s.selection->0
}

/// A state from which moving up behaves predictably.
pub open spec fn up_ready(s: EventList) -> bool {
    &&& s.window.0 <= s.window.1
    &&& s.selection is Some
}

/// The top is a fixed point: moving up once there changes nothing.
pub proof fn lemma_top_is_fixed_point(s: EventList)
    requires
        up_ready(s),
        at_top(s),
    ensures
        EventList::spec_previous(s) == s,
{
}

/// Moving up repeatedly from any ready state reaches the top after exactly
/// as many steps as the state is rows away from it, and the top is a fixed
/// point from then on.
pub proof fn lemma_repeated_up_reaches_top(s: EventList)
    requires
        up_ready(s),
    ensures
        up_distance(s) >= 0,
        at_top(iterate_previous(s, up_distance(s) as nat)),
        EventList::spec_previous(iterate_previous(s, up_distance(s) as nat)) == iterate_previous(
            s,
            up_distance(s) as nat,
        ),
    decreases up_distance(s),
{
    if at_top(s) {
        lemma_top_is_fixed_point(s);
    } else {
        lemma_repeated_up_reaches_top(EventList::spec_previous(s));
    }
}

/// Clearing the selection and then moving in either vertical direction
/// restores the selection at the remembered row — the row that was selected
/// when the selection was cleared, or row 0 if none was — and leaves the
/// window where it was.
pub proof fn lemma_unselect_then_move_restores(s: EventList)
    ensures
        EventList::spec_next(EventList::spec_unselect(s)).selection == Some(
            match s.selection {
                Some(i) => i,
                None => 0usize,
            },
        ),
        EventList::spec_previous(EventList::spec_unselect(s)).selection == Some(
            match s.selection {
                Some(i) => i,
                None => 0usize,
            },
        ),
        EventList::spec_next(EventList::spec_unselect(s)).window == s.window,
        EventList::spec_previous(EventList::spec_unselect(s)).window == s.window,
{
}

/// Every single horizontal navigation step keeps the offset within
/// `[0, max(0, max_width - inner_width)]`, and the ops that move right or
/// jump establish that bound on their own.
pub proof fn lemma_horizontal_ops_bounded(s: EventList)
    ensures
        s.horizontal_wf() ==> EventList::spec_scroll_left(s).horizontal_wf(),
        s.horizontal_wf() ==> EventList::spec_page_left(s).horizontal_wf(),
        EventList::spec_scroll_right(s).horizontal_wf(),
        EventList::spec_page_right(s).horizontal_wf(),
        EventList::spec_scroll_to_start(s).horizontal_wf(),
        EventList::spec_scroll_to_end(s).horizontal_wf(),
{
}

/// Repeating a one-column scroll right `n` times.
pub open spec fn iterate_scroll_right(s: EventList, n: nat) -> EventList
    decreases n,
{
    if n == 0 {
        s
    } else {
        iterate_scroll_right(EventList::spec_scroll_right(s), (n - 1) as nat)
    }
}

/// Scrolling right any number of times saturates at
/// `max(0, max_width - inner_width)` instead of overflowing: after `n`
/// scrolls the offset is exactly `min(offset + n, bound)`, and nothing else
/// changes.
pub proof fn lemma_scroll_right_saturates(s: EventList, n: nat)
    requires
        s.horizontal_wf(),
    ensures
        iterate_scroll_right(s, n).horizontal_offset == int_min(
            s.horizontal_offset + n,
            sat_sub(s.max_width as int, s.inner_width as int),
        ),
        iterate_scroll_right(s, n) == (EventList {
            horizontal_offset: iterate_scroll_right(s, n).horizontal_offset,
            ..s
        }),
    decreases n,
{
    if n > 0 {
        lemma_scroll_right_saturates(EventList::spec_scroll_right(s), (n - 1) as nat);
    }
}

/// The state after a whole sequence of input intents, applied first to last
/// through the list's intent entry point.
pub open spec fn spec_action_run(s: EventList, ops: Seq<Action>) -> EventList
    decreases ops.len(),
{
    if ops.len() == 0 {
        s
    } else {
        spec_action_run(EventList::spec_apply_action(s, ops.first()), ops.drop_first())
    }
}

/// One intent of any kind keeps the window well formed, keeps the
/// horizontal offset within its bound once it is there, and never touches
/// the log itself.
#[verifier::rlimit(50)]
pub proof fn lemma_intent_preserves_invariants(s: EventList, a: Action)
    requires
        s.window_wf(),
        s.items@.len() <= usize::MAX,
    ensures
        EventList::spec_apply_action(s, a).window_wf(),
        s.horizontal_wf() ==> EventList::spec_apply_action(s, a).horizontal_wf(),
        EventList::spec_apply_action(s, a).items == s.items,
        EventList::spec_apply_action(s, a).max_window_len == s.max_window_len,
        EventList::spec_apply_action(s, a).max_width == s.max_width,
        EventList::spec_apply_action(s, a).inner_width == s.inner_width,
{
}

/// Every sequence of input intents keeps the window well formed and the
/// horizontal offset within its bound, and leaves the log itself alone: the
/// windowing state can be corrupted by no gesture, in no order.
pub proof fn lemma_intent_run_preserves_invariants(s: EventList, ops: Seq<Action>)
    requires
        s.window_wf(),
        s.horizontal_wf(),
        s.items@.len() <= usize::MAX,
    ensures
        spec_action_run(s, ops).window_wf(),
        spec_action_run(s, ops).horizontal_wf(),
        spec_action_run(s, ops).items == s.items,
    decreases ops.len(),
{
    if ops.len() > 0 {
        lemma_intent_preserves_invariants(s, ops.first());
        lemma_intent_run_preserves_invariants(
            EventList::spec_apply_action(s, ops.first()),
            ops.drop_first(),
        );
    }
}

/// Pid reuse: after recording two generations under the same pid, the
/// second is the current (last) one, and the first stays in the history
/// right before it — the whole earlier history is kept, in order.
pub proof fn lemma_pid_reuse(m: Map<i32, Seq<ProcessState>>, s1: ProcessState, s2: ProcessState)
    requires
        s1.pid == s2.pid,
    ensures
        ({
            let m1 = m.insert(s1.pid, history_of(m, s1.pid).push(s1));
            let m2 = m1.insert(s2.pid, history_of(m1, s2.pid).push(s2));
            &&& m2[s2.pid] == history_of(m, s1.pid).push(s1).push(s2)
            &&& m2[s2.pid].last() == s2
            &&& m2[s2.pid][m2[s2.pid].len() - 2] == s1
        }),
{
}

} // verus!
