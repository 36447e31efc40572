use tracexec::action::Action;
use tracexec::event_list::{DisplayEvent, EventList};

fn event(i: usize) -> DisplayEvent {
    DisplayEvent {
        text: format!("event {i}"),
    }
}

fn list_of(n: usize, max_window_len: usize) -> EventList {
    let mut l = EventList::new(false);
    for i in 0..n {
        l.items.push(event(i));
    }
    l.max_window_len = max_window_len;
    l
}

fn assert_window_wf(l: &EventList) {
    assert!(l.window.0 <= l.window.1);
    assert!(l.window.1 - l.window.0 <= l.max_window_len);
    assert!(l.window.0 <= l.items.len());
}

#[test]
fn new_list_is_empty_and_unselected() {
    let l = EventList::new(true);
    assert!(l.items.is_empty());
    assert_eq!(l.window, (0, 0));
    assert_eq!(l.nr_items_in_window, 0);
    assert_eq!(l.selection, None);
    assert_eq!(l.last_selected, None);
    assert_eq!(l.horizontal_offset, 0);
    assert_eq!(l.max_width, 0);
    assert!(l.follow);
    assert!(!EventList::new(false).follow);
}

#[test]
fn follow_toggles_and_stops() {
    let mut l = EventList::new(false);
    l.toggle_follow();
    assert!(l.follow);
    l.toggle_follow();
    assert!(!l.follow);
    l.toggle_follow();
    l.stop_follow();
    assert!(!l.follow);
}

#[test]
fn scroll_to_top_then_bottom_on_hundred_items() {
    let mut l = list_of(100, 10);
    l.scroll_to_top();
    assert_eq!(l.window, (0, 10));
    l.scroll_to_bottom();
    assert_eq!(l.window, (90, 100));
}

#[test]
fn page_down_near_end_clamps_to_tail() {
    let mut l = list_of(95, 10);
    l.window = (88, 95);
    l.page_down();
    assert_eq!(l.window, (85, 95));
}

#[test]
fn page_down_with_room_slides_a_full_page() {
    let mut l = list_of(95, 10);
    l.window = (0, 10);
    l.page_down();
    assert_eq!(l.window, (10, 20));
}

#[test]
fn page_up_near_head_clamps_to_head() {
    let mut l = list_of(95, 10);
    l.window = (3, 13);
    l.page_up();
    assert_eq!(l.window, (0, 10));
    l.window = (40, 50);
    l.page_up();
    assert_eq!(l.window, (30, 40));
}

#[test]
fn jumps_on_a_short_log_clamp_to_its_end() {
    // A log shorter than the viewport: the window covers the whole log and
    // never reaches past its end.
    let mut l = list_of(5, 10);
    l.scroll_to_top();
    assert_eq!(l.window, (0, 5));
    l.scroll_to_bottom();
    assert_eq!(l.window, (0, 5));
    l.page_down();
    assert_eq!(l.window, (0, 5));
    l.page_up();
    assert_eq!(l.window, (0, 5));
}

#[test]
fn follow_mode_window_grows_with_a_short_log() {
    let mut l = EventList::new(true);
    l.max_window_len = 10;
    for i in 0..3 {
        l.push_event(event(i));
        assert_eq!(l.window, (0, i + 1));
    }
}

#[test]
fn window_stays_well_formed_under_any_vertical_sequence() {
    let mut l = list_of(95, 10);
    l.window = (0, 10);
    l.nr_items_in_window = 10;
    l.selection = Some(0);
    // A representative mix of every vertical gesture.
    for step in 0..60 {
        match step % 8 {
            0 => l.next(),
            1 => l.page_down(),
            2 => l.previous(),
            3 => l.scroll_to_bottom(),
            4 => l.page_up(),
            5 => l.unselect(),
            6 => l.scroll_to_top(),
            _ => l.next(),
        }
        assert_window_wf(&l);
        assert!(l.window.1 <= l.items.len());
        // Keep the render bookkeeping current, as the frame loop does.
        l.nr_items_in_window = l.window.1.min(l.items.len()) - l.window.0;
    }
}

#[test]
fn moving_down_reaches_a_fixed_point_at_the_bottom() {
    let mut l = list_of(25, 10);
    l.window = (0, 10);
    l.nr_items_in_window = 10;
    l.selection = Some(0);
    for _ in 0..100 {
        l.next();
        l.nr_items_in_window = l.window.1.min(l.items.len()) - l.window.0;
    }
    assert_eq!(l.window, (15, 25));
    assert_eq!(l.selection, Some(9));
    // Once at the bottom, moving down changes nothing.
    let (window, selection) = (l.window, l.selection);
    l.next();
    assert_eq!(l.window, window);
    assert_eq!(l.selection, selection);
}

#[test]
fn moving_up_reaches_a_fixed_point_at_the_top() {
    let mut l = list_of(25, 10);
    l.window = (15, 25);
    l.nr_items_in_window = 10;
    l.selection = Some(9);
    for _ in 0..100 {
        l.previous();
    }
    assert_eq!(l.window, (0, 10));
    assert_eq!(l.selection, Some(0));
    l.previous();
    assert_eq!(l.window, (0, 10));
    assert_eq!(l.selection, Some(0));
}

#[test]
fn next_slides_window_at_last_row() {
    let mut l = list_of(20, 5);
    l.window = (0, 5);
    l.nr_items_in_window = 5;
    l.selection = Some(4);
    l.next();
    assert_eq!(l.window, (1, 6));
    assert_eq!(l.selection, Some(4));
}

#[test]
fn previous_slides_window_at_first_row() {
    let mut l = list_of(20, 5);
    l.window = (3, 8);
    l.nr_items_in_window = 5;
    l.selection = Some(0);
    l.previous();
    assert_eq!(l.window, (2, 7));
    assert_eq!(l.selection, Some(0));
}

#[test]
fn unselect_then_move_restores_remembered_row() {
    let mut l = list_of(30, 10);
    l.window = (5, 15);
    l.nr_items_in_window = 10;
    l.selection = Some(7);
    l.unselect();
    assert_eq!(l.selection, None);
    assert_eq!(l.last_selected, Some(7));
    assert_eq!(l.window, (5, 15));
    l.next();
    assert_eq!(l.selection, Some(7));
    assert_eq!(l.window, (5, 15));
}

#[test]
fn unselect_without_selection_restores_row_zero() {
    let mut l = list_of(30, 10);
    l.window = (5, 15);
    l.nr_items_in_window = 10;
    l.selection = None;
    l.unselect();
    l.previous();
    assert_eq!(l.selection, Some(0));
    assert_eq!(l.window, (5, 15));
}

#[test]
fn horizontal_offset_saturates_on_both_sides() {
    let mut l = list_of(5, 5);
    l.max_width = 40;
    l.inner_width = 10;
    // Scrolling right max_width times saturates at max_width - inner_width.
    for _ in 0..40 {
        l.scroll_right();
        assert!(l.horizontal_offset <= 30);
    }
    assert_eq!(l.horizontal_offset, 30);
    l.scroll_right();
    assert_eq!(l.horizontal_offset, 30);
    // And scrolling left saturates at zero.
    for _ in 0..100 {
        l.scroll_left();
    }
    assert_eq!(l.horizontal_offset, 0);
    l.scroll_left();
    assert_eq!(l.horizontal_offset, 0);
}

#[test]
fn horizontal_paging_and_jumps_clamp() {
    let mut l = list_of(5, 5);
    l.max_width = 35;
    l.inner_width = 10;
    l.page_right();
    assert_eq!(l.horizontal_offset, 10);
    l.page_right();
    assert_eq!(l.horizontal_offset, 20);
    l.page_right();
    assert_eq!(l.horizontal_offset, 25);
    l.page_right();
    assert_eq!(l.horizontal_offset, 25);
    l.page_left();
    assert_eq!(l.horizontal_offset, 15);
    l.scroll_to_end();
    assert_eq!(l.horizontal_offset, 25);
    l.scroll_to_start();
    assert_eq!(l.horizontal_offset, 0);
    // A viewport wider than the widest line never scrolls.
    l.inner_width = 60;
    l.scroll_right();
    assert_eq!(l.horizontal_offset, 0);
    l.scroll_to_end();
    assert_eq!(l.horizontal_offset, 0);
}

#[test]
fn render_records_widths_and_counts() {
    let mut l = list_of(8, 5);
    l.window = (2, 7);
    let widths = vec![12, 90, 33, 15, 40];
    l.render(81, &widths);
    assert_eq!(l.inner_width, 80);
    assert_eq!(l.nr_items_in_window, 5);
    assert_eq!(l.max_width, 90);
    // The maximum never shrinks on a later, narrower frame.
    l.render(41, &vec![10, 10, 10, 10, 10]);
    assert_eq!(l.inner_width, 40);
    assert_eq!(l.max_width, 90);
    // A window past the end of the log counts only what exists.
    l.window = (6, 11);
    l.render(41, &vec![5, 5]);
    assert_eq!(l.nr_items_in_window, 2);
}

#[test]
fn window_slices_only_existing_items() {
    let l = list_of(6, 10);
    let slice = EventList::window(&l.items, (2, 9));
    assert_eq!(slice.len(), 4);
    assert_eq!(slice[0].text, "event 2");
    assert_eq!(slice[3].text, "event 5");
    let all = EventList::window(&l.items, (0, 6));
    assert_eq!(all.len(), 6);
    let empty = EventList::window(&l.items, (6, 6));
    assert!(empty.is_empty());
}

#[test]
fn apply_action_dispatches_navigation_intents() {
    let mut l = list_of(30, 10);
    l.window = (0, 10);
    l.nr_items_in_window = 10;
    l.selection = Some(3);
    l.max_width = 50;
    l.inner_width = 20;
    l.apply_action(Action::NextItem);
    assert_eq!(l.selection, Some(4));
    l.apply_action(Action::PrevItem);
    assert_eq!(l.selection, Some(3));
    l.apply_action(Action::PageDown);
    assert_eq!(l.window, (10, 20));
    l.apply_action(Action::ScrollToTop);
    assert_eq!(l.window, (0, 10));
    l.apply_action(Action::ScrollRight);
    assert_eq!(l.horizontal_offset, 1);
    l.apply_action(Action::ScrollToEnd);
    assert_eq!(l.horizontal_offset, 30);
    l.apply_action(Action::ToggleFollow);
    assert!(l.follow);
    l.apply_action(Action::StopFollow);
    assert!(!l.follow);
    // An intent that is not navigation leaves the list alone.
    let window = l.window;
    l.apply_action(Action::Quit);
    assert_eq!(l.window, window);
    assert_eq!(l.selection, Some(3));
}

#[test]
fn push_event_repins_window_only_in_follow_mode() {
    let mut l = list_of(12, 10);
    l.window = (0, 10);
    l.push_event(event(12));
    assert_eq!(l.items.len(), 13);
    assert_eq!(l.window, (0, 10));
    l.follow = true;
    l.push_event(event(13));
    assert_eq!(l.items.len(), 14);
    assert_eq!(l.window, (4, 14));
    assert_eq!(l.items[13].text, "event 13");
}
