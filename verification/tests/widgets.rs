use tuitools::widget::scroll::{RenderedViewport, ScrollBar, ScrollOutput, ScrollOutputState};
use tuitools::widget::select::{Emphasis, Select};

fn bar_column(lines_len: usize, offset: usize, height: u16) -> String {
    ScrollBar::new(lines_len, offset).render_rows(height).into_iter().collect()
}

#[test]
fn scroll_bar_top() {
    assert_eq!(bar_column(20, 0, 10), "│││││     ");
}

#[test]
fn scroll_bar_half_rows() {
    assert_eq!(bar_column(20, 1, 10), "╷││││╵    ");
    assert_eq!(bar_column(20, 2, 10), " │││││    ");
    assert_eq!(bar_column(20, 3, 10), " ╷││││╵   ");
}

#[test]
fn scroll_bar_bottom() {
    assert_eq!(bar_column(20, 9, 10), "    ╷││││╵");
    assert_eq!(bar_column(20, 10, 10), "     │││││");
}

#[test]
fn scroll_bar_thumb_never_vanishes() {
    // even with a thousand lines behind ten rows the thumb keeps a half-row
    let col = bar_column(1000, 0, 10);
    assert!(col.chars().any(|c| c != ' '));
}

#[test]
fn scroll_bar_monotone_thumb() {
    // thumb top never moves up as the offset grows
    let height = 10u16;
    let lines = 37usize;
    let mut last_top = 0usize;
    for offset in 0..=(lines - height as usize) {
        let col = bar_column(lines, offset, height);
        let top = col.chars().position(|c| c != ' ').unwrap();
        assert!(top >= last_top, "thumb moved up at offset {offset}");
        last_top = top;
    }
}

fn lines(n: usize) -> Vec<String> {
    (0..n).map(|i| format!("line {i}")).collect()
}

#[test]
fn viewport_clamps_stale_offset() {
    let out = ScrollOutput::new(lines(10), true, true);
    let mut state = ScrollOutputState::new(999);
    // height 7 shows 5 content rows, so the offset lands on 10 - 5
    let frame: RenderedViewport = out.render(7, &mut state);
    assert_eq!(state.offset, 5);
    assert_eq!(frame.lines.len(), 5);
    assert_eq!(frame.lines[0], "line 5");
    assert!(frame.bar.is_some());
}

#[test]
fn viewport_scrolled_to_bottom() {
    // any number of downward scrolls followed by a render lands at the bottom
    let out = ScrollOutput::new(lines(8), true, false);
    let mut state = ScrollOutputState::new(0);
    for _ in 0..50 {
        state.scroll_down();
    }
    out.render(5, &mut state);
    assert_eq!(state.offset, 5);
}

#[test]
fn viewport_scrolled_to_top() {
    let out = ScrollOutput::new(lines(8), true, false);
    let mut state = ScrollOutputState::new(4);
    for _ in 0..10 {
        state.scroll_up();
    }
    out.render(5, &mut state);
    assert_eq!(state.offset, 0);
}

#[test]
fn viewport_without_overflow_has_no_bar() {
    let out = ScrollOutput::new(lines(3), false, false);
    let mut state = ScrollOutputState::new(0);
    let frame = out.render(7, &mut state);
    assert_eq!(state.offset, 0);
    assert_eq!(frame.lines.len(), 3);
    assert!(frame.bar.is_none());
}

#[test]
fn scroll_state_steps_by_one() {
    let mut state = ScrollOutputState::new(0);
    state.scroll_up();
    assert_eq!(state.offset, 0);
    state.scroll_down();
    state.scroll_down();
    assert_eq!(state.offset, 2);
    state.scroll_up();
    assert_eq!(state.offset, 1);
}

#[test]
fn select_emphasis_follows_position() {
    let items: Vec<String> = vec!["a".into(), "b".into(), "c".into()];
    let sel = Select::new(items, 0, true, true);
    let (label, left, mid, right) = sel.render_parts();
    assert_eq!(label, "a");
    assert_eq!(left, Emphasis::Dimmed);
    assert_eq!(mid, Emphasis::Highlight);
    assert_eq!(right, Emphasis::Highlight);

    let items: Vec<String> = vec!["a".into(), "b".into(), "c".into()];
    let sel = Select::new(items, 2, false, true);
    let (label, left, mid, right) = sel.render_parts();
    assert_eq!(label, "c");
    assert_eq!(left, Emphasis::Plain);
    assert_eq!(mid, Emphasis::Plain);
    assert_eq!(right, Emphasis::Dimmed);
}

#[test]
fn select_disabled_dims_everything() {
    let items: Vec<String> = vec!["a".into(), "b".into()];
    let sel = Select::new(items, 1, true, false);
    let (_, left, mid, right) = sel.render_parts();
    assert_eq!(left, Emphasis::Dimmed);
    assert_eq!(mid, Emphasis::Dimmed);
    assert_eq!(right, Emphasis::Dimmed);
}

#[test]
fn scroll_bar_default_is_empty_light_bar() {
    let bar = ScrollBar::default();
    assert_eq!(bar.lines_len, 0);
    assert_eq!(bar.offset, 0);
    assert_eq!(bar.bar_char_set.full, '\u{2502}');
    assert_eq!(bar.bar_char_set.upper_half, '\u{2575}');
    assert_eq!(bar.bar_char_set.lower_half, '\u{2577}');
}
