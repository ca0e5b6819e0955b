use tuitools::app::{App, Notification, PaneType};
use tuitools::key::KeyInput;
use tuitools::msg::{Msg, NumberBaseMsg, PageMsg};
use tuitools::pages::page::Page;
use tuitools::panes::list::PageType;

/// Runs the message trampoline exactly as the shell's key cycle does.
fn trampoline(app: &mut App, first: Msg) {
    let mut current = Some(first);
    let mut hops = 0;
    while let Some(msg) = current {
        current = app.update(msg);
        hops += 1;
        assert!(hops <= 8, "dispatch chain did not settle");
    }
}

#[test]
fn global_key_bindings() {
    let app = App::new();
    assert!(matches!(app.handle_key(KeyInput::Esc), Some(Msg::Quit)));
    assert!(matches!(app.handle_key(KeyInput::CtrlChar('c')), Some(Msg::Quit)));
    assert!(matches!(app.handle_key(KeyInput::Tab), Some(Msg::SwitchPane)));
    assert!(matches!(app.handle_key(KeyInput::Char('?')), Some(Msg::ToggleHelp)));
}

#[test]
fn list_pane_key_bindings() {
    let app = App::new();
    assert!(matches!(app.handle_key(KeyInput::Char('j')), Some(Msg::ListPaneSelectNext)));
    assert!(matches!(app.handle_key(KeyInput::Down), Some(Msg::ListPaneSelectNext)));
    assert!(matches!(app.handle_key(KeyInput::Char('k')), Some(Msg::ListPaneSelectPrev)));
    assert!(matches!(app.handle_key(KeyInput::Up), Some(Msg::ListPaneSelectPrev)));
    assert!(app.handle_key(KeyInput::Char('x')).is_none());
}

#[test]
fn unknown_key_changes_nothing() {
    let mut app = App::new();
    app.process_key(KeyInput::Char('x'));
    assert!(!app.quit);
    assert_eq!(app.list_pane.selected, PageType::Uuid);
    assert!(matches!(app.focused, PaneType::List));
}

#[test]
fn quit_sets_stop_flag() {
    let mut app = App::new();
    assert!(!app.quit);
    trampoline(&mut app, Msg::Quit);
    assert!(app.quit);
}

#[test]
fn switch_pane_moves_focus_to_tool() {
    let mut app = App::new();
    assert!(app.list_pane.focused);
    assert!(!app.tool_pane.focused);
    trampoline(&mut app, Msg::SwitchPane);
    assert!(matches!(app.focused, PaneType::Tool));
    assert!(!app.list_pane.focused);
    assert!(app.tool_pane.focused);
}

#[test]
fn switch_pane_twice_restores_focus() {
    let mut app = App::new();
    trampoline(&mut app, Msg::SwitchPane);
    trampoline(&mut app, Msg::SwitchPane);
    assert!(matches!(app.focused, PaneType::List));
    assert!(app.list_pane.focused);
    assert!(!app.tool_pane.focused);
    // exactly one pane reports focus at every step
    assert!(app.list_pane.focused != app.tool_pane.focused);
}

#[test]
fn toggle_help_flips_tool_overlay() {
    let mut app = App::new();
    assert!(!app.tool_pane.help_visible);
    trampoline(&mut app, Msg::ToggleHelp);
    assert!(app.tool_pane.help_visible);
    trampoline(&mut app, Msg::ToggleHelp);
    assert!(!app.tool_pane.help_visible);
}

#[test]
fn unfocus_hides_help_overlay() {
    let mut app = App::new();
    trampoline(&mut app, Msg::SwitchPane);
    trampoline(&mut app, Msg::ToggleHelp);
    assert!(app.tool_pane.help_visible);
    // moving focus back to the list unfocuses the tool pane
    trampoline(&mut app, Msg::SwitchPane);
    assert!(!app.tool_pane.help_visible);
}

#[test]
fn list_select_next_swaps_tool_page_in_two_hops() {
    let mut app = App::new();
    let follow_up = app.update(Msg::ListPaneSelectNext);
    assert!(matches!(follow_up, Some(Msg::ToolPaneSelectUlidPage)));
    assert_eq!(app.list_pane.selected, PageType::Ulid);
    // the tool pane has not moved yet
    assert!(matches!(app.tool_pane.page, Page::Uuid(_)));
    let end = app.update(follow_up.unwrap());
    assert!(end.is_none());
    assert!(matches!(app.tool_pane.page, Page::Ulid(_)));
}

#[test]
fn list_selection_cycles_through_all_pages() {
    let mut app = App::new();
    let expect = [
        PageType::Ulid,
        PageType::Hash,
        PageType::UnixTime,
        PageType::NumberBase,
        PageType::Uuid,
    ];
    for e in expect {
        trampoline(&mut app, Msg::ListPaneSelectNext);
        assert_eq!(app.list_pane.selected, e);
    }
}

#[test]
fn list_select_prev_wraps_to_last() {
    let mut app = App::new();
    assert_eq!(app.list_pane.selected, PageType::Uuid);
    trampoline(&mut app, Msg::ListPaneSelectPrev);
    assert_eq!(app.list_pane.selected, PageType::NumberBase);
    assert!(matches!(app.tool_pane.page, Page::NumberBase(_)));
}

#[test]
fn five_pages_scenario() {
    // Start with the first page selected and mounted; four steps forward
    // land on the last page, a fifth wraps back to the first, and the tool
    // pane follows, discarding the prior page's state.
    let mut app = App::new();
    assert_eq!(app.list_pane.selected, PageType::Uuid);
    assert!(matches!(app.tool_pane.page, Page::Uuid(_)));
    for _ in 0..4 {
        trampoline(&mut app, Msg::ListPaneSelectNext);
    }
    assert_eq!(app.list_pane.selected, PageType::NumberBase);
    assert!(matches!(app.tool_pane.page, Page::NumberBase(_)));

    // leave an unsaved edit in the number base page
    trampoline(
        &mut app,
        Msg::Page(PageMsg::NumberBase(NumberBaseMsg::EditStart)),
    );
    trampoline(
        &mut app,
        Msg::Page(PageMsg::NumberBase(NumberBaseMsg::EditKeyEvent(KeyInput::Char('1')))),
    );
    if let Page::NumberBase(p) = &app.tool_pane.page {
        assert!(p.cur.edit);
        assert_eq!(p.cur.binary_input.value(), "1");
    } else {
        panic!("number base page expected");
    }

    trampoline(&mut app, Msg::ListPaneSelectNext);
    assert_eq!(app.list_pane.selected, PageType::Uuid);
    assert!(matches!(app.tool_pane.page, Page::Uuid(_)));

    // going back shows a fresh page: the edit is gone
    for _ in 0..4 {
        trampoline(&mut app, Msg::ListPaneSelectNext);
    }
    if let Page::NumberBase(p) = &app.tool_pane.page {
        assert!(!p.cur.edit);
        assert_eq!(p.cur.binary_input.value(), "");
    } else {
        panic!("number base page expected");
    }
}

#[test]
fn notification_set_and_cleared_by_next_key() {
    let mut app = App::new();
    trampoline(&mut app, Msg::NotifyInfo("hello".to_string()));
    assert!(matches!(&app.notification, Notification::Info(s) if s == "hello"));
    app.process_key(KeyInput::Char('x'));
    assert!(matches!(app.notification, Notification::Empty));
}

#[test]
fn notify_levels_fill_the_slot() {
    let mut app = App::new();
    trampoline(&mut app, Msg::NotifyWarn("w".to_string()));
    assert!(matches!(&app.notification, Notification::Warn(s) if s == "w"));
    trampoline(&mut app, Msg::NotifyError("e".to_string()));
    assert!(matches!(&app.notification, Notification::Error(s) if s == "e"));
}

#[test]
fn process_key_runs_whole_cycle() {
    let mut app = App::new();
    app.process_key(KeyInput::Char('j'));
    assert_eq!(app.list_pane.selected, PageType::Ulid);
    assert!(matches!(app.tool_pane.page, Page::Ulid(_)));
}

#[test]
fn tool_pane_ignores_unwired_select_messages() {
    let mut app = App::new();
    trampoline(&mut app, Msg::ToolPaneSelectBase64Page);
    trampoline(&mut app, Msg::ToolPaneSelectUrlPage);
    assert!(matches!(app.tool_pane.page, Page::Uuid(_)));
}

#[test]
fn help_lines_follow_focused_pane() {
    let app = App::new();
    let lines = app.help_lines(80);
    assert_eq!(lines, vec!["<j/k> Select item, <Tab> Switch pane".to_string()]);
    let narrow = app.help_lines(20);
    assert_eq!(
        narrow,
        vec!["<j/k> Select item".to_string(), "<Tab> Switch pane".to_string()]
    );
}

#[test]
fn edit_mode_suppresses_global_bindings() {
    let mut app = App::new();
    // focus the tool pane and mount the number base page
    trampoline(&mut app, Msg::SwitchPane);
    trampoline(&mut app, Msg::ToolPaneSelectNumberBasePage);
    trampoline(
        &mut app,
        Msg::Page(PageMsg::NumberBase(NumberBaseMsg::EditStart)),
    );
    // while editing, a question mark is text, not the help toggle
    app.process_key(KeyInput::Char('?'));
    assert!(!app.tool_pane.help_visible);
    if let Page::NumberBase(p) = &app.tool_pane.page {
        assert_eq!(p.cur.binary_input.value(), "?");
        assert!(p.cur.edit);
    } else {
        panic!("number base page expected");
    }
    // the edit terminator ends the edit instead of quitting
    app.process_key(KeyInput::Esc);
    assert!(!app.quit);
    if let Page::NumberBase(p) = &app.tool_pane.page {
        assert!(!p.cur.edit);
    } else {
        panic!("number base page expected");
    }
    // out of the edit sub-state the same key quits
    app.process_key(KeyInput::Esc);
    assert!(app.quit);
}

#[test]
fn toggle_help_keeps_notification() {
    let mut app = App::new();
    trampoline(&mut app, Msg::NotifyInfo("kept".to_string()));
    trampoline(&mut app, Msg::ToggleHelp);
    assert!(matches!(&app.notification, Notification::Info(s) if s == "kept"));
}
