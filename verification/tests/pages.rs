use tuitools::key::KeyInput;
use tuitools::msg::Msg;
use tuitools::pages::bar::BarPage;
use tuitools::pages::base64::{calculate_base64, EncodeOrDecodeSelect};
use tuitools::pages::foo::FooPage;
use tuitools::panes::list::{ListPane, PageType};

#[test]
fn bar_page_reacts_to_nothing() {
    let mut page = BarPage::new(false);
    assert!(!page.focused);
    assert!(page.handle_key(KeyInput::Char('j')).is_none());
    assert!(page.update(&Msg::Quit).is_none());
    assert_eq!(page.render_text(), "bar page");
    page.focus();
    assert!(page.focused);
    page.unfocus();
    assert!(!page.focused);
}

#[test]
fn foo_page_offers_one_hint() {
    let mut page = FooPage::new(true);
    assert!(page.handle_key(KeyInput::Enter).is_none());
    assert!(page.update(&Msg::SwitchPane).is_none());
    assert_eq!(page.render_text(), "foo page");
    assert_eq!(page.helps(), vec!["foo help"]);
    page.unfocus();
    assert!(!page.focused);
}

#[test]
fn base64_decode_replaces_ill_formed_text() {
    // "/w==" decodes to the single byte 0xff, which is no text
    assert_eq!(
        calculate_base64("/w==", EncodeOrDecodeSelect::Decode),
        "\u{fffd}"
    );
}

#[test]
fn page_type_labels_and_values() {
    let labels = PageType::strings_vec();
    assert_eq!(labels, vec!["UUID", "ULID", "Hash", "Unix time", "Number base"]);
    assert_eq!(PageType::Uuid.val(), 0);
    assert_eq!(PageType::NumberBase.val(), 4);
    assert_eq!(PageType::Uuid.str(), "UUID");
    assert_eq!(PageType::NumberBase.next(), PageType::Uuid);
    assert_eq!(PageType::Uuid.prev(), PageType::NumberBase);
}

#[test]
fn list_pane_emits_select_messages() {
    let mut pane = ListPane::new(true);
    let r = pane.update(&Msg::ListPaneSelectNext);
    assert_eq!(pane.selected, PageType::Ulid);
    assert!(matches!(r, Some(Msg::ToolPaneSelectUlidPage)));
    let r = pane.update(&Msg::ListPaneSelectPrev);
    assert_eq!(pane.selected, PageType::Uuid);
    assert!(matches!(r, Some(Msg::ToolPaneSelectUuidPage)));
    // everything else is ignored
    assert!(pane.update(&Msg::ToggleHelp).is_none());
    assert_eq!(pane.selected, PageType::Uuid);
}

#[test]
fn list_pane_helps() {
    let pane = ListPane::new(true);
    assert_eq!(pane.helps(), vec!["<j/k> Select item", "<Tab> Switch pane"]);
}
