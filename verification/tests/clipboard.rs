use tuitools::msg::{Base64Msg, Msg};
use tuitools::pages::base64::{Base64Page, PageItems};
use tuitools::pages::util::copy_to_clipboard;

#[test]
fn copy_always_reports_an_outcome() {
    // with or without a clipboard available, the caller gets a notification
    let r = copy_to_clipboard("hello");
    match r {
        Some(Msg::NotifyInfo(s)) => assert_eq!(s, "Copy to clipboard succeeded"),
        Some(Msg::NotifyError(s)) => assert_eq!(s, "Copy to clipboard failed"),
        other => panic!("unexpected result: {other:?}"),
    }
}

#[test]
fn base64_copy_only_from_output_field() {
    let mut page = Base64Page::new(true);
    // the cursor starts on the direction selector, so copying does nothing
    assert!(page.update(Base64Msg::Copy).is_none());
    page.update(Base64Msg::SelectNextItem);
    page.update(Base64Msg::SelectNextItem);
    assert!(matches!(page.cur.item, PageItems::Output));
    let r = page.update(Base64Msg::Copy);
    match r {
        Some(Msg::NotifyInfo(_)) | Some(Msg::NotifyError(_)) => {},
        other => panic!("unexpected result: {other:?}"),
    }
}
