use vstd::prelude::*;
use vstd::string::StringExecFns;
use crate::msg::Msg;

verus! {

/// Relies on `arboard::Clipboard`: `new` opens the system clipboard and
/// `set_text` puts the text on it.  Whether the call succeeds depends on the
/// environment, so nothing is promised beyond the returned flag.
#[verifier::external_body]
fn clipboard_set_text(text: &str) -> bool {
    arboard::Clipboard::new().and_then(|mut c| c.set_text(text)).is_ok()
}

/// Writes the text to the system clipboard and reports the outcome as a
/// notification message: an info message on success, an error message when
/// the clipboard is unavailable, and never nothing.
pub fn copy_to_clipboard(text: &str) -> (r: Option<Msg>)
    ensures
        r is Some,
        r matches Some(m) ==> m is NotifyInfo || m is NotifyError,
        r matches Some(m) && m matches Msg::NotifyInfo(s) ==> s@ == "Copy to clipboard succeeded"@,
        r matches Some(m) && m matches Msg::NotifyError(s) ==> s@ == "Copy to clipboard failed"@,
{
    if clipboard_set_text(text) {
        Some(Msg::NotifyInfo(String::from_str("Copy to clipboard succeeded")))
    } else {
        Some(Msg::NotifyError(String::from_str("Copy to clipboard failed")))
    }
}

/// Relies on `arboard::Clipboard`: `new` opens the system clipboard and
/// `get_text` reads it.  The result depends on the environment, so nothing
/// can be promised of the text that comes back.
#[verifier::external_body]
pub fn paste_from_clipboard() -> Option<String> {
    arboard::Clipboard::new().and_then(|mut c| c.get_text()).ok()
}

} // verus!
