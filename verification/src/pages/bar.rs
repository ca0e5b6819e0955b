use vstd::prelude::*;
use vstd::string::StringExecFns;
use crate::key::KeyInput;
use crate::msg::Msg;

verus! {

/// A placeholder page that reacts to nothing; it only tracks its focus flag
/// and paints a fixed line of text.
pub struct BarPage {
    pub focused: bool,
}

impl BarPage {
    pub fn new(focused: bool) -> (r: BarPage)
        ensures
            r.focused == focused,
    {
        BarPage { focused }
    }

    pub fn handle_key(&self, key: KeyInput) -> (r: Option<Msg>)
        ensures
            r is None,
    {
        let _ = key;
        None
    }

    pub fn update(&mut self, msg: &Msg) -> (r: Option<Msg>)
        ensures
            r is None,
            *final(self) == *old(self),
    {
        let _ = msg;
        None
    }

    /// The text the page paints.
    pub fn render_text(&self) -> (r: String)
        ensures
            r@ == "bar page"@,
    {
        String::from_str("bar page")
    }

    pub fn focus(&mut self)
        ensures
            final(self).focused == true,
    {
        self.focused = true;
    }

    pub fn unfocus(&mut self)
        ensures
            final(self).focused == false,
    {
        self.focused = false;
    }
}

} // verus!
