use vstd::prelude::*;
use vstd::string::StringExecFns;
use crate::key::KeyInput;
use crate::msg::Msg;

verus! {

/// A placeholder page that reacts to nothing; it only tracks its focus flag,
/// paints a fixed line of text, and offers one hint string.
pub struct FooPage {
    pub focused: bool,
}

impl FooPage {
    pub fn new(focused: bool) -> (r: FooPage)
        ensures
            r.focused == focused,
    {
        FooPage { focused }
    }

    pub fn handle_key(&self, key: KeyInput) -> (r: Option<Msg>)
        ensures
            r is None,
    {
        let _ = key;
        None
    }

    pub fn update(&mut self, msg: &Msg) -> (r: Option<Msg>)
        ensures
            r is None,
            *final(self) == *old(self),
    {
        let _ = msg;
        None
    }

    /// The text the page paints.
    pub fn render_text(&self) -> (r: String)
        ensures
            r@ == "foo page"@,
    {
        String::from_str("foo page")
    }

    pub fn focus(&mut self)
        ensures
            final(self).focused == true,
    {
        self.focused = true;
    }

    pub fn unfocus(&mut self)
        ensures
            final(self).focused == false,
    {
        self.focused = false;
    }

    pub fn helps(&self) -> (r: Vec<&'static str>)
        ensures
            r@.len() == 1,
            r@[0]@ == "foo help"@,
    {
        let mut v: Vec<&'static str> = Vec::new();
        v.push("foo help");
        v
    }
}

} // verus!
