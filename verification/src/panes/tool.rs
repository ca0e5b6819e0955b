use vstd::prelude::*;
use crate::key::KeyInput;
use crate::msg::Msg;
use crate::pages::page::{spec_fresh, spec_page_step, Page};
use crate::panes::list::PageType;

verus! {

/// The pane that owns the single live page.  A select message replaces the
/// page wholesale, so no per-tool state survives a switch.
pub struct ToolPane {
    pub page: Page,
    pub focused: bool,
    pub help_visible: bool,
}

impl ToolPane {
    /// The mounted page is internally consistent and its focus flag agrees
    /// with the pane's.
    pub open spec fn wf(&self) -> bool {
        &&& self.page.wf()
        &&& self.page.spec_focused() == self.focused
    }

    pub fn new(focused: bool) -> (r: ToolPane)
        ensures
            r.focused == focused,
            r.help_visible == false,
            r.page.kind() == PageType::Uuid,
            spec_fresh(&r.page, PageType::Uuid, focused),
            r.wf(),
    {
        ToolPane { page: Page::new_for(PageType::Uuid, focused), focused, help_visible: false }
    }

    pub fn handle_key(&self, key: KeyInput) -> (r: Option<Msg>)
        ensures
            r == self.page.spec_handle_key(key),
    {
        self.page.handle_key(key)
    }

    /// Mounts a fresh page on a select message, forwards page messages to
    /// the live page, flips the help flag on the toggle message, and
    /// ignores the rest.
    pub fn update(&mut self, msg: &Msg) -> (r: Option<Msg>)
        requires
            old(self).wf(),
        ensures
            final(self).wf(),
            final(self).focused == old(self).focused,
            r matches Some(m) ==> m.is_notify(),
            match msg {
                Msg::ToolPaneSelectUuidPage => r is None && spec_fresh(
                    &final(self).page,
                    PageType::Uuid,
                    old(self).focused,
                ) && final(self).help_visible == old(self).help_visible,
                Msg::ToolPaneSelectUlidPage => r is None && spec_fresh(
                    &final(self).page,
                    PageType::Ulid,
                    old(self).focused,
                ) && final(self).help_visible == old(self).help_visible,
                Msg::ToolPaneSelectHashPage => r is None && spec_fresh(
                    &final(self).page,
                    PageType::Hash,
                    old(self).focused,
                ) && final(self).help_visible == old(self).help_visible,
                Msg::ToolPaneSelectUnixTimePage => r is None && spec_fresh(
                    &final(self).page,
                    PageType::UnixTime,
                    old(self).focused,
                ) && final(self).help_visible == old(self).help_visible,
                Msg::ToolPaneSelectNumberBasePage => r is None && spec_fresh(
                    &final(self).page,
                    PageType::NumberBase,
                    old(self).focused,
                ) && final(self).help_visible == old(self).help_visible,
                Msg::Page(pm) => spec_page_step(old(self).page, *pm, final(self).page, r)
                    && final(self).help_visible == old(self).help_visible,
                Msg::ToggleHelp => r is None && final(self).help_visible == !old(self).help_visible && final(self).page == old(self).page,
                _ => r is None && *final(self) == *old(self),
            },
    {
        match msg {
            Msg::ToolPaneSelectUuidPage => {
                self.page = Page::new_for(PageType::Uuid, self.focused);
                None
            },
            Msg::ToolPaneSelectUlidPage => {
                self.page = Page::new_for(PageType::Ulid, self.focused);
                None
            },
            Msg::ToolPaneSelectHashPage => {
                self.page = Page::new_for(PageType::Hash, self.focused);
                None
            },
            Msg::ToolPaneSelectUnixTimePage => {
                self.page = Page::new_for(PageType::UnixTime, self.focused);
                None
            },
            Msg::ToolPaneSelectNumberBasePage => {
                self.page = Page::new_for(PageType::NumberBase, self.focused);
                None
            },
            Msg::Page(page_msg) => self.page.update(page_msg),
            Msg::ToggleHelp => {
                self.help_visible = !self.help_visible;
                None
            },
            _ => None,
        }
    }

    pub fn focus(&mut self)
        requires
            old(self).wf(),
        ensures
            final(self).wf(),
            final(self).focused == true,
            final(self).page.kind() == old(self).page.kind(),
            final(self).help_visible == old(self).help_visible,
    {
        self.focused = true;
        self.page.focus();
    }

    /// Dropping focus also hides the help overlay.
    pub fn unfocus(&mut self)
        requires
            old(self).wf(),
        ensures
            final(self).wf(),
            final(self).focused == false,
            final(self).page.kind() == old(self).page.kind(),
            final(self).help_visible == false,
    {
        self.focused = false;
        self.page.unfocus();
        self.help_visible = false;
    }

    pub fn helps(&self) -> (r: Vec<&'static str>)
        ensures
            r@.map_values(|s: &str| s@) == self.page.spec_helps(),
    {
        self.page.helps()
    }
}

} // verus!
