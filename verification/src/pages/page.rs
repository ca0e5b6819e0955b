use vstd::prelude::*;
use crate::key::KeyInput;
use crate::msg::{Msg, PageMsg};
use crate::pages::hash::HashPage;
use crate::pages::number::NumberBasePage;
use crate::pages::ulid::UlidPage;
use crate::pages::unixtime::UnixTimePage;
use crate::pages::uuid::UuidPage;
use crate::panes::list::PageType;

verus! {

/// The page mounted in the tool pane: a closed union over the registered
/// tools, dispatched by exhaustive match.
pub enum Page {
    Uuid(UuidPage),
    Ulid(UlidPage),
    Hash(HashPage),
    UnixTime(UnixTimePage),
    NumberBase(NumberBasePage),
}

impl Page {
    /// Which tool the page is.
    pub open spec fn kind(&self) -> PageType {
        match self {
            Page::Uuid(_) => PageType::Uuid,
            Page::Ulid(_) => PageType::Ulid,
            Page::Hash(_) => PageType::Hash,
            Page::UnixTime(_) => PageType::UnixTime,
            Page::NumberBase(_) => PageType::NumberBase,
        }
    }

    /// Whether the page is in its modal edit sub-state, during which every
    /// key except the edit terminator is forwarded into the edited field.
    pub open spec fn spec_in_edit(&self) -> bool {
        match self {
            Page::UnixTime(p) => p.cur.edit,
            Page::NumberBase(p) => p.cur.edit,
            _ => false,
        }
    }

    pub fn in_edit(&self) -> (r: bool)
        ensures
            r == self.spec_in_edit(),
    {
        match self {
            Page::UnixTime(p) => p.cur.edit,
            Page::NumberBase(p) => p.cur.edit,
            _ => false,
        }
    }

    /// The page's own focus flag.
    pub open spec fn spec_focused(&self) -> bool {
        match self {
            Page::Uuid(p) => p.focused,
            Page::Ulid(p) => p.focused,
            Page::Hash(p) => p.focused,
            Page::UnixTime(p) => p.focused,
            Page::NumberBase(p) => p.focused,
        }
    }

    /// The internal invariant of whichever page is mounted.
    pub open spec fn wf(&self) -> bool {
        match self {
            Page::Uuid(p) => p.wf(),
            Page::Ulid(p) => p.wf(),
            Page::Hash(p) => p.output_ok(),
            Page::UnixTime(p) => p.wf(),
            Page::NumberBase(p) => p.wf(),
        }
    }

    /// A brand-new page for the tool, seeded with the focus flag.
    pub fn new_for(id: PageType, focused: bool) -> (r: Page)
        ensures
            r.kind() == id,
            r.spec_focused() == focused,
            r.wf(),
            spec_fresh(&r, id, focused),
    {
        match id {
            PageType::Uuid => Page::Uuid(UuidPage::new(focused)),
            PageType::Ulid => Page::Ulid(UlidPage::new(focused)),
            PageType::Hash => Page::Hash(HashPage::new(focused)),
            PageType::UnixTime => Page::UnixTime(UnixTimePage::new(focused)),
            PageType::NumberBase => Page::NumberBase(NumberBasePage::new(focused)),
        }
    }

    /// The page-local key bindings of the mounted page.
    pub fn handle_key(&self, key: KeyInput) -> (r: Option<Msg>)
        ensures
            r == self.spec_handle_key(key),
    {
        match self {
            Page::Uuid(p) => p.handle_key(key),
            Page::Ulid(p) => p.handle_key(key),
            Page::Hash(p) => p.handle_key(key),
            Page::UnixTime(p) => p.handle_key(key),
            Page::NumberBase(p) => p.handle_key(key),
        }
    }

    pub open spec fn spec_handle_key(&self, key: KeyInput) -> Option<Msg> {
        match self {
            Page::Uuid(_) => crate::pages::uuid::spec_uuid_key_msg(key),
            Page::Ulid(_) => crate::pages::ulid::spec_ulid_key_msg(key),
            Page::Hash(_) => crate::pages::hash::spec_hash_key_msg(key),
            Page::UnixTime(p) => crate::pages::unixtime::spec_unixtime_key_msg(p.cur.edit, key),
            Page::NumberBase(p) => crate::pages::number::spec_number_key_msg(p.cur.edit, key),
        }
    }

    /// Routes a page message to the mounted page; a message meant for
    /// another tool is ignored.  For the mounted tool the step is exactly
    /// that page's own dispatch step.
    pub fn update(&mut self, msg: &PageMsg) -> (r: Option<Msg>)
        requires
            old(self).wf(),
        ensures
            final(self).wf(),
            spec_page_step(*old(self), *msg, *final(self), r),
    {
        match self {
            Page::Uuid(p) => match msg {
                PageMsg::Uuid(m) => p.update(*m),
                _ => None,
            },
            Page::Ulid(p) => match msg {
                PageMsg::Ulid(m) => p.update(*m),
                _ => None,
            },
            Page::Hash(p) => match msg {
                PageMsg::Hash(m) => p.update(*m),
                _ => None,
            },
            Page::UnixTime(p) => match msg {
                PageMsg::UnixTime(m) => p.update(*m),
                _ => None,
            },
            Page::NumberBase(p) => match msg {
                PageMsg::NumberBase(m) => p.update(*m),
                _ => None,
            },
        }
    }

    pub fn focus(&mut self)
        requires
            old(self).wf(),
        ensures
            final(self).wf(),
            final(self).kind() == old(self).kind(),
            final(self).spec_focused() == true,
    {
        match self {
            Page::Uuid(p) => p.focus(),
            Page::Ulid(p) => p.focus(),
            Page::Hash(p) => p.focus(),
            Page::UnixTime(p) => p.focus(),
            Page::NumberBase(p) => p.focus(),
        }
    }

    pub fn unfocus(&mut self)
        requires
            old(self).wf(),
        ensures
            final(self).wf(),
            final(self).kind() == old(self).kind(),
            final(self).spec_focused() == false,
    {
        match self {
            Page::Uuid(p) => p.unfocus(),
            Page::Ulid(p) => p.unfocus(),
            Page::Hash(p) => p.unfocus(),
            Page::UnixTime(p) => p.unfocus(),
            Page::NumberBase(p) => p.unfocus(),
        }
    }

    /// The context-sensitive hint strings of the mounted page.
    pub fn helps(&self) -> (r: Vec<&'static str>)
        ensures
            r@.map_values(|s: &str| s@) == self.spec_helps(),
    {
        match self {
            Page::Uuid(p) => p.helps(),
            Page::Ulid(p) => p.helps(),
            Page::Hash(p) => p.helps(),
            Page::UnixTime(p) => p.helps(),
            Page::NumberBase(p) => p.helps(),
        }
    }

    pub open spec fn spec_helps(&self) -> Seq<Seq<char>> {
        match self {
            Page::Uuid(p) => crate::pages::uuid::spec_uuid_helps(p.cur.item),
            Page::Ulid(p) => crate::pages::ulid::spec_ulid_helps(p.cur.item),
            Page::Hash(p) => crate::pages::hash::spec_hash_helps(p.cur.item),
            Page::UnixTime(p) => crate::pages::unixtime::spec_unixtime_helps(
                p.cur.edit,
                p.cur.item,
            ),
            Page::NumberBase(p) => crate::pages::number::spec_number_helps(p.cur.edit),
        }
    }
}

/// The registered page kind a message is addressed to; the base64 and URL
/// messages address pages outside the registered set.
pub open spec fn spec_msg_kind(msg: &PageMsg) -> Option<PageType> {
    match msg {
        PageMsg::Uuid(_) => Some(PageType::Uuid),
        PageMsg::Ulid(_) => Some(PageType::Ulid),
        PageMsg::Hash(_) => Some(PageType::Hash),
        PageMsg::UnixTime(_) => Some(PageType::UnixTime),
        PageMsg::NumberBase(_) => Some(PageType::NumberBase),
        PageMsg::Base64(_) => None,
        PageMsg::Url(_) => None,
    }
}

/// One dispatch step of the mounted page: a message addressed to the
/// mounted tool takes exactly that page's own dispatch step; a message
/// addressed to any other tool changes nothing and answers nothing.
pub open spec fn spec_page_step(pre: Page, msg: PageMsg, post: Page, r: Option<Msg>) -> bool {
    &&& post.kind() == pre.kind()
    &&& post.spec_focused() == pre.spec_focused()
    &&& (r matches Some(m) ==> m.is_notify())
    &&& (spec_msg_kind(&msg) != Some(pre.kind()) ==> post == pre && r is None)
    &&& match msg {
        PageMsg::Uuid(m) => pre matches Page::Uuid(p0) ==> (post matches Page::Uuid(p1)
            && crate::pages::uuid::spec_uuid_step(p0, m, p1, r)),
        PageMsg::Ulid(m) => pre matches Page::Ulid(p0) ==> (post matches Page::Ulid(p1)
            && crate::pages::ulid::spec_ulid_step(p0, m, p1, r)),
        PageMsg::Hash(m) => pre matches Page::Hash(p0) ==> (post matches Page::Hash(p1)
            && crate::pages::hash::spec_hash_step(p0, m, p1, r)),
        PageMsg::UnixTime(m) => pre matches Page::UnixTime(p0) ==> (post matches Page::UnixTime(
            p1,
        ) && crate::pages::unixtime::spec_unixtime_step(p0, m, p1, r)),
        PageMsg::NumberBase(m) => pre matches Page::NumberBase(p0) ==> (post matches
            Page::NumberBase(p1) && crate::pages::number::spec_number_step(p0, m, p1, r)),
        PageMsg::Base64(_) => true,
        PageMsg::Url(_) => true,
    }
}

/// Whether the page is in the state its constructor establishes: fresh
/// pages carry no user state, so switching tools discards any unsaved
/// edits.
pub open spec fn spec_fresh(page: &Page, id: PageType, focused: bool) -> bool {
    &&& page.kind() == id
    &&& page.spec_focused() == focused
    &&& match page {
        Page::Uuid(p) => p.cur.item is Hyphen && p.cur.count == 1 && p.ids@.len() == 0,
        Page::Ulid(p) => p.cur.item is Case && p.cur.count == 1 && p.ids@.len() == 0,
        Page::Hash(p) => p.cur.item is Algo && p.cur.input@.len() == 0,
        Page::UnixTime(p) => p.cur.item is Input && p.cur.input.chars@.len() == 0 && !p.cur.edit,
        Page::NumberBase(p) => p.cur.item is Binary && p.cur.binary_input.chars@.len() == 0
            && !p.cur.edit,
    }
}

} // verus!
