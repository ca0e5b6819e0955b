use vstd::prelude::*;
use vstd::string::StringExecFns;
use crate::key::KeyInput;
use crate::msg::Msg;

verus! {

/// The registered tools, a closed set fixed at compile time.  The list
/// pane cycles through them with wraparound.
#[derive(Clone, Copy, Debug, PartialEq, Eq, Structural)]
pub enum PageType {
    Uuid,
    Ulid,
    Hash,
    UnixTime,
    NumberBase,
}

/// The number of registered tools.
pub const PAGE_TYPE_LEN: usize = 5;

impl PageType {
    pub open spec fn spec_val(&self) -> int {
        match self {
            PageType::Uuid => 0,
            PageType::Ulid => 1,
            PageType::Hash => 2,
            PageType::UnixTime => 3,
            PageType::NumberBase => 4,
        }
    }

    pub fn val(&self) -> (r: usize)
        ensures
            r == self.spec_val(),
    {
        match self {
            PageType::Uuid => 0,
            PageType::Ulid => 1,
            PageType::Hash => 2,
            PageType::UnixTime => 3,
            PageType::NumberBase => 4,
        }
    }

    pub open spec fn spec_next(&self) -> PageType {
        match self {
            PageType::Uuid => PageType::Ulid,
            PageType::Ulid => PageType::Hash,
            PageType::Hash => PageType::UnixTime,
            PageType::UnixTime => PageType::NumberBase,
            PageType::NumberBase => PageType::Uuid,
        }
    }

    pub fn next(&self) -> (r: PageType)
        ensures
            r == self.spec_next(),
    {
        match self {
            PageType::Uuid => PageType::Ulid,
            PageType::Ulid => PageType::Hash,
            PageType::Hash => PageType::UnixTime,
            PageType::UnixTime => PageType::NumberBase,
            PageType::NumberBase => PageType::Uuid,
        }
    }

    pub open spec fn spec_prev(&self) -> PageType {
        match self {
            PageType::Uuid => PageType::NumberBase,
            PageType::Ulid => PageType::Uuid,
            PageType::Hash => PageType::Ulid,
            PageType::UnixTime => PageType::Hash,
            PageType::NumberBase => PageType::UnixTime,
        }
    }

    pub fn prev(&self) -> (r: PageType)
        ensures
            r == self.spec_prev(),
    {
        match self {
            PageType::Uuid => PageType::NumberBase,
            PageType::Ulid => PageType::Uuid,
            PageType::Hash => PageType::Ulid,
            PageType::UnixTime => PageType::Hash,
            PageType::NumberBase => PageType::UnixTime,
        }
    }

    /// The message that asks the tool pane to mount this tool.
    pub open spec fn spec_select_msg(&self) -> Msg {
        match self {
            PageType::Uuid => Msg::ToolPaneSelectUuidPage,
            PageType::Ulid => Msg::ToolPaneSelectUlidPage,
            PageType::Hash => Msg::ToolPaneSelectHashPage,
            PageType::UnixTime => Msg::ToolPaneSelectUnixTimePage,
            PageType::NumberBase => Msg::ToolPaneSelectNumberBasePage,
        }
    }

    pub fn select_msg(&self) -> (r: Msg)
        ensures
            r == self.spec_select_msg(),
    {
        match self {
            PageType::Uuid => Msg::ToolPaneSelectUuidPage,
            PageType::Ulid => Msg::ToolPaneSelectUlidPage,
            PageType::Hash => Msg::ToolPaneSelectHashPage,
            PageType::UnixTime => Msg::ToolPaneSelectUnixTimePage,
            PageType::NumberBase => Msg::ToolPaneSelectNumberBasePage,
        }
    }

    pub fn str(&self) -> (r: &'static str)
        ensures
            r@ == spec_page_type_label(*self),
    {
        match self {
            PageType::Uuid => "UUID",
            PageType::Ulid => "ULID",
            PageType::Hash => "Hash",
            PageType::UnixTime => "Unix time",
            PageType::NumberBase => "Number base",
        }
    }

    pub fn strings_vec() -> (r: Vec<String>)
        ensures
            r@.len() == PAGE_TYPE_LEN,
            r@[0]@ == "UUID"@,
            r@[1]@ == "ULID"@,
            r@[2]@ == "Hash"@,
            r@[3]@ == "Unix time"@,
            r@[4]@ == "Number base"@,
    {
        let mut v: Vec<String> = Vec::new();
        v.push(String::from_str("UUID"));
        v.push(String::from_str("ULID"));
        v.push(String::from_str("Hash"));
        v.push(String::from_str("Unix time"));
        v.push(String::from_str("Number base"));
        v
    }
}

pub open spec fn spec_page_type_label(pt: PageType) -> Seq<char> {
    match pt {
        PageType::Uuid => "UUID"@,
        PageType::Ulid => "ULID"@,
        PageType::Hash => "Hash"@,
        PageType::UnixTime => "Unix time"@,
        PageType::NumberBase => "Number base"@,
    }
}

/// Index bounds of the selection: whatever sequence of forward and
/// backward steps is taken, the index stays inside the registered set and
/// wraps at both ends; one step forward and one step back undo each other.
pub proof fn lemma_page_type_cycle(pt: PageType)
    ensures
        0 <= pt.spec_val() < PAGE_TYPE_LEN,
        pt.spec_next().spec_val() == (pt.spec_val() + 1) % (PAGE_TYPE_LEN as int),
        pt.spec_prev().spec_val() == (pt.spec_val() + (PAGE_TYPE_LEN - 1)) % (
        PAGE_TYPE_LEN as int),
        pt.spec_next().spec_prev() == pt,
        pt.spec_prev().spec_next() == pt,
{
}

/// The pane that lists the registered tools and owns the selection index.
/// It never reaches into the tool pane: a change of selection only emits
/// the select message that the shell fans out.
pub struct ListPane {
    pub selected: PageType,
    pub focused: bool,
}

impl ListPane {
    pub fn new(focused: bool) -> (r: ListPane)
        ensures
            r.selected == PageType::Uuid,
            r.focused == focused,
    {
        ListPane { selected: PageType::Uuid, focused }
    }

    pub fn handle_key(&self, key: KeyInput) -> (r: Option<Msg>)
        ensures
            r == spec_list_key_msg(key),
    {
        match key {
            KeyInput::Char('j') | KeyInput::Down => Some(Msg::ListPaneSelectNext),
            KeyInput::Char('k') | KeyInput::Up => Some(Msg::ListPaneSelectPrev),
            _ => None,
        }
    }

    /// Moves the selection on the two selection messages and answers with
    /// the select message for the new tool; every other message is ignored.
    pub fn update(&mut self, msg: &Msg) -> (r: Option<Msg>)
        ensures
            final(self).focused == old(self).focused,
            match msg {
                Msg::ListPaneSelectNext => final(self).selected == old(self).selected.spec_next() && r == Some(final(self).selected.spec_select_msg()),
                Msg::ListPaneSelectPrev => final(self).selected == old(self).selected.spec_prev() && r == Some(final(self).selected.spec_select_msg()),
                _ => *final(self) == *old(self) && r is None,
            },
    {
        match msg {
            Msg::ListPaneSelectNext => {
                self.selected = self.selected.next();
                Some(self.selected.select_msg())
            },
            Msg::ListPaneSelectPrev => {
                self.selected = self.selected.prev();
                Some(self.selected.select_msg())
            },
            _ => None,
        }
    }

    pub fn focus(&mut self)
        ensures
            *final(self) == (ListPane { focused: true, ..*old(self) }),
    {
        self.focused = true;
    }

    pub fn unfocus(&mut self)
        ensures
            *final(self) == (ListPane { focused: false, ..*old(self) }),
    {
        self.focused = false;
    }

    pub fn helps(&self) -> (r: Vec<&'static str>)
        ensures
            r@.map_values(|s: &str| s@) == spec_list_helps(),
    {
        let mut helps: Vec<&'static str> = Vec::new();
        helps.push("<j/k> Select item");
        helps.push("<Tab> Switch pane");
        proof {
            assert(helps@.map_values(|s: &str| s@) =~= spec_list_helps());
        }
        helps
    }
}

/// The message one key press maps to while the list pane has focus.
pub open spec fn spec_list_key_msg(key: KeyInput) -> Option<Msg> {
    match key {
        KeyInput::Char('j') | KeyInput::Down => Some(Msg::ListPaneSelectNext),
        KeyInput::Char('k') | KeyInput::Up => Some(Msg::ListPaneSelectPrev),
        _ => None,
    }
}

pub open spec fn spec_list_helps() -> Seq<Seq<char>> {
    seq!["<j/k> Select item"@, "<Tab> Switch pane"@]
}

} // verus!
