use vstd::prelude::*;
use crate::key::KeyInput;

verus! {

/// Every user intent or system event the dispatch core reacts to.  Messages
/// are immutable values, created and consumed within one synchronous input
/// cycle; components react to each other only through them.
#[derive(Debug, Clone)]
pub enum Msg {
    Quit,
    SwitchPane,
    ToggleHelp,
    ListPaneSelectNext,
    ListPaneSelectPrev,
    NotifyInfo(String),
    NotifyWarn(String),
    NotifyError(String),
    ToolPaneSelectUuidPage,
    ToolPaneSelectUlidPage,
    ToolPaneSelectBase64Page,
    ToolPaneSelectUrlPage,
    ToolPaneSelectHashPage,
    ToolPaneSelectUnixTimePage,
    ToolPaneSelectNumberBasePage,
    Page(PageMsg),
}

impl Msg {
    /// An upper bound on the length of the follow-up chain a message can
    /// start: every dispatch step strictly lowers the rank of the message in
    /// flight, so the trampoline terminates.
    pub open spec fn rank(&self) -> nat {
        match self {
            Msg::Page(_) => 2,
            Msg::ListPaneSelectNext => 2,
            Msg::ListPaneSelectPrev => 2,
            _ => 1,
        }
    }

    /// Whether this message is one of the three notification messages.
    pub open spec fn is_notify(&self) -> bool {
        self is NotifyInfo || self is NotifyWarn || self is NotifyError
    }
}

/// A message addressed to the page mounted in the tool pane; the outer
/// variant names the page kind it is meant for.
#[derive(Debug, Copy, Clone)]
pub enum PageMsg {
    Uuid(UuidMsg),
    Ulid(UlidMsg),
    Base64(Base64Msg),
    Url(UrlMsg),
    Hash(HashMsg),
    UnixTime(UnixTimeMsg),
    NumberBase(NumberBaseMsg),
}

#[derive(Debug, Copy, Clone)]
pub enum UuidMsg {
    SelectNextItem,
    SelectPrevItem,
    CurrentItemSelectNext,
    CurrentItemSelectPrev,
    ScrollDown,
    ScrollUp,
    Generate,
    Copy,
    Paste,
}

#[derive(Debug, Copy, Clone)]
pub enum UlidMsg {
    SelectNextItem,
    SelectPrevItem,
    CurrentItemSelectNext,
    CurrentItemSelectPrev,
    ScrollDown,
    ScrollUp,
    Generate,
    Copy,
    Paste,
}

#[derive(Debug, Copy, Clone)]
pub enum Base64Msg {
    SelectNextItem,
    SelectPrevItem,
    CurrentItemSelectNext,
    CurrentItemSelectPrev,
    ScrollDown,
    ScrollUp,
    Copy,
    Paste,
}

#[derive(Debug, Copy, Clone)]
pub enum UrlMsg {
    SelectNextItem,
    SelectPrevItem,
    CurrentItemSelectNext,
    CurrentItemSelectPrev,
    ScrollDown,
    ScrollUp,
    Copy,
    Paste,
}

#[derive(Debug, Copy, Clone)]
pub enum HashMsg {
    SelectNextItem,
    SelectPrevItem,
    CurrentItemSelectNext,
    CurrentItemSelectPrev,
    ScrollDown,
    ScrollUp,
    Copy,
    Paste,
}

#[derive(Debug, Copy, Clone)]
pub enum UnixTimeMsg {
    SelectNextItem,
    SelectPrevItem,
    CurrentItemSelectNext,
    CurrentItemSelectPrev,
    EditStart,
    EditEnd,
    EditKeyEvent(KeyInput),
    Copy,
    Paste,
}

#[derive(Debug, Copy, Clone)]
pub enum NumberBaseMsg {
    SelectNextItem,
    SelectPrevItem,
    CurrentItemSelectNext,
    CurrentItemSelectPrev,
    EditStart,
    EditEnd,
    EditKeyEvent(KeyInput),
    Copy,
    Paste,
}

} // verus!
