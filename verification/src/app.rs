use vstd::prelude::*;
use crate::key::KeyInput;
use crate::msg::Msg;
use crate::pages::page::spec_fresh;
use crate::panes::list::ListPane;
use crate::panes::tool::ToolPane;
use crate::util::group_strs_to_fit_width;
use crate::strutil::join_strs;

verus! {

/// Which of the two panes holds the focus.
#[derive(Clone, Copy, Debug, PartialEq, Eq, Structural)]
pub enum PaneType {
    List,
    Tool,
}

impl PaneType {
    pub open spec fn spec_other(&self) -> PaneType {
        match self {
            PaneType::List => PaneType::Tool,
            PaneType::Tool => PaneType::List,
        }
    }
}

/// The transient notification slot: cleared at the start of every key
/// cycle, overwritten at most once per cycle.
pub enum Notification {
    Empty,
    Info(String),
    Warn(String),
    Error(String),
}

/// The application shell: owns both panes, the focus state, the stop flag
/// and the notification slot, and runs the synchronous dispatch cycle.
pub struct App {
    pub quit: bool,
    pub focused: PaneType,
    pub notification: Notification,
    pub list_pane: ListPane,
    pub tool_pane: ToolPane,
}

/// The number of dispatch steps a pending message can still cause.
pub open spec fn spec_rank_opt(m: &Option<Msg>) -> nat {
    match m {
        Some(x) => x.rank() + 1,
        None => 0,
    }
}

/// The first message that is not absent, in order; how fan-out picks the
/// component that claims a message.
pub open spec fn spec_first_some<T>(s: Seq<Option<T>>) -> Option<T>
    decreases s.len(),
{
    if s.len() == 0 {
        None
    } else if s[0] is Some {
        s[0]
    } else {
        spec_first_some(s.drop_first())
    }
}

proof fn lemma_first_some_skip<T>(s: Seq<Option<T>>, i: int)
    requires
        0 <= i <= s.len(),
        forall|j: int| 0 <= j < i ==> s[j] is None,
    ensures
        spec_first_some(s) == spec_first_some(s.skip(i)),
    decreases i,
{
    if i > 0 {
        assert(s.skip(1) =~= s.drop_first());
        lemma_first_some_skip(s.drop_first(), i - 1);
        assert(s.drop_first().skip(i - 1) =~= s.skip(i));
    } else {
        assert(s.skip(0) =~= s);
    }
}

/// The first present message of the list, in order.
pub fn first_some<T>(opts: Vec<Option<T>>) -> (r: Option<T>)
    ensures
        r == spec_first_some(opts@),
{
    let ghost orig = opts@;
    let mut rest = opts;
    let mut i: usize = 0;
    while i < rest.len()
        invariant
            i <= rest@.len(),
            rest@ == orig,
            orig == opts@,
            forall|j: int| 0 <= j < i ==> rest@[j] is None,
        decreases rest@.len() - i,
    {
        if rest[i].is_some() {
            let v = rest.remove(i);
            proof {
                lemma_first_some_skip(orig, i as int);
                assert(orig[i as int] is Some);
                assert(orig.skip(i as int).len() > 0);
                assert(orig.skip(i as int)[0] == orig[i as int]);
                assert(spec_first_some(orig.skip(i as int)) == orig[i as int]);
                assert(v == orig[i as int]);
            }
            return v;
        }
        i = i + 1;
    }
    proof {
        lemma_first_some_skip(orig, orig.len() as int);
        assert(orig.skip(orig.len() as int) =~= Seq::<Option<T>>::empty());
    }
    None
}

impl App {
    /// Focus exclusivity: exactly one pane reports focus, and it is the one
    /// the shell names; the tool pane's own invariant holds throughout.
    pub open spec fn wf(&self) -> bool {
        &&& self.tool_pane.wf()
        &&& self.list_pane.focused == (self.focused is List)
        &&& self.tool_pane.focused == (self.focused is Tool)
    }

    /// Exactly one of the two panes reports focus.
    pub open spec fn exactly_one_focused(&self) -> bool {
        self.list_pane.focused != self.tool_pane.focused
    }

    pub fn new() -> (r: App)
        ensures
            r.wf(),
            r.quit == false,
            r.focused == PaneType::List,
            r.notification is Empty,
            r.list_pane.selected == crate::panes::list::PageType::Uuid,
            spec_fresh(&r.tool_pane.page, crate::panes::list::PageType::Uuid, false),
            r.tool_pane.help_visible == false,
            r.exactly_one_focused(),
    {
        App {
            quit: false,
            focused: PaneType::List,
            notification: Notification::Empty,
            list_pane: ListPane::new(true),
            tool_pane: ToolPane::new(false),
        }
    }

    /// The message one key press maps to: the global bindings first, then
    /// whatever the focused pane's own translator returns.  While the
    /// focused page sits in its edit sub-state every binding but the edit
    /// terminator is suppressed, so keys go to the page untouched.
    pub open spec fn spec_translate(&self, key: KeyInput) -> Option<Msg> {
        if self.focused is Tool && self.tool_pane.page.spec_in_edit() {
            self.tool_pane.page.spec_handle_key(key)
        } else {
            match key {
                KeyInput::Esc => Some(Msg::Quit),
                KeyInput::CtrlChar('c') => Some(Msg::Quit),
                KeyInput::Tab => Some(Msg::SwitchPane),
                KeyInput::Char('?') => Some(Msg::ToggleHelp),
                _ => match self.focused {
                    PaneType::List => crate::panes::list::spec_list_key_msg(key),
                    PaneType::Tool => self.tool_pane.page.spec_handle_key(key),
                },
            }
        }
    }

    pub fn handle_key(&self, key: KeyInput) -> (r: Option<Msg>)
        ensures
            r == self.spec_translate(key),
    {
        if matches!(self.focused, PaneType::Tool) && self.tool_pane.page.in_edit() {
            return self.tool_pane.handle_key(key);
        }
        match key {
            KeyInput::Esc => Some(Msg::Quit),
            KeyInput::CtrlChar('c') => Some(Msg::Quit),
            KeyInput::Tab => Some(Msg::SwitchPane),
            KeyInput::Char('?') => Some(Msg::ToggleHelp),
            _ => match self.focused {
                PaneType::List => self.list_pane.handle_key(key),
                PaneType::Tool => self.tool_pane.handle_key(key),
            },
        }
    }

    /// One dispatch step of the shell, as a relation between the state
    /// before, the state after, and the follow-up message.  Where a page
    /// consults the clipboard the outcome is not a function of the state,
    /// so this is a relation, not a function.
    pub open spec fn spec_update_rel(pre: App, msg: Msg, post: App, out: Option<Msg>) -> bool {
        match msg {
            Msg::Quit => out is None && post == (App { quit: true, ..pre }),
            Msg::SwitchPane => out is None && spec_switched(pre, post),
            Msg::ToggleHelp => out is None && post.quit == pre.quit && post.focused == pre.focused
                && post.notification == pre.notification && post.list_pane == pre.list_pane
                && post.tool_pane.help_visible == !pre.tool_pane.help_visible
                && post.tool_pane.page == pre.tool_pane.page && post.tool_pane.focused
                == pre.tool_pane.focused,
            Msg::NotifyInfo(s) => out is None && (post.notification matches Notification::Info(
                t,
            ) && t == s) && spec_same_but_notification(pre, post),
            Msg::NotifyWarn(s) => out is None && (post.notification matches Notification::Warn(
                t,
            ) && t == s) && spec_same_but_notification(pre, post),
            Msg::NotifyError(s) => out is None && (post.notification matches Notification::Error(
                t,
            ) && t == s) && spec_same_but_notification(pre, post),
            Msg::ListPaneSelectNext => {
                &&& post.list_pane.selected == pre.list_pane.selected.spec_next()
                &&& out == Some(post.list_pane.selected.spec_select_msg())
                &&& post.list_pane.focused == pre.list_pane.focused
                &&& post.tool_pane == pre.tool_pane
                &&& post.quit == pre.quit
                &&& post.focused == pre.focused
                &&& post.notification == pre.notification
            },
            Msg::ListPaneSelectPrev => {
                &&& post.list_pane.selected == pre.list_pane.selected.spec_prev()
                &&& out == Some(post.list_pane.selected.spec_select_msg())
                &&& post.list_pane.focused == pre.list_pane.focused
                &&& post.tool_pane == pre.tool_pane
                &&& post.quit == pre.quit
                &&& post.focused == pre.focused
                &&& post.notification == pre.notification
            },
            Msg::ToolPaneSelectUuidPage => out is None && spec_tool_selected(
                pre,
                post,
                crate::panes::list::PageType::Uuid,
            ),
            Msg::ToolPaneSelectUlidPage => out is None && spec_tool_selected(
                pre,
                post,
                crate::panes::list::PageType::Ulid,
            ),
            Msg::ToolPaneSelectHashPage => out is None && spec_tool_selected(
                pre,
                post,
                crate::panes::list::PageType::Hash,
            ),
            Msg::ToolPaneSelectUnixTimePage => out is None && spec_tool_selected(
                pre,
                post,
                crate::panes::list::PageType::UnixTime,
            ),
            Msg::ToolPaneSelectNumberBasePage => out is None && spec_tool_selected(
                pre,
                post,
                crate::panes::list::PageType::NumberBase,
            ),
            Msg::ToolPaneSelectBase64Page => out is None && post == pre,
            Msg::ToolPaneSelectUrlPage => out is None && post == pre,
            Msg::Page(pm) => {
                &&& post.quit == pre.quit
                &&& post.focused == pre.focused
                &&& post.notification == pre.notification
                &&& post.list_pane == pre.list_pane
                &&& post.tool_pane.focused == pre.tool_pane.focused
                &&& post.tool_pane.help_visible == pre.tool_pane.help_visible
                &&& crate::pages::page::spec_page_step(
                    pre.tool_pane.page,
                    pm,
                    post.tool_pane.page,
                    out,
                )
            },
        }
    }

    /// Dispatches one message: the shell's own messages are handled
    /// locally, a page message goes only to the tool pane, and everything
    /// else is fanned out to both panes in list-then-tool order with the
    /// first answer winning.  Every follow-up has a strictly lower rank
    /// than the message dispatched, which bounds the trampoline.
    pub fn update(&mut self, msg: Msg) -> (r: Option<Msg>)
        requires
            old(self).wf(),
        ensures
            final(self).wf(),
            App::spec_update_rel(*old(self), msg, *final(self), r),
            r matches Some(m2) ==> m2.rank() < msg.rank(),
    {
        match msg {
            Msg::Quit => {
                self.quit_app();
                None
            },
            Msg::SwitchPane => {
                self.switch_pane();
                None
            },
            Msg::NotifyInfo(s) => {
                self.notification = Notification::Info(s);
                None
            },
            Msg::NotifyWarn(s) => {
                self.notification = Notification::Warn(s);
                None
            },
            Msg::NotifyError(s) => {
                self.notification = Notification::Error(s);
                None
            },
            Msg::Page(page_msg) => self.tool_pane.update(&Msg::Page(page_msg)),
            _ => {
                let list_msg = self.list_pane.update(&msg);
                let tool_msg = self.tool_pane.update(&msg);
                let mut candidates: Vec<Option<Msg>> = Vec::new();
                candidates.push(list_msg);
                candidates.push(tool_msg);
                proof {
                    assert(candidates@.len() == 2);
                    if candidates@[0] is Some {
                        assert(spec_first_some(candidates@) == candidates@[0]);
                    } else {
                        assert(candidates@.drop_first() =~= seq![candidates@[1]]);
                        if candidates@[1] is Some {
                            assert(spec_first_some(candidates@.drop_first()) == candidates@[1]);
                        } else {
                            let tail = candidates@.drop_first();
                            assert(tail.drop_first() =~= Seq::<Option<Msg>>::empty());
                            assert(spec_first_some(tail.drop_first()) is None);
                            assert(spec_first_some(tail) is None);
                        }
                    }
                }
                first_some(candidates)
            },
        }
    }

    fn quit_app(&mut self)
        ensures
            *final(self) == (App { quit: true, ..*old(self) }),
    {
        self.quit = true;
    }

    /// The atomic focus hand-over: the old pane loses its flag, the new
    /// one gains it, and the shell's record moves with them.
    pub fn switch_pane(&mut self)
        requires
            old(self).wf(),
        ensures
            final(self).wf(),
            spec_switched(*old(self), *final(self)),
    {
        self.list_pane.unfocus();
        self.tool_pane.unfocus();
        match self.focused {
            PaneType::List => {
                self.focused = PaneType::Tool;
                self.tool_pane.focus();
            },
            PaneType::Tool => {
                self.focused = PaneType::List;
                self.list_pane.focus();
            },
        }
    }

    /// A resize is a no-op hook, reserved for future reflow logic.
    pub fn resize(&mut self, w: u16, h: u16)
        ensures
            *final(self) == *old(self),
    {
        let _ = (w, h);
    }

    /// One full key cycle: the notification slot is cleared, the key is
    /// translated, and the trampoline keeps dispatching follow-ups until
    /// none comes back.  The strictly falling rank of the message in
    /// flight proves the loop finite; no chain takes more than two
    /// dispatch steps.
    pub fn process_key(&mut self, key: KeyInput)
        requires
            old(self).wf(),
        ensures
            final(self).wf(),
            spec_key_cycle(*old(self), key, *final(self)),
    {
        let ghost cleared = App { notification: Notification::Empty, ..*old(self) };
        self.notification = Notification::Empty;
        let ghost t = cleared.spec_translate(key);
        let mut current_msg = self.handle_key(key);
        proof {
            assert(current_msg == t);
        }
        while current_msg.is_some()
            invariant
                self.wf(),
                t == cleared.spec_translate(key),
                match t {
                    None => *self == cleared && current_msg is None,
                    Some(m0) => (*self == cleared && current_msg == t) || App::spec_update_rel(
                        cleared,
                        m0,
                        *self,
                        current_msg,
                    ) || spec_two_step(cleared, m0, *self, current_msg),
                },
            decreases spec_rank_opt(&current_msg),
        {
            let ghost pre = *self;
            let msg = current_msg.unwrap();
            current_msg = self.update(msg);
            proof {
                if let Some(m0) = t {
                    if pre == cleared && Some(msg) == t {
                        // first dispatch of the chain
                    } else {
                        // second dispatch: its follow-up must rank below one,
                        // which no message does, so the chain ends here
                        lemma_msg_rank_bounds(&msg);
                        if current_msg is Some {
                            let m2 = current_msg->0;
                            lemma_msg_rank_bounds(&m2);
                            assert(false);
                        }
                        assert(spec_two_step(cleared, m0, *self, current_msg));
                    }
                }
            }
        }
    }

    /// The hint strings of whichever pane currently has focus.
    pub open spec fn spec_focused_helps(&self) -> Seq<Seq<char>> {
        match self.focused {
            PaneType::List => crate::panes::list::spec_list_helps(),
            PaneType::Tool => self.tool_pane.page.spec_helps(),
        }
    }

    /// The help lines for the status row: the focused pane's hint strings,
    /// greedily packed to the width and joined with a comma.
    pub fn help_lines(&self, width: u16) -> (r: Vec<String>)
        ensures
            r@.len() >= 1,
            r@.map_values(|l: String| l@) == crate::util::spec_pack(
                self.spec_focused_helps(),
                width as int,
                ", "@.len() as int,
            ).map_values(|g: Seq<Seq<char>>| crate::strutil::spec_join(g, ", "@)),
    {
        let helps: Vec<&'static str> = match self.focused {
            PaneType::List => self.list_pane.helps(),
            PaneType::Tool => self.tool_pane.helps(),
        };
        let ghost packed = crate::util::spec_pack(
            self.spec_focused_helps(),
            width as int,
            ", "@.len() as int,
        );
        let groups = group_strs_to_fit_width(&helps, width as usize, ", ");
        proof {
            assert(helps@.map_values(|p: &str| p@) == self.spec_focused_helps());
            assert(groups@.map_values(|g: Vec<&'static str>| g@.map_values(|p: &str| p@))
                == packed);
        }
        let mut lines: Vec<String> = Vec::new();
        let mut i: usize = 0;
        while i < groups.len()
            invariant
                lines@.len() == i,
                i <= groups@.len(),
                groups@.map_values(|g: Vec<&'static str>| g@.map_values(|p: &str| p@)) == packed,
                forall|j: int|
                    0 <= j < i ==> #[trigger] lines@[j]@ == crate::strutil::spec_join(
                        packed[j],
                        ", "@,
                    ),
            decreases groups@.len() - i,
        {
            let line = join_strs(&groups[i], ", ");
            proof {
                assert(groups@.map_values(|g: Vec<&'static str>| g@.map_values(|p: &str| p@))[
                    i as int] == packed[i as int]);
            }
            lines.push(line);
            i = i + 1;
        }
        proof {
            assert(groups@.len() >= 1);
            assert(lines@.map_values(|l: String| l@) =~= packed.map_values(
                |g: Seq<Seq<char>>| crate::strutil::spec_join(g, ", "@),
            ));
        }
        lines
    }
}

/// Whether `post` is where a chain that started with `m0` stands after
/// exactly two dispatch steps with nothing further to dispatch.
pub open spec fn spec_two_step(pre: App, m0: Msg, post: App, pending: Option<Msg>) -> bool {
    &&& pending is None
    &&& exists|mid: App, m1: Msg|
        #[trigger] App::spec_update_rel(pre, m0, mid, Some(m1)) && App::spec_update_rel(
            mid,
            m1,
            post,
            None,
        )
}

/// What one whole key cycle does: the notification slot is cleared, and
/// the translated message, if any, is dispatched with its follow-ups until
/// the chain ends, which takes at most two steps.
pub open spec fn spec_key_cycle(pre: App, key: KeyInput, post: App) -> bool {
    let cleared = App { notification: Notification::Empty, ..pre };
    match cleared.spec_translate(key) {
        None => post == cleared,
        Some(m0) => App::spec_update_rel(cleared, m0, post, None) || spec_two_step(
            cleared,
            m0,
            post,
            None,
        ),
    }
}

/// Every message ranks at least one and at most two.
pub proof fn lemma_msg_rank_bounds(m: &Msg)
    ensures
        1 <= m.rank() <= 2,
{
}

/// All fields unchanged but the notification slot.
pub open spec fn spec_same_but_notification(pre: App, post: App) -> bool {
    &&& post.quit == pre.quit
    &&& post.focused == pre.focused
    &&& post.list_pane == pre.list_pane
    &&& post.tool_pane == pre.tool_pane
}

/// What one focus hand-over does: the named focus toggles, the pane flags
/// follow it, the selection and the mounted tool survive, and the help
/// overlay is hidden when the tool pane loses focus.
pub open spec fn spec_switched(pre: App, post: App) -> bool {
    &&& post.focused == pre.focused.spec_other()
    &&& post.list_pane.focused == (post.focused is List)
    &&& post.tool_pane.focused == (post.focused is Tool)
    &&& post.list_pane.selected == pre.list_pane.selected
    &&& post.tool_pane.page.kind() == pre.tool_pane.page.kind()
    &&& post.quit == pre.quit
    &&& post.notification == pre.notification
}

/// A fresh tool pane page of the given kind; the rest of the shell stands
/// as it was.
pub open spec fn spec_tool_selected(pre: App, post: App, id: crate::panes::list::PageType) -> bool {
    &&& spec_fresh(&post.tool_pane.page, id, pre.tool_pane.focused)
    &&& post.tool_pane.focused == pre.tool_pane.focused
    &&& post.tool_pane.help_visible == pre.tool_pane.help_visible
    &&& post.list_pane == pre.list_pane
    &&& post.quit == pre.quit
    &&& post.focused == pre.focused
    &&& post.notification == pre.notification
}

/// Focus exclusivity: from a well-formed shell, one focus hand-over leaves
/// exactly one pane focused, and a second hand-over restores the starting
/// focus state.
pub proof fn lemma_switch_pane_exclusive(a: App, b: App, c: App)
    requires
        a.wf(),
        b.wf(),
        c.wf(),
        spec_switched(a, b),
        spec_switched(b, c),
    ensures
        b.exactly_one_focused(),
        c.exactly_one_focused(),
        c.focused == a.focused,
        c.list_pane.focused == a.list_pane.focused,
        c.tool_pane.focused == a.tool_pane.focused,
{
}

/// Trampoline termination for a list selection: the select message that
/// comes back is the one for the next tool, the chain ends after the
/// second dispatch, and the tool pane then shows a fresh page of exactly
/// the newly selected tool.
pub proof fn lemma_list_select_settles(
    a: App,
    b: App,
    c: App,
    out1: Option<Msg>,
    out2: Option<Msg>,
)
    requires
        a.wf(),
        App::spec_update_rel(a, Msg::ListPaneSelectNext, b, out1),
        out1 matches Some(m1) && App::spec_update_rel(b, m1, c, out2),
    ensures
        out1 == Some(a.list_pane.selected.spec_next().spec_select_msg()),
        out2 is None,
        b.list_pane.selected == a.list_pane.selected.spec_next(),
        c.list_pane.selected == a.list_pane.selected.spec_next(),
        c.tool_pane.page.kind() == a.list_pane.selected.spec_next(),
        spec_fresh(&c.tool_pane.page, a.list_pane.selected.spec_next(), b.tool_pane.focused),
{
    let next = a.list_pane.selected.spec_next();
    assert(out1 == Some(next.spec_select_msg()));
}

} // verus!
