use vstd::prelude::*;
use vstd::string::StringExecFns;
use crate::key::KeyInput;
use crate::msg::{Msg, PageMsg, UlidMsg};
use crate::numfmt::format_radix_u128;
use crate::pages::util;
use crate::strutil::{ascii_lower_chars, chars_to_string, spec_ascii_lower, split_lines};
use crate::widget::scroll::ScrollOutputState;

verus! {

/// The most identifiers one generate step may produce.
pub const COUNT_MAX: usize = 100;

/// What parsing an identifier from its 26-character text returns: the
/// 128-bit value, or nothing for text of the wrong length or alphabet.
pub uninterp spec fn ulid_parse_of(s: Seq<char>) -> Option<u128>;

/// Relies on `ulid::Ulid::generate`: an identifier drawn from the clock and
/// a random source, so nothing can be promised of its value.
#[verifier::external_body]
fn ulid_generate() -> u128 {
    ulid::Ulid::generate().0
}

/// Relies on `ulid::Ulid::from_string`: the result is a function of the
/// characters alone.
#[verifier::external_body]
fn ulid_parse(s: &str) -> (r: Option<u128>)
    ensures
        r == ulid_parse_of(s@),
{
    ulid::Ulid::from_string(s).ok().map(|u| u.0)
}

/// One digit of the base-32 alphabet the identifier text uses: the digits
/// and the capital letters without I, L, O and U.
pub open spec fn spec_b32_char(d: int) -> char {
    if d == 0 {
        '0'
    } else if d == 1 {
        '1'
    } else if d == 2 {
        '2'
    } else if d == 3 {
        '3'
    } else if d == 4 {
        '4'
    } else if d == 5 {
        '5'
    } else if d == 6 {
        '6'
    } else if d == 7 {
        '7'
    } else if d == 8 {
        '8'
    } else if d == 9 {
        '9'
    } else if d == 10 {
        'A'
    } else if d == 11 {
        'B'
    } else if d == 12 {
        'C'
    } else if d == 13 {
        'D'
    } else if d == 14 {
        'E'
    } else if d == 15 {
        'F'
    } else if d == 16 {
        'G'
    } else if d == 17 {
        'H'
    } else if d == 18 {
        'J'
    } else if d == 19 {
        'K'
    } else if d == 20 {
        'M'
    } else if d == 21 {
        'N'
    } else if d == 22 {
        'P'
    } else if d == 23 {
        'Q'
    } else if d == 24 {
        'R'
    } else if d == 25 {
        'S'
    } else if d == 26 {
        'T'
    } else if d == 27 {
        'V'
    } else if d == 28 {
        'W'
    } else if d == 29 {
        'X'
    } else if d == 30 {
        'Y'
    } else if d == 31 {
        'Z'
    } else {
        '?'
    }
}

/// The value rendered as `width` base-32 digits, most significant first,
/// zero padded; 26 digits hold any 128-bit value.
pub open spec fn spec_b32_pad(v: int, width: nat) -> Seq<char>
    decreases width,
{
    if width == 0 {
        Seq::empty()
    } else {
        spec_b32_pad(v / 32, (width - 1) as nat).push(spec_b32_char(v % 32))
    }
}

pub proof fn lemma_b32_pad_len(v: int, width: nat)
    ensures
        spec_b32_pad(v, width).len() == width,
    decreases width,
{
    if width > 0 {
        lemma_b32_pad_len(v / 32, (width - 1) as nat);
    }
}

fn b32_digit(d: u128) -> (r: char)
    requires
        d < 32,
    ensures
        r == spec_b32_char(d as int),
{
    if d == 0 {
        '0'
    } else if d == 1 {
        '1'
    } else if d == 2 {
        '2'
    } else if d == 3 {
        '3'
    } else if d == 4 {
        '4'
    } else if d == 5 {
        '5'
    } else if d == 6 {
        '6'
    } else if d == 7 {
        '7'
    } else if d == 8 {
        '8'
    } else if d == 9 {
        '9'
    } else if d == 10 {
        'A'
    } else if d == 11 {
        'B'
    } else if d == 12 {
        'C'
    } else if d == 13 {
        'D'
    } else if d == 14 {
        'E'
    } else if d == 15 {
        'F'
    } else if d == 16 {
        'G'
    } else if d == 17 {
        'H'
    } else if d == 18 {
        'J'
    } else if d == 19 {
        'K'
    } else if d == 20 {
        'M'
    } else if d == 21 {
        'N'
    } else if d == 22 {
        'P'
    } else if d == 23 {
        'Q'
    } else if d == 24 {
        'R'
    } else if d == 25 {
        'S'
    } else if d == 26 {
        'T'
    } else if d == 27 {
        'V'
    } else if d == 28 {
        'W'
    } else if d == 29 {
        'X'
    } else if d == 30 {
        'Y'
    } else {
        'Z'
    }
}

/// Renders the value as 26 base-32 digits.
fn format_b32(v: u128) -> (r: Vec<char>)
    ensures
        r@ == spec_b32_pad(v as int, 26),
        r@.len() == 26,
{
    let mut rev: Vec<char> = Vec::new();
    let mut n: u128 = v;
    let mut k: usize = 0;
    while k < 26
        invariant
            k <= 26,
            rev@.len() == k,
            spec_b32_pad(v as int, 26) =~= spec_b32_pad(n as int, (26 - k) as nat)
                + rev@.reverse(),
        decreases 26 - k,
    {
        let d = n % 32;
        let c = b32_digit(d);
        proof {
            let ni = n as int;
            assert(spec_b32_pad(ni, (26 - k) as nat) == spec_b32_pad(
                ni / 32,
                (26 - k - 1) as nat,
            ).push(spec_b32_char(ni % 32)));
            assert(rev@.push(c).reverse() =~= seq![c] + rev@.reverse());
            assert(spec_b32_pad(ni / 32, (26 - k - 1) as nat) + rev@.push(c).reverse()
                =~= spec_b32_pad(ni, (26 - k) as nat) + rev@.reverse());
        }
        rev.push(c);
        n = n / 32;
        k = k + 1;
    }
    let mut r: Vec<char> = Vec::new();
    let mut j: usize = rev.len();
    while j > 0
        invariant
            j <= rev@.len(),
            r@ =~= rev@.subrange(j as int, rev@.len() as int).reverse(),
        decreases j,
    {
        j = j - 1;
        let c = rev[j];
        r.push(c);
        proof {
            assert(rev@.subrange(j as int, rev@.len() as int).reverse() =~= rev@.subrange(
                j + 1,
                rev@.len() as int,
            ).reverse().push(rev@[j as int]));
        }
    }
    proof {
        assert(rev@.subrange(0, rev@.len() as int) =~= rev@);
        lemma_b32_pad_len(v as int, 26);
        assert(r@ =~= spec_b32_pad(v as int, 26));
    }
    r
}

/// The letter case of the rendering; a saturating selector.  The canonical
/// text is upper case, so that comes first.
#[derive(Clone, Copy, Debug, PartialEq, Eq, Structural)]
pub enum CaseItemSelect {
    Uppercase,
    Lowercase,
}

impl CaseItemSelect {
    pub open spec fn spec_val(&self) -> int {
        match self {
            CaseItemSelect::Uppercase => 0,
            CaseItemSelect::Lowercase => 1,
        }
    }

    pub fn val(&self) -> (r: usize)
        ensures
            r == self.spec_val(),
    {
        match self {
            CaseItemSelect::Uppercase => 0,
            CaseItemSelect::Lowercase => 1,
        }
    }

    pub fn next_mut(&mut self)
        ensures
            *final(self) == (if *old(self) is Uppercase {
                CaseItemSelect::Lowercase
            } else {
                *old(self)
            }),
    {
        if let CaseItemSelect::Uppercase = self {
            *self = CaseItemSelect::Lowercase;
        }
    }

    pub fn prev_mut(&mut self)
        ensures
            *final(self) == (if *old(self) is Lowercase {
                CaseItemSelect::Uppercase
            } else {
                *old(self)
            }),
    {
        if let CaseItemSelect::Lowercase = self {
            *self = CaseItemSelect::Uppercase;
        }
    }

    pub fn strings_vec() -> (r: Vec<String>)
        ensures
            r@.len() == 2,
            r@[0]@ == "Uppercase"@,
            r@[1]@ == "Lowercase"@,
    {
        let mut v: Vec<String> = Vec::new();
        v.push(String::from_str("Uppercase"));
        v.push(String::from_str("Lowercase"));
        v
    }
}

/// The field cursor of the page, cycling with wraparound.
#[derive(Clone, Copy, Debug, PartialEq, Eq, Structural)]
pub enum PageItems {
    Case,
    Count,
    Output,
}

impl PageItems {
    pub open spec fn spec_next(&self) -> PageItems {
        match self {
            PageItems::Case => PageItems::Count,
            PageItems::Count => PageItems::Output,
            PageItems::Output => PageItems::Case,
        }
    }

    pub fn next(&self) -> (r: PageItems)
        ensures
            r == self.spec_next(),
    {
        match self {
            PageItems::Case => PageItems::Count,
            PageItems::Count => PageItems::Output,
            PageItems::Output => PageItems::Case,
        }
    }

    pub open spec fn spec_prev(&self) -> PageItems {
        match self {
            PageItems::Case => PageItems::Output,
            PageItems::Count => PageItems::Case,
            PageItems::Output => PageItems::Count,
        }
    }

    pub fn prev(&self) -> (r: PageItems)
        ensures
            r == self.spec_prev(),
    {
        match self {
            PageItems::Case => PageItems::Output,
            PageItems::Count => PageItems::Case,
            PageItems::Output => PageItems::Count,
        }
    }
}

/// The rendering of one identifier under the page's case option.
pub open spec fn spec_format_ulid(id: u128, case: CaseItemSelect) -> Seq<char> {
    if case is Lowercase {
        spec_ascii_lower(spec_b32_pad(id as int, 26))
    } else {
        spec_b32_pad(id as int, 26)
    }
}

/// What parsing the pasted text line by line yields: the parsed identifiers
/// in order, and the number of rejected lines.
pub open spec fn spec_parse_ulid_lines(lines: Seq<Seq<char>>) -> (Seq<u128>, int)
    decreases lines.len(),
{
    if lines.len() == 0 {
        (Seq::empty(), 0)
    } else {
        let rest = spec_parse_ulid_lines(lines.drop_last());
        match ulid_parse_of(lines.last()) {
            Some(id) => (rest.0.push(id), rest.1),
            None => (rest.0, rest.1 + 1),
        }
    }
}

/// Parses one identifier per line of the text; lines that are no identifier
/// are counted instead of parsed.
pub fn parse_ulid_lines(text: &str) -> (r: (Vec<u128>, usize))
    ensures
        r.0@ == spec_parse_ulid_lines(crate::strutil::spec_lines(text@)).0,
        r.1 == spec_parse_ulid_lines(crate::strutil::spec_lines(text@)).1,
{
    let lines = split_lines(text);
    let ghost lviews = crate::strutil::spec_lines(text@);
    let mut ids: Vec<u128> = Vec::new();
    let mut failures: usize = 0;
    let mut i: usize = 0;
    while i < lines.len()
        invariant
            i <= lines@.len(),
            lines@.map_values(|l: String| l@) == lviews,
            lviews == crate::strutil::spec_lines(text@),
            failures <= i,
            ids@ == spec_parse_ulid_lines(lviews.take(i as int)).0,
            failures == spec_parse_ulid_lines(lviews.take(i as int)).1,
        decreases lines@.len() - i,
    {
        proof {
            let t = lviews.take(i + 1);
            assert(t.drop_last() =~= lviews.take(i as int));
            assert(t.last() == lviews[i as int]);
            assert(lviews[i as int] == lines@[i as int]@);
        }
        match ulid_parse(lines[i].as_str()) {
            Some(id) => {
                ids.push(id);
            },
            None => {
                failures = failures + 1;
            },
        }
        i = i + 1;
    }
    proof {
        assert(lviews.take(lviews.len() as int) =~= lviews);
    }
    (ids, failures)
}

/// The changing state of the page: the field cursor, the case selector, the
/// generation count, and the output viewport offset.
pub struct CurrentStatus {
    pub item: PageItems,
    pub case_sel: CaseItemSelect,
    pub count: usize,
    pub output_state: ScrollOutputState,
}

/// The sortable-identifier generator page: a case selector, a count, and
/// the list of generated identifiers shown in a scrollable output.
pub struct UlidPage {
    pub focused: bool,
    pub cur: CurrentStatus,
    pub ids: Vec<u128>,
}

impl UlidPage {
    /// The generation count always stays between one and the cap.
    pub open spec fn wf(&self) -> bool {
        1 <= self.cur.count <= COUNT_MAX
    }

    pub fn new(focused: bool) -> (r: UlidPage)
        ensures
            r.focused == focused,
            r.cur.item == PageItems::Case,
            r.cur.case_sel == CaseItemSelect::Uppercase,
            r.cur.count == 1,
            r.cur.output_state.offset == 0,
            r.ids@.len() == 0,
            r.wf(),
    {
        UlidPage {
            focused,
            cur: CurrentStatus {
                item: PageItems::Case,
                case_sel: CaseItemSelect::Uppercase,
                count: 1,
                output_state: ScrollOutputState::new(0),
            },
            ids: Vec::new(),
        }
    }

    pub fn handle_key(&self, key: KeyInput) -> (r: Option<Msg>)
        ensures
            r == spec_ulid_key_msg(key),
    {
        let msg = match key {
            KeyInput::Char('j') | KeyInput::Down => UlidMsg::SelectNextItem,
            KeyInput::Char('k') | KeyInput::Up => UlidMsg::SelectPrevItem,
            KeyInput::Char('l') | KeyInput::Right => UlidMsg::CurrentItemSelectNext,
            KeyInput::Char('h') | KeyInput::Left => UlidMsg::CurrentItemSelectPrev,
            KeyInput::CtrlChar('e') => UlidMsg::ScrollDown,
            KeyInput::CtrlChar('y') => UlidMsg::ScrollUp,
            KeyInput::Char('y') => UlidMsg::Copy,
            KeyInput::Char('p') => UlidMsg::Paste,
            KeyInput::Enter => UlidMsg::Generate,
            _ => {
                return None;
            },
        };
        Some(Msg::Page(PageMsg::Ulid(msg)))
    }

    /// Reacts to one page message.  A follow-up message, when one comes
    /// back, is always a notification.
    pub fn update(&mut self, msg: UlidMsg) -> (r: Option<Msg>)
        requires
            old(self).wf(),
        ensures
            final(self).wf(),
            spec_ulid_step(*old(self), msg, *final(self), r),
    {
        match msg {
            UlidMsg::SelectNextItem => {
                self.cur.item = self.cur.item.next();
                None
            },
            UlidMsg::SelectPrevItem => {
                self.cur.item = self.cur.item.prev();
                None
            },
            UlidMsg::CurrentItemSelectNext => {
                self.current_item_select_next();
                None
            },
            UlidMsg::CurrentItemSelectPrev => {
                self.current_item_select_prev();
                None
            },
            UlidMsg::ScrollDown => {
                self.scroll_down();
                None
            },
            UlidMsg::ScrollUp => {
                self.scroll_up();
                None
            },
            UlidMsg::Generate => {
                self.generate_ulid();
                None
            },
            UlidMsg::Copy => self.copy_to_clipboard(),
            UlidMsg::Paste => self.paste_from_clipboard(),
        }
    }

    pub fn focus(&mut self)
        ensures
            *final(self) == (UlidPage { focused: true, ..*old(self) }),
    {
        self.focused = true;
    }

    pub fn unfocus(&mut self)
        ensures
            *final(self) == (UlidPage { focused: false, ..*old(self) }),
    {
        self.focused = false;
    }

    pub fn helps(&self) -> (r: Vec<&'static str>)
        ensures
            r@.map_values(|s: &str| s@) == spec_ulid_helps(self.cur.item),
    {
        let mut helps: Vec<&'static str> = Vec::new();
        helps.push("<j/k> Select item");
        if !(matches!(self.cur.item, PageItems::Output)) {
            helps.push("<h/l> Select current item value");
        }
        helps.push("<Enter> Generate ulid");
        if matches!(self.cur.item, PageItems::Output) {
            helps.push("<C-e/C-y> Scroll down/up");
            helps.push("<y> Copy to clipboard");
            helps.push("<p> Paste from clipboard");
        }
        proof {
            assert(helps@.map_values(|s: &str| s@) =~= spec_ulid_helps(self.cur.item));
        }
        helps
    }

    fn current_item_select_next(&mut self)
        requires
            old(self).wf(),
        ensures
            final(self).wf(),
            final(self).focused == old(self).focused,
            spec_ulid_value_next(*old(self), *final(self)),
    {
        match self.cur.item {
            PageItems::Case => {
                self.cur.case_sel.next_mut();
            },
            PageItems::Count => {
                if self.cur.count < COUNT_MAX {
                    self.cur.count = self.cur.count + 1;
                }
            },
            PageItems::Output => {},
        }
    }

    fn current_item_select_prev(&mut self)
        requires
            old(self).wf(),
        ensures
            final(self).wf(),
            final(self).focused == old(self).focused,
            spec_ulid_value_prev(*old(self), *final(self)),
    {
        match self.cur.item {
            PageItems::Case => {
                self.cur.case_sel.prev_mut();
            },
            PageItems::Count => {
                if self.cur.count > 1 {
                    self.cur.count = self.cur.count - 1;
                }
            },
            PageItems::Output => {},
        }
    }

    fn scroll_down(&mut self)
        ensures
            final(self).ids == old(self).ids,
            final(self).focused == old(self).focused,
            final(self).cur.item == old(self).cur.item,
            final(self).cur.case_sel == old(self).cur.case_sel,
            final(self).cur.count == old(self).cur.count,
            old(self).cur.item is Output && old(self).ids@.len() > 0 ==> final(self).cur.output_state.offset == crate::widget::scroll::spec_offset_down(
                old(self).cur.output_state.offset as int,
            ),
            !(old(self).cur.item is Output && old(self).ids@.len() > 0) ==> *final(self) == *old(self),
    {
        if !(matches!(self.cur.item, PageItems::Output)) || self.ids.len() == 0 {
            return ;
        }
        self.cur.output_state.scroll_down();
    }

    fn scroll_up(&mut self)
        ensures
            final(self).ids == old(self).ids,
            final(self).focused == old(self).focused,
            final(self).cur.item == old(self).cur.item,
            final(self).cur.case_sel == old(self).cur.case_sel,
            final(self).cur.count == old(self).cur.count,
            old(self).cur.item is Output && old(self).ids@.len() > 0 ==> final(self).cur.output_state.offset == crate::widget::scroll::spec_offset_up(
                old(self).cur.output_state.offset as int,
            ),
            !(old(self).cur.item is Output && old(self).ids@.len() > 0) ==> *final(self) == *old(self),
    {
        if !(matches!(self.cur.item, PageItems::Output)) || self.ids.len() == 0 {
            return ;
        }
        self.cur.output_state.scroll_up();
    }

    /// Replaces the identifiers with `count` freshly generated ones.
    fn generate_ulid(&mut self)
        ensures
            final(self).cur == old(self).cur,
            final(self).focused == old(self).focused,
            final(self).ids@.len() == old(self).cur.count,
    {
        let mut ids: Vec<u128> = Vec::new();
        let mut i: usize = 0;
        while i < self.cur.count
            invariant
                i <= self.cur.count,
                ids@.len() == i,
            decreases self.cur.count - i,
        {
            let id = ulid_generate();
            ids.push(id);
            i = i + 1;
        }
        self.ids = ids;
    }

    /// The rendering of one identifier under the current case option.
    pub fn format_ulid(&self, id: u128) -> (r: String)
        ensures
            r@ == spec_format_ulid(id, self.cur.case_sel),
    {
        let base = format_b32(id);
        match self.cur.case_sel {
            CaseItemSelect::Uppercase => chars_to_string(&base),
            CaseItemSelect::Lowercase => {
                let lower = ascii_lower_chars(&base);
                chars_to_string(&lower)
            },
        }
    }

    /// The identifiers as output lines, formatted under the current case
    /// option.
    pub fn output_lines(&self) -> (r: Vec<String>)
        ensures
            r@.map_values(|l: String| l@) == self.ids@.map_values(
                |id: u128| spec_format_ulid(id, self.cur.case_sel),
            ),
    {
        let mut r: Vec<String> = Vec::new();
        let mut i: usize = 0;
        while i < self.ids.len()
            invariant
                i <= self.ids@.len(),
                r@.len() == i,
                forall|j: int|
                    0 <= j < i ==> #[trigger] r@[j]@ == spec_format_ulid(
                        self.ids@[j],
                        self.cur.case_sel,
                    ),
            decreases self.ids@.len() - i,
        {
            let id = self.ids[i];
            let line = self.format_ulid(id);
            r.push(line);
            i = i + 1;
        }
        proof {
            assert(r@.map_values(|l: String| l@) =~= self.ids@.map_values(
                |id: u128| spec_format_ulid(id, self.cur.case_sel),
            ));
        }
        r
    }

    fn copy_to_clipboard(&self) -> (r: Option<Msg>)
        ensures
            self.cur.item is Output ==> r is Some && (r matches Some(m) ==> m.is_notify()),
            !(self.cur.item is Output) ==> r is None,
    {
        if !(matches!(self.cur.item, PageItems::Output)) {
            return None;
        }
        let lines = self.output_lines();
        let mut text = String::new();
        let mut i: usize = 0;
        while i < lines.len()
            decreases lines@.len() - i,
        {
            if i > 0 {
                text.append("\n");
            }
            text.append(lines[i].as_str());
            i = i + 1;
        }
        util::copy_to_clipboard(text.as_str())
    }

    fn paste_from_clipboard(&mut self) -> (r: Option<Msg>)
        ensures
            final(self).cur == old(self).cur,
            final(self).focused == old(self).focused,
            r matches Some(m) ==> m.is_notify(),
            !(old(self).cur.item is Output) ==> *final(self) == *old(self) && r is None,
    {
        if !(matches!(self.cur.item, PageItems::Output)) {
            return None;
        }
        match util::paste_from_clipboard() {
            Some(text) => {
                let (ids, failures) = parse_ulid_lines(text.as_str());
                self.ids = ids;
                if failures > 0 {
                    let mut m = String::from_str("Could not parse ");
                    let n = format_radix_u128(failures as u128, 10);
                    m.append(n.as_str());
                    m.append(" lines of string to ULID");
                    Some(Msg::NotifyWarn(m))
                } else {
                    None
                }
            },
            None => Some(Msg::NotifyError(String::from_str("Paste from clipboard failed"))),
        }
    }
}

/// The saturating move of the value under the cursor, one step forward.
pub open spec fn spec_ulid_value_next(pre: UlidPage, post: UlidPage) -> bool {
    match pre.cur.item {
            PageItems::Case => post == (UlidPage {
                cur: CurrentStatus {
                    case_sel: (if pre.cur.case_sel is Uppercase {
                        CaseItemSelect::Lowercase
                    } else {
                        pre.cur.case_sel
                    }),
                    ..pre.cur
                },
                ..pre
            }),
            PageItems::Count => post == (UlidPage {
                cur: CurrentStatus {
                    count: (if pre.cur.count < COUNT_MAX {
                        (pre.cur.count + 1) as usize
                    } else {
                        pre.cur.count
                    }),
                    ..pre.cur
                },
                ..pre
            }),
            PageItems::Output => post == pre,
        }
}

/// The saturating move of the value under the cursor, one step back.
pub open spec fn spec_ulid_value_prev(pre: UlidPage, post: UlidPage) -> bool {
    match pre.cur.item {
            PageItems::Case => post == (UlidPage {
                cur: CurrentStatus {
                    case_sel: (if pre.cur.case_sel is Lowercase {
                        CaseItemSelect::Uppercase
                    } else {
                        pre.cur.case_sel
                    }),
                    ..pre.cur
                },
                ..pre
            }),
            PageItems::Count => post == (UlidPage {
                cur: CurrentStatus {
                    count: (if pre.cur.count > 1 {
                        (pre.cur.count - 1) as usize
                    } else {
                        pre.cur.count
                    }),
                    ..pre.cur
                },
                ..pre
            }),
            PageItems::Output => post == pre,
        }
}

/// One dispatch step of the page: the relation between the state before,
/// the message, the state after, and the follow-up message.
pub open spec fn spec_ulid_step(
    pre: UlidPage,
    msg: UlidMsg,
    post: UlidPage,
    r: Option<Msg>,
) -> bool {
    &&& post.focused == pre.focused
    &&& (r matches Some(m) ==> m.is_notify())
    &&& match msg {
        UlidMsg::SelectNextItem => r is None && post == (UlidPage {
            cur: CurrentStatus { item: pre.cur.item.spec_next(), ..pre.cur },
            ..pre
        }),
        UlidMsg::SelectPrevItem => r is None && post == (UlidPage {
            cur: CurrentStatus { item: pre.cur.item.spec_prev(), ..pre.cur },
            ..pre
        }),
        UlidMsg::CurrentItemSelectNext => r is None && spec_ulid_value_next(pre, post),
        UlidMsg::CurrentItemSelectPrev => r is None && spec_ulid_value_prev(pre, post),
        UlidMsg::ScrollDown => r is None && (pre.cur.item is Output && pre.ids@.len() > 0 ==> post
            == (UlidPage {
            cur: CurrentStatus { output_state: post.cur.output_state, ..pre.cur },
            ..pre
        }) && post.cur.output_state.offset == crate::widget::scroll::spec_offset_down(
            pre.cur.output_state.offset as int,
        )) && (!(pre.cur.item is Output && pre.ids@.len() > 0) ==> post == pre),
        UlidMsg::ScrollUp => r is None && (pre.cur.item is Output && pre.ids@.len() > 0 ==> post
            == (UlidPage {
            cur: CurrentStatus { output_state: post.cur.output_state, ..pre.cur },
            ..pre
        }) && post.cur.output_state.offset == crate::widget::scroll::spec_offset_up(
            pre.cur.output_state.offset as int,
        )) && (!(pre.cur.item is Output && pre.ids@.len() > 0) ==> post == pre),
        UlidMsg::Generate => r is None && post.cur == pre.cur && post.ids@.len() == pre.cur.count,
        UlidMsg::Copy => post == pre && (pre.cur.item is Output ==> r is Some) && (!(pre.cur.item
            is Output) ==> r is None),
        UlidMsg::Paste => post.cur == pre.cur && (!(pre.cur.item is Output) ==> post == pre && r
            is None),
    }
}

/// The message one key press maps to while this page has focus.
pub open spec fn spec_ulid_key_msg(key: KeyInput) -> Option<Msg> {
    match key {
        KeyInput::Char('j') | KeyInput::Down => Some(
            Msg::Page(PageMsg::Ulid(UlidMsg::SelectNextItem)),
        ),
        KeyInput::Char('k') | KeyInput::Up => Some(
            Msg::Page(PageMsg::Ulid(UlidMsg::SelectPrevItem)),
        ),
        KeyInput::Char('l') | KeyInput::Right => Some(
            Msg::Page(PageMsg::Ulid(UlidMsg::CurrentItemSelectNext)),
        ),
        KeyInput::Char('h') | KeyInput::Left => Some(
            Msg::Page(PageMsg::Ulid(UlidMsg::CurrentItemSelectPrev)),
        ),
        KeyInput::CtrlChar('e') => Some(Msg::Page(PageMsg::Ulid(UlidMsg::ScrollDown))),
        KeyInput::CtrlChar('y') => Some(Msg::Page(PageMsg::Ulid(UlidMsg::ScrollUp))),
        KeyInput::Char('y') => Some(Msg::Page(PageMsg::Ulid(UlidMsg::Copy))),
        KeyInput::Char('p') => Some(Msg::Page(PageMsg::Ulid(UlidMsg::Paste))),
        KeyInput::Enter => Some(Msg::Page(PageMsg::Ulid(UlidMsg::Generate))),
        _ => None,
    }
}

/// The hint strings the page offers, by the selected field.
pub open spec fn spec_ulid_helps(item: PageItems) -> Seq<Seq<char>> {
    if item is Output {
        seq![
            "<j/k> Select item"@,
            "<Enter> Generate ulid"@,
            "<C-e/C-y> Scroll down/up"@,
            "<y> Copy to clipboard"@,
            "<p> Paste from clipboard"@,
        ]
    } else {
        seq![
            "<j/k> Select item"@,
            "<h/l> Select current item value"@,
            "<Enter> Generate ulid"@,
        ]
    }
}

} // verus!
