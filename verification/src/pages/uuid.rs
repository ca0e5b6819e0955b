use vstd::prelude::*;
use vstd::string::StringExecFns;
use crate::key::KeyInput;
use crate::msg::{Msg, PageMsg, UuidMsg};
use crate::numfmt::{format_radix_u128, spec_digit_char};
use crate::pages::util;
use crate::strutil::{ascii_upper_chars, chars_to_string, spec_ascii_upper, split_lines};
use crate::widget::scroll::ScrollOutputState;

verus! {

/// The most identifiers one generate step may produce.
pub const COUNT_MAX: usize = 100;

/// What parsing an identifier from text returns: the 128-bit value, or
/// nothing for text in none of the accepted shapes.
pub uninterp spec fn uuid_parse_of(s: Seq<char>) -> Option<u128>;

/// Relies on `uuid::Uuid::new_v4`: a random identifier; only the version
/// and variant bits are fixed.
#[verifier::external_body]
fn uuid_new_v4() -> (r: u128)
    ensures
        (r >> 76) & 0xf == 4,
        (r >> 62) & 3 == 2,
{
    uuid::Uuid::new_v4().as_u128()
}

/// Relies on `uuid::Uuid::parse_str`: accepts the hyphenated, simple,
/// braced and URN shapes of either case; the result is a function of the
/// characters alone.
#[verifier::external_body]
fn uuid_parse(s: &str) -> (r: Option<u128>)
    ensures
        r == uuid_parse_of(s@),
{
    uuid::Uuid::parse_str(s).ok().map(|u| u.as_u128())
}

/// The value rendered as `width` hexadecimal digits, lower case, most
/// significant first, zero padded.
pub open spec fn spec_hex_pad(v: int, width: nat) -> Seq<char>
    decreases width,
{
    if width == 0 {
        Seq::empty()
    } else {
        spec_hex_pad(v / 16, (width - 1) as nat).push(spec_digit_char(v % 16))
    }
}

pub proof fn lemma_hex_pad_len(v: int, width: nat)
    ensures
        spec_hex_pad(v, width).len() == width,
    decreases width,
{
    if width > 0 {
        lemma_hex_pad_len(v / 16, (width - 1) as nat);
    }
}

/// The 32 hex digits of the value with hyphens after the 8th, 12th, 16th
/// and 20th digit.
pub open spec fn spec_uuid_hyphenated(v: u128) -> Seq<char> {
    let h = spec_hex_pad(v as int, 32);
    Seq::new(
        36,
        |i: int|
            if i == 8 || i == 13 || i == 18 || i == 23 {
                '-'
            } else if i < 8 {
                h[i]
            } else if i < 13 {
                h[i - 1]
            } else if i < 18 {
                h[i - 2]
            } else if i < 23 {
                h[i - 3]
            } else {
                h[i - 4]
            },
    )
}

/// Renders the value as `width` lower-case hex digits.
fn format_hex_pad(v: u128, width: usize) -> (r: Vec<char>)
    ensures
        r@ == spec_hex_pad(v as int, width as nat),
        r@.len() == width,
{
    let mut rev: Vec<char> = Vec::new();
    let mut n: u128 = v;
    let mut k: usize = 0;
    while k < width
        invariant
            k <= width,
            rev@.len() == k,
            spec_hex_pad(v as int, width as nat) =~= spec_hex_pad(
                n as int,
                (width - k) as nat,
            ) + rev@.reverse(),
        decreases width - k,
    {
        let d = n % 16;
        let c = crate::pages::uuid::hex_digit(d);
        proof {
            let ni = n as int;
            assert(spec_hex_pad(ni, (width - k) as nat) == spec_hex_pad(
                ni / 16,
                (width - k - 1) as nat,
            ).push(spec_digit_char(ni % 16)));
            assert(rev@.push(c).reverse() =~= seq![c] + rev@.reverse());
            assert(spec_hex_pad(ni / 16, (width - k - 1) as nat) + rev@.push(c).reverse()
                =~= spec_hex_pad(ni, (width - k) as nat) + rev@.reverse());
        }
        rev.push(c);
        n = n / 16;
        k = k + 1;
    }
    let mut r: Vec<char> = Vec::new();
    let mut j: usize = rev.len();
    while j > 0
        invariant
            j <= rev@.len(),
            r@ =~= rev@.subrange(j as int, rev@.len() as int).reverse(),
        decreases j,
    {
        j = j - 1;
        let c = rev[j];
        r.push(c);
        proof {
            assert(rev@.subrange(j as int, rev@.len() as int).reverse() =~= rev@.subrange(
                j + 1,
                rev@.len() as int,
            ).reverse().push(rev@[j as int]));
        }
    }
    proof {
        assert(rev@.subrange(0, rev@.len() as int) =~= rev@);
        lemma_hex_pad_len(v as int, width as nat);
        assert(r@ =~= spec_hex_pad(v as int, width as nat));
    }
    r
}

fn hex_digit(d: u128) -> (r: char)
    requires
        d < 16,
    ensures
        r == spec_digit_char(d as int),
{
    if d == 0 {
        '0'
    } else if d == 1 {
        '1'
    } else if d == 2 {
        '2'
    } else if d == 3 {
        '3'
    } else if d == 4 {
        '4'
    } else if d == 5 {
        '5'
    } else if d == 6 {
        '6'
    } else if d == 7 {
        '7'
    } else if d == 8 {
        '8'
    } else if d == 9 {
        '9'
    } else if d == 10 {
        'a'
    } else if d == 11 {
        'b'
    } else if d == 12 {
        'c'
    } else if d == 13 {
        'd'
    } else if d == 14 {
        'e'
    } else {
        'f'
    }
}

/// Whether the rendering carries hyphens; a saturating selector.
#[derive(Clone, Copy, Debug, PartialEq, Eq, Structural)]
pub enum HyphenItemSelect {
    WithHyphen,
    WithoutHyphen,
}

impl HyphenItemSelect {
    pub open spec fn spec_val(&self) -> int {
        match self {
            HyphenItemSelect::WithHyphen => 0,
            HyphenItemSelect::WithoutHyphen => 1,
        }
    }

    pub fn val(&self) -> (r: usize)
        ensures
            r == self.spec_val(),
    {
        match self {
            HyphenItemSelect::WithHyphen => 0,
            HyphenItemSelect::WithoutHyphen => 1,
        }
    }

    pub fn next_mut(&mut self)
        ensures
            *final(self) == (if *old(self) is WithHyphen {
                HyphenItemSelect::WithoutHyphen
            } else {
                *old(self)
            }),
    {
        if let HyphenItemSelect::WithHyphen = self {
            *self = HyphenItemSelect::WithoutHyphen;
        }
    }

    pub fn prev_mut(&mut self)
        ensures
            *final(self) == (if *old(self) is WithoutHyphen {
                HyphenItemSelect::WithHyphen
            } else {
                *old(self)
            }),
    {
        if let HyphenItemSelect::WithoutHyphen = self {
            *self = HyphenItemSelect::WithHyphen;
        }
    }

    pub fn strings_vec() -> (r: Vec<String>)
        ensures
            r@.len() == 2,
            r@[0]@ == "With hyphen"@,
            r@[1]@ == "Without hyphen"@,
    {
        let mut v: Vec<String> = Vec::new();
        v.push(String::from_str("With hyphen"));
        v.push(String::from_str("Without hyphen"));
        v
    }
}

/// The letter case of the rendering; a saturating selector.
#[derive(Clone, Copy, Debug, PartialEq, Eq, Structural)]
pub enum CaseItemSelect {
    Lowercase,
    Uppercase,
}

impl CaseItemSelect {
    pub open spec fn spec_val(&self) -> int {
        match self {
            CaseItemSelect::Lowercase => 0,
            CaseItemSelect::Uppercase => 1,
        }
    }

    pub fn val(&self) -> (r: usize)
        ensures
            r == self.spec_val(),
    {
        match self {
            CaseItemSelect::Lowercase => 0,
            CaseItemSelect::Uppercase => 1,
        }
    }

    pub fn next_mut(&mut self)
        ensures
            *final(self) == (if *old(self) is Lowercase {
                CaseItemSelect::Uppercase
            } else {
                *old(self)
            }),
    {
        if let CaseItemSelect::Lowercase = self {
            *self = CaseItemSelect::Uppercase;
        }
    }

    pub fn prev_mut(&mut self)
        ensures
            *final(self) == (if *old(self) is Uppercase {
                CaseItemSelect::Lowercase
            } else {
                *old(self)
            }),
    {
        if let CaseItemSelect::Uppercase = self {
            *self = CaseItemSelect::Lowercase;
        }
    }

    pub fn strings_vec() -> (r: Vec<String>)
        ensures
            r@.len() == 2,
            r@[0]@ == "Lowercase"@,
            r@[1]@ == "Uppercase"@,
    {
        let mut v: Vec<String> = Vec::new();
        v.push(String::from_str("Lowercase"));
        v.push(String::from_str("Uppercase"));
        v
    }
}

/// The identifier version; a single-value selector.
#[derive(Clone, Copy, Debug, PartialEq, Eq, Structural)]
pub enum VersionItemSelect {
    V4,
}

impl VersionItemSelect {
    pub open spec fn spec_val(&self) -> int {
        0
    }

    pub fn val(&self) -> (r: usize)
        ensures
            r == self.spec_val(),
    {
        0
    }

    pub fn next_mut(&mut self)
        ensures
            *final(self) == *old(self),
    {
    }

    pub fn prev_mut(&mut self)
        ensures
            *final(self) == *old(self),
    {
    }

    pub fn strings_vec() -> (r: Vec<String>)
        ensures
            r@.len() == 1,
            r@[0]@ == "Version 4"@,
    {
        let mut v: Vec<String> = Vec::new();
        v.push(String::from_str("Version 4"));
        v
    }
}

/// The field cursor of the page, cycling with wraparound.
#[derive(Clone, Copy, Debug, PartialEq, Eq, Structural)]
pub enum PageItems {
    Hyphen,
    Case,
    Version,
    Count,
    Output,
}

impl PageItems {
    pub open spec fn spec_next(&self) -> PageItems {
        match self {
            PageItems::Hyphen => PageItems::Case,
            PageItems::Case => PageItems::Version,
            PageItems::Version => PageItems::Count,
            PageItems::Count => PageItems::Output,
            PageItems::Output => PageItems::Hyphen,
        }
    }

    pub fn next(&self) -> (r: PageItems)
        ensures
            r == self.spec_next(),
    {
        match self {
            PageItems::Hyphen => PageItems::Case,
            PageItems::Case => PageItems::Version,
            PageItems::Version => PageItems::Count,
            PageItems::Count => PageItems::Output,
            PageItems::Output => PageItems::Hyphen,
        }
    }

    pub open spec fn spec_prev(&self) -> PageItems {
        match self {
            PageItems::Hyphen => PageItems::Output,
            PageItems::Case => PageItems::Hyphen,
            PageItems::Version => PageItems::Case,
            PageItems::Count => PageItems::Version,
            PageItems::Output => PageItems::Count,
        }
    }

    pub fn prev(&self) -> (r: PageItems)
        ensures
            r == self.spec_prev(),
    {
        match self {
            PageItems::Hyphen => PageItems::Output,
            PageItems::Case => PageItems::Hyphen,
            PageItems::Version => PageItems::Case,
            PageItems::Count => PageItems::Version,
            PageItems::Output => PageItems::Count,
        }
    }
}

/// The rendering of one identifier under the page's format options.
pub open spec fn spec_format_uuid(
    id: u128,
    hyphen: HyphenItemSelect,
    case: CaseItemSelect,
) -> Seq<char> {
    let base = if hyphen is WithHyphen {
        spec_uuid_hyphenated(id)
    } else {
        spec_hex_pad(id as int, 32)
    };
    if case is Uppercase {
        spec_ascii_upper(base)
    } else {
        base
    }
}

/// What parsing the pasted text line by line yields: the parsed identifiers
/// in order, and the number of rejected lines.
pub open spec fn spec_parse_uuid_lines(lines: Seq<Seq<char>>) -> (Seq<u128>, int)
    decreases lines.len(),
{
    if lines.len() == 0 {
        (Seq::empty(), 0)
    } else {
        let rest = spec_parse_uuid_lines(lines.drop_last());
        match uuid_parse_of(lines.last()) {
            Some(id) => (rest.0.push(id), rest.1),
            None => (rest.0, rest.1 + 1),
        }
    }
}

/// Parses one identifier per line of the text; lines that are no identifier
/// are counted instead of parsed.
pub fn parse_uuid_lines(text: &str) -> (r: (Vec<u128>, usize))
    ensures
        r.0@ == spec_parse_uuid_lines(spec_lines_of(text@)).0,
        r.1 == spec_parse_uuid_lines(spec_lines_of(text@)).1,
{
    let lines = split_lines(text);
    let ghost lviews = crate::strutil::spec_lines(text@);
    let mut ids: Vec<u128> = Vec::new();
    let mut failures: usize = 0;
    let mut i: usize = 0;
    while i < lines.len()
        invariant
            i <= lines@.len(),
            lines@.map_values(|l: String| l@) == lviews,
            lviews == crate::strutil::spec_lines(text@),
            failures <= i,
            ids@ == spec_parse_uuid_lines(lviews.take(i as int)).0,
            failures == spec_parse_uuid_lines(lviews.take(i as int)).1,
        decreases lines@.len() - i,
    {
        proof {
            let t = lviews.take(i + 1);
            assert(t.drop_last() =~= lviews.take(i as int));
            assert(t.last() == lviews[i as int]);
            assert(lviews[i as int] == lines@[i as int]@);
        }
        match uuid_parse(lines[i].as_str()) {
            Some(id) => {
                ids.push(id);
            },
            None => {
                failures = failures + 1;
            },
        }
        i = i + 1;
    }
    proof {
        assert(lviews.take(lviews.len() as int) =~= lviews);
    }
    (ids, failures)
}

/// The lines of the text, as the line splitter of this crate defines them.
pub open spec fn spec_lines_of(s: Seq<char>) -> Seq<Seq<char>> {
    crate::strutil::spec_lines(s)
}

/// The changing state of the page: the field cursor, the format selectors,
/// the generation count, and the output viewport offset.
pub struct CurrentStatus {
    pub item: PageItems,
    pub hyphen_sel: HyphenItemSelect,
    pub case_sel: CaseItemSelect,
    pub ver_sel: VersionItemSelect,
    pub count: usize,
    pub output_state: ScrollOutputState,
}

/// The identifier generator page: format selectors, a count, and the list
/// of generated identifiers shown in a scrollable output.
pub struct UuidPage {
    pub focused: bool,
    pub cur: CurrentStatus,
    pub ids: Vec<u128>,
}

impl UuidPage {
    /// The generation count always stays between one and the cap.
    pub open spec fn wf(&self) -> bool {
        1 <= self.cur.count <= COUNT_MAX
    }

    pub fn new(focused: bool) -> (r: UuidPage)
        ensures
            r.focused == focused,
            r.cur.item == PageItems::Hyphen,
            r.cur.hyphen_sel == HyphenItemSelect::WithHyphen,
            r.cur.case_sel == CaseItemSelect::Lowercase,
            r.cur.count == 1,
            r.cur.output_state.offset == 0,
            r.ids@.len() == 0,
            r.wf(),
    {
        UuidPage {
            focused,
            cur: CurrentStatus {
                item: PageItems::Hyphen,
                hyphen_sel: HyphenItemSelect::WithHyphen,
                case_sel: CaseItemSelect::Lowercase,
                ver_sel: VersionItemSelect::V4,
                count: 1,
                output_state: ScrollOutputState::new(0),
            },
            ids: Vec::new(),
        }
    }

    pub fn handle_key(&self, key: KeyInput) -> (r: Option<Msg>)
        ensures
            r == spec_uuid_key_msg(key),
    {
        let msg = match key {
            KeyInput::Char('j') | KeyInput::Down => UuidMsg::SelectNextItem,
            KeyInput::Char('k') | KeyInput::Up => UuidMsg::SelectPrevItem,
            KeyInput::Char('l') | KeyInput::Right => UuidMsg::CurrentItemSelectNext,
            KeyInput::Char('h') | KeyInput::Left => UuidMsg::CurrentItemSelectPrev,
            KeyInput::CtrlChar('e') => UuidMsg::ScrollDown,
            KeyInput::CtrlChar('y') => UuidMsg::ScrollUp,
            KeyInput::Char('y') => UuidMsg::Copy,
            KeyInput::Char('p') => UuidMsg::Paste,
            KeyInput::Enter => UuidMsg::Generate,
            _ => {
                return None;
            },
        };
        Some(Msg::Page(PageMsg::Uuid(msg)))
    }

    /// Reacts to one page message.  A follow-up message, when one comes
    /// back, is always a notification.
    pub fn update(&mut self, msg: UuidMsg) -> (r: Option<Msg>)
        requires
            old(self).wf(),
        ensures
            final(self).wf(),
            spec_uuid_step(*old(self), msg, *final(self), r),
    {
        match msg {
            UuidMsg::SelectNextItem => {
                self.cur.item = self.cur.item.next();
                None
            },
            UuidMsg::SelectPrevItem => {
                self.cur.item = self.cur.item.prev();
                None
            },
            UuidMsg::CurrentItemSelectNext => {
                self.current_item_select_next();
                None
            },
            UuidMsg::CurrentItemSelectPrev => {
                self.current_item_select_prev();
                None
            },
            UuidMsg::ScrollDown => {
                self.scroll_down();
                None
            },
            UuidMsg::ScrollUp => {
                self.scroll_up();
                None
            },
            UuidMsg::Generate => {
                self.generate_uuid();
                None
            },
            UuidMsg::Copy => self.copy_to_clipboard(),
            UuidMsg::Paste => self.paste_from_clipboard(),
        }
    }

    pub fn focus(&mut self)
        ensures
            *final(self) == (UuidPage { focused: true, ..*old(self) }),
    {
        self.focused = true;
    }

    pub fn unfocus(&mut self)
        ensures
            *final(self) == (UuidPage { focused: false, ..*old(self) }),
    {
        self.focused = false;
    }

    pub fn helps(&self) -> (r: Vec<&'static str>)
        ensures
            r@.map_values(|s: &str| s@) == spec_uuid_helps(self.cur.item),
    {
        let mut helps: Vec<&'static str> = Vec::new();
        helps.push("<j/k> Select item");
        if !(matches!(self.cur.item, PageItems::Output)) {
            helps.push("<h/l> Select current item value");
        }
        helps.push("<Enter> Generate uuid");
        if matches!(self.cur.item, PageItems::Output) {
            helps.push("<C-e/C-y> Scroll down/up");
            helps.push("<y> Copy to clipboard");
            helps.push("<p> Paste from clipboard");
        }
        proof {
            assert(helps@.map_values(|s: &str| s@) =~= spec_uuid_helps(self.cur.item));
        }
        helps
    }

    fn current_item_select_next(&mut self)
        requires
            old(self).wf(),
        ensures
            final(self).wf(),
            final(self).focused == old(self).focused,
            spec_uuid_value_next(*old(self), *final(self)),
    {
        match self.cur.item {
            PageItems::Hyphen => {
                self.cur.hyphen_sel.next_mut();
            },
            PageItems::Case => {
                self.cur.case_sel.next_mut();
            },
            PageItems::Version => {
                self.cur.ver_sel.next_mut();
            },
            PageItems::Count => {
                if self.cur.count < COUNT_MAX {
                    self.cur.count = self.cur.count + 1;
                }
            },
            PageItems::Output => {},
        }
    }

    fn current_item_select_prev(&mut self)
        requires
            old(self).wf(),
        ensures
            final(self).wf(),
            final(self).focused == old(self).focused,
            spec_uuid_value_prev(*old(self), *final(self)),
    {
        match self.cur.item {
            PageItems::Hyphen => {
                self.cur.hyphen_sel.prev_mut();
            },
            PageItems::Case => {
                self.cur.case_sel.prev_mut();
            },
            PageItems::Version => {
                self.cur.ver_sel.prev_mut();
            },
            PageItems::Count => {
                if self.cur.count > 1 {
                    self.cur.count = self.cur.count - 1;
                }
            },
            PageItems::Output => {},
        }
    }

    fn scroll_down(&mut self)
        ensures
            final(self).ids == old(self).ids,
            final(self).focused == old(self).focused,
            final(self).cur.item == old(self).cur.item,
            final(self).cur.hyphen_sel == old(self).cur.hyphen_sel,
            final(self).cur.case_sel == old(self).cur.case_sel,
            final(self).cur.ver_sel == old(self).cur.ver_sel,
            final(self).cur.count == old(self).cur.count,
            old(self).cur.item is Output && old(self).ids@.len() > 0 ==> final(self).cur.output_state.offset == crate::widget::scroll::spec_offset_down(
                old(self).cur.output_state.offset as int,
            ),
            !(old(self).cur.item is Output && old(self).ids@.len() > 0) ==> *final(self) == *old(self),
    {
        if !(matches!(self.cur.item, PageItems::Output)) || self.ids.len() == 0 {
            return ;
        }
        self.cur.output_state.scroll_down();
    }

    fn scroll_up(&mut self)
        ensures
            final(self).ids == old(self).ids,
            final(self).focused == old(self).focused,
            final(self).cur.item == old(self).cur.item,
            final(self).cur.hyphen_sel == old(self).cur.hyphen_sel,
            final(self).cur.case_sel == old(self).cur.case_sel,
            final(self).cur.ver_sel == old(self).cur.ver_sel,
            final(self).cur.count == old(self).cur.count,
            old(self).cur.item is Output && old(self).ids@.len() > 0 ==> final(self).cur.output_state.offset == crate::widget::scroll::spec_offset_up(
                old(self).cur.output_state.offset as int,
            ),
            !(old(self).cur.item is Output && old(self).ids@.len() > 0) ==> *final(self) == *old(self),
    {
        if !(matches!(self.cur.item, PageItems::Output)) || self.ids.len() == 0 {
            return ;
        }
        self.cur.output_state.scroll_up();
    }

    /// Replaces the identifiers with `count` freshly generated ones; every
    /// one carries the version and variant bits of a random identifier.
    fn generate_uuid(&mut self)
        ensures
            final(self).cur == old(self).cur,
            final(self).focused == old(self).focused,
            final(self).ids@.len() == old(self).cur.count,
            forall|j: int|
                0 <= j < final(self).ids@.len() ==> (#[trigger] final(self).ids@[j] >> 76) & 0xf
                    == 4 && (final(self).ids@[j] >> 62) & 3 == 2,
    {
        let mut ids: Vec<u128> = Vec::new();
        let mut i: usize = 0;
        while i < self.cur.count
            invariant
                i <= self.cur.count,
                ids@.len() == i,
                forall|j: int|
                    0 <= j < ids@.len() ==> (#[trigger] ids@[j] >> 76) & 0xf == 4 && (ids@[j]
                        >> 62) & 3 == 2,
            decreases self.cur.count - i,
        {
            let id = uuid_new_v4();
            ids.push(id);
            i = i + 1;
        }
        self.ids = ids;
    }

    /// The rendering of one identifier under the current format options.
    pub fn format_uuid(&self, id: u128) -> (r: String)
        ensures
            r@ == spec_format_uuid(id, self.cur.hyphen_sel, self.cur.case_sel),
    {
        let base: Vec<char> = match self.cur.hyphen_sel {
            HyphenItemSelect::WithHyphen => {
                let h = format_hex_pad(id, 32);
                let mut out: Vec<char> = Vec::new();
                let mut i: usize = 0;
                while i < 36
                    invariant
                        i <= 36,
                        h@ == spec_hex_pad(id as int, 32),
                        h@.len() == 32,
                        out@.len() == i,
                        forall|j: int| 0 <= j < i ==> out@[j] == spec_uuid_hyphenated(id)[j],
                    decreases 36 - i,
                {
                    if i == 8 || i == 13 || i == 18 || i == 23 {
                        out.push('-');
                    } else if i < 8 {
                        let c = h[i];
                        out.push(c);
                    } else if i < 13 {
                        let c = h[i - 1];
                        out.push(c);
                    } else if i < 18 {
                        let c = h[i - 2];
                        out.push(c);
                    } else if i < 23 {
                        let c = h[i - 3];
                        out.push(c);
                    } else {
                        let c = h[i - 4];
                        out.push(c);
                    }
                    i = i + 1;
                }
                proof {
                    assert(out@ =~= spec_uuid_hyphenated(id));
                }
                out
            },
            HyphenItemSelect::WithoutHyphen => format_hex_pad(id, 32),
        };
        match self.cur.case_sel {
            CaseItemSelect::Lowercase => chars_to_string(&base),
            CaseItemSelect::Uppercase => {
                let upper = ascii_upper_chars(&base);
                chars_to_string(&upper)
            },
        }
    }

    /// The identifiers as output lines, formatted under the current
    /// options.
    pub fn output_lines(&self) -> (r: Vec<String>)
        ensures
            r@.map_values(|l: String| l@) == self.ids@.map_values(
                |id: u128| spec_format_uuid(id, self.cur.hyphen_sel, self.cur.case_sel),
            ),
    {
        let mut r: Vec<String> = Vec::new();
        let mut i: usize = 0;
        while i < self.ids.len()
            invariant
                i <= self.ids@.len(),
                r@.len() == i,
                forall|j: int|
                    0 <= j < i ==> #[trigger] r@[j]@ == spec_format_uuid(
                        self.ids@[j],
                        self.cur.hyphen_sel,
                        self.cur.case_sel,
                    ),
            decreases self.ids@.len() - i,
        {
            let id = self.ids[i];
            let line = self.format_uuid(id);
            r.push(line);
            i = i + 1;
        }
        proof {
            assert(r@.map_values(|l: String| l@) =~= self.ids@.map_values(
                |id: u128| spec_format_uuid(id, self.cur.hyphen_sel, self.cur.case_sel),
            ));
        }
        r
    }

    fn copy_to_clipboard(&self) -> (r: Option<Msg>)
        ensures
            self.cur.item is Output ==> r is Some && (r matches Some(m) ==> m.is_notify()),
            !(self.cur.item is Output) ==> r is None,
    {
        if !(matches!(self.cur.item, PageItems::Output)) {
            return None;
        }
        let lines = self.output_lines();
        let mut text = String::new();
        let mut i: usize = 0;
        while i < lines.len()
            decreases lines@.len() - i,
        {
            if i > 0 {
                text.append("\n");
            }
            text.append(lines[i].as_str());
            i = i + 1;
        }
        util::copy_to_clipboard(text.as_str())
    }

    fn paste_from_clipboard(&mut self) -> (r: Option<Msg>)
        ensures
            final(self).cur == old(self).cur,
            final(self).focused == old(self).focused,
            r matches Some(m) ==> m.is_notify(),
            !(old(self).cur.item is Output) ==> *final(self) == *old(self) && r is None,
    {
        if !(matches!(self.cur.item, PageItems::Output)) {
            return None;
        }
        match util::paste_from_clipboard() {
            Some(text) => {
                let (ids, failures) = parse_uuid_lines(text.as_str());
                self.ids = ids;
                if failures > 0 {
                    let mut m = String::from_str("Could not parse ");
                    let n = format_radix_u128(failures as u128, 10);
                    m.append(n.as_str());
                    m.append(" lines of string to UUID");
                    Some(Msg::NotifyWarn(m))
                } else {
                    None
                }
            },
            None => Some(Msg::NotifyError(String::from_str("Paste from clipboard failed"))),
        }
    }
}

/// The saturating move of the value under the cursor, one step forward.
pub open spec fn spec_uuid_value_next(pre: UuidPage, post: UuidPage) -> bool {
    match pre.cur.item {
            PageItems::Hyphen => post == (UuidPage {
                cur: CurrentStatus {
                    hyphen_sel: (if pre.cur.hyphen_sel is WithHyphen {
                        HyphenItemSelect::WithoutHyphen
                    } else {
                        pre.cur.hyphen_sel
                    }),
                    ..pre.cur
                },
                ..pre
            }),
            PageItems::Case => post == (UuidPage {
                cur: CurrentStatus {
                    case_sel: (if pre.cur.case_sel is Lowercase {
                        CaseItemSelect::Uppercase
                    } else {
                        pre.cur.case_sel
                    }),
                    ..pre.cur
                },
                ..pre
            }),
            PageItems::Version => post == pre,
            PageItems::Count => post == (UuidPage {
                cur: CurrentStatus {
                    count: (if pre.cur.count < COUNT_MAX {
                        (pre.cur.count + 1) as usize
                    } else {
                        pre.cur.count
                    }),
                    ..pre.cur
                },
                ..pre
            }),
            PageItems::Output => post == pre,
        }
}

/// The saturating move of the value under the cursor, one step back.
pub open spec fn spec_uuid_value_prev(pre: UuidPage, post: UuidPage) -> bool {
    match pre.cur.item {
            PageItems::Hyphen => post == (UuidPage {
                cur: CurrentStatus {
                    hyphen_sel: (if pre.cur.hyphen_sel is WithoutHyphen {
                        HyphenItemSelect::WithHyphen
                    } else {
                        pre.cur.hyphen_sel
                    }),
                    ..pre.cur
                },
                ..pre
            }),
            PageItems::Case => post == (UuidPage {
                cur: CurrentStatus {
                    case_sel: (if pre.cur.case_sel is Uppercase {
                        CaseItemSelect::Lowercase
                    } else {
                        pre.cur.case_sel
                    }),
                    ..pre.cur
                },
                ..pre
            }),
            PageItems::Version => post == pre,
            PageItems::Count => post == (UuidPage {
                cur: CurrentStatus {
                    count: (if pre.cur.count > 1 {
                        (pre.cur.count - 1) as usize
                    } else {
                        pre.cur.count
                    }),
                    ..pre.cur
                },
                ..pre
            }),
            PageItems::Output => post == pre,
        }
}

/// One dispatch step of the page: the relation between the state before,
/// the message, the state after, and the follow-up message.
pub open spec fn spec_uuid_step(
    pre: UuidPage,
    msg: UuidMsg,
    post: UuidPage,
    r: Option<Msg>,
) -> bool {
    &&& post.focused == pre.focused
    &&& (r matches Some(m) ==> m.is_notify())
    &&& match msg {
        UuidMsg::SelectNextItem => r is None && post == (UuidPage {
            cur: CurrentStatus { item: pre.cur.item.spec_next(), ..pre.cur },
            ..pre
        }),
        UuidMsg::SelectPrevItem => r is None && post == (UuidPage {
            cur: CurrentStatus { item: pre.cur.item.spec_prev(), ..pre.cur },
            ..pre
        }),
        UuidMsg::CurrentItemSelectNext => r is None && spec_uuid_value_next(pre, post),
        UuidMsg::CurrentItemSelectPrev => r is None && spec_uuid_value_prev(pre, post),
        UuidMsg::ScrollDown => r is None && (pre.cur.item is Output && pre.ids@.len() > 0 ==> post
            == (UuidPage {
            cur: CurrentStatus { output_state: post.cur.output_state, ..pre.cur },
            ..pre
        }) && post.cur.output_state.offset == crate::widget::scroll::spec_offset_down(
            pre.cur.output_state.offset as int,
        )) && (!(pre.cur.item is Output && pre.ids@.len() > 0) ==> post == pre),
        UuidMsg::ScrollUp => r is None && (pre.cur.item is Output && pre.ids@.len() > 0 ==> post
            == (UuidPage {
            cur: CurrentStatus { output_state: post.cur.output_state, ..pre.cur },
            ..pre
        }) && post.cur.output_state.offset == crate::widget::scroll::spec_offset_up(
            pre.cur.output_state.offset as int,
        )) && (!(pre.cur.item is Output && pre.ids@.len() > 0) ==> post == pre),
        UuidMsg::Generate => r is None && post.cur == pre.cur && post.ids@.len() == pre.cur.count
            && (forall|j: int|
            0 <= j < post.ids@.len() ==> (#[trigger] post.ids@[j] >> 76) & 0xf == 4 && (
            post.ids@[j] >> 62) & 3 == 2),
        UuidMsg::Copy => post == pre && (pre.cur.item is Output ==> r is Some) && (!(pre.cur.item
            is Output) ==> r is None),
        UuidMsg::Paste => post.cur == pre.cur && (!(pre.cur.item is Output) ==> post == pre && r
            is None),
    }
}

/// The message one key press maps to while this page has focus.
pub open spec fn spec_uuid_key_msg(key: KeyInput) -> Option<Msg> {
    match key {
        KeyInput::Char('j') | KeyInput::Down => Some(
            Msg::Page(PageMsg::Uuid(UuidMsg::SelectNextItem)),
        ),
        KeyInput::Char('k') | KeyInput::Up => Some(
            Msg::Page(PageMsg::Uuid(UuidMsg::SelectPrevItem)),
        ),
        KeyInput::Char('l') | KeyInput::Right => Some(
            Msg::Page(PageMsg::Uuid(UuidMsg::CurrentItemSelectNext)),
        ),
        KeyInput::Char('h') | KeyInput::Left => Some(
            Msg::Page(PageMsg::Uuid(UuidMsg::CurrentItemSelectPrev)),
        ),
        KeyInput::CtrlChar('e') => Some(Msg::Page(PageMsg::Uuid(UuidMsg::ScrollDown))),
        KeyInput::CtrlChar('y') => Some(Msg::Page(PageMsg::Uuid(UuidMsg::ScrollUp))),
        KeyInput::Char('y') => Some(Msg::Page(PageMsg::Uuid(UuidMsg::Copy))),
        KeyInput::Char('p') => Some(Msg::Page(PageMsg::Uuid(UuidMsg::Paste))),
        KeyInput::Enter => Some(Msg::Page(PageMsg::Uuid(UuidMsg::Generate))),
        _ => None,
    }
}

/// The hint strings the page offers, by the selected field.
pub open spec fn spec_uuid_helps(item: PageItems) -> Seq<Seq<char>> {
    if item is Output {
        seq![
            "<j/k> Select item"@,
            "<Enter> Generate uuid"@,
            "<C-e/C-y> Scroll down/up"@,
            "<y> Copy to clipboard"@,
            "<p> Paste from clipboard"@,
        ]
    } else {
        seq![
            "<j/k> Select item"@,
            "<h/l> Select current item value"@,
            "<Enter> Generate uuid"@,
        ]
    }
}

} // verus!
