use vstd::prelude::*;
use vstd::string::StrSliceExecFns;
use vstd::string::StringExecFns;
use vstd::string::StringSliceAdditionalSpecFns;
use vstd::utf8::{decode_utf8, valid_utf8};
use crate::key::KeyInput;
use crate::msg::{Msg, PageMsg, UrlMsg};
use crate::pages::util;
use crate::strutil::chars_to_string;
use crate::widget::scroll::ScrollOutputState;

verus! {

/// The upper-case hexadecimal digit for one digit value.
pub open spec fn spec_hex_upper_char(d: int) -> char {
    if d == 0 {
        '0'
    } else if d == 1 {
        '1'
    } else if d == 2 {
        '2'
    } else if d == 3 {
        '3'
    } else if d == 4 {
        '4'
    } else if d == 5 {
        '5'
    } else if d == 6 {
        '6'
    } else if d == 7 {
        '7'
    } else if d == 8 {
        '8'
    } else if d == 9 {
        '9'
    } else if d == 10 {
        'A'
    } else if d == 11 {
        'B'
    } else if d == 12 {
        'C'
    } else if d == 13 {
        'D'
    } else if d == 14 {
        'E'
    } else if d == 15 {
        'F'
    } else {
        '?'
    }
}

/// Which bytes the encoder escapes: every non-ASCII byte, the control
/// characters, and the fragment set of space, quote, angle brackets and
/// backtick.
pub open spec fn spec_must_encode(b: u8) -> bool {
    b >= 0x80 || b <= 0x1f || b == 0x7f || b == 0x20 || b == 0x22 || b == 0x3c || b == 0x3e || b
        == 0x60
}

/// The escape of one byte: a percent sign and two upper-case hex digits.
pub open spec fn spec_pct_escape(b: u8) -> Seq<char> {
    seq!['%', spec_hex_upper_char(b as int / 16), spec_hex_upper_char(b as int % 16)]
}

/// The percent-encoding of a byte string: escaped bytes are replaced by
/// their escape, the rest stand as themselves.
pub open spec fn spec_pct_encode(bytes: Seq<u8>) -> Seq<char>
    decreases bytes.len(),
{
    if bytes.len() == 0 {
        Seq::empty()
    } else {
        spec_pct_encode(bytes.drop_last()) + (if spec_must_encode(bytes.last()) {
            spec_pct_escape(bytes.last())
        } else {
            seq![bytes.last() as char]
        })
    }
}

/// The value of one hexadecimal digit byte of either case, or -1.
pub open spec fn spec_hex_val_byte(b: u8) -> int {
    if 48 <= b <= 57 {
        b - 48
    } else if 97 <= b <= 102 {
        b - 97 + 10
    } else if 65 <= b <= 70 {
        b - 65 + 10
    } else {
        -1
    }
}

/// The percent-decoding of a byte string: every percent sign followed by
/// two hex digits becomes one byte, any other byte stands as itself.
pub open spec fn spec_pct_decode(bytes: Seq<u8>) -> Seq<u8>
    decreases bytes.len(),
{
    if bytes.len() == 0 {
        Seq::empty()
    } else if bytes[0] == 0x25 && bytes.len() >= 3 && spec_hex_val_byte(bytes[1]) >= 0
        && spec_hex_val_byte(bytes[2]) >= 0 {
        seq![(16 * spec_hex_val_byte(bytes[1]) + spec_hex_val_byte(bytes[2])) as u8]
            + spec_pct_decode(bytes.skip(3))
    } else {
        seq![bytes[0]] + spec_pct_decode(bytes.skip(1))
    }
}

/// Relies on `percent_encoding::percent_encode_byte`: the three-character
/// escape of the byte, with upper-case hex digits.
#[verifier::external_body]
fn pct_encode_byte(b: u8) -> (r: &'static str)
    ensures
        r@ == spec_pct_escape(b),
{
    percent_encoding::percent_encode_byte(b)
}

/// Relies on `percent_encoding::percent_decode_str` and `decode_utf8` on its
/// result: percent escapes are decoded to bytes, and the bytes are accepted
/// exactly when they are well-formed text.
#[verifier::external_body]
fn pct_decode_str(input: &str) -> (r: Option<String>)
    ensures
        r is Some <==> valid_utf8(spec_pct_decode(input.spec_bytes())),
        r matches Some(s) ==> s@ == decode_utf8(spec_pct_decode(input.spec_bytes())),
{
    percent_encoding::percent_decode_str(input).decode_utf8().ok().map(|c| c.to_string())
}

/// Percent-encodes the text, escaping exactly the bytes of
/// [`spec_must_encode`].
pub fn percent_encode_fragment(input: &str) -> (r: String)
    ensures
        r@ == spec_pct_encode(input.spec_bytes()),
{
    let bytes = input.as_bytes();
    let mut out: Vec<char> = Vec::new();
    let mut i: usize = 0;
    while i < bytes.len()
        invariant
            i <= bytes@.len(),
            bytes@ == input.spec_bytes(),
            out@ == spec_pct_encode(bytes@.take(i as int)),
        decreases bytes@.len() - i,
    {
        let b = bytes[i];
        proof {
            let t = bytes@.take(i + 1);
            assert(t.drop_last() =~= bytes@.take(i as int));
            assert(t.last() == bytes@[i as int]);
        }
        if b >= 0x80 || b <= 0x1f || b == 0x7f || b == 0x20 || b == 0x22 || b == 0x3c || b == 0x3e
            || b == 0x60 {
            let esc = pct_encode_byte(b);
            let e0 = esc.get_char(0);
            let e1 = esc.get_char(1);
            let e2 = esc.get_char(2);
            out.push(e0);
            out.push(e1);
            out.push(e2);
            proof {
                assert(out@ =~= spec_pct_encode(bytes@.take(i as int)) + spec_pct_escape(
                    bytes@[i as int],
                ));
            }
        } else {
            out.push(b as char);
            proof {
                assert(out@ =~= spec_pct_encode(bytes@.take(i as int)) + seq![
                    bytes@[i as int] as char,
                ]);
            }
        }
        i = i + 1;
    }
    proof {
        assert(bytes@.take(bytes@.len() as int) =~= bytes@);
    }
    chars_to_string(&out)
}

/// The status line under the input field: empty, or a warning.
pub enum InputStatus {
    Empty,
    Warn(String),
}

/// Whether the page encodes or decodes; a saturating two-value selector.
#[derive(Clone, Copy, Debug, PartialEq, Eq, Structural)]
pub enum EncodeOrDecodeSelect {
    Encode,
    Decode,
}

impl EncodeOrDecodeSelect {
    pub open spec fn spec_val(&self) -> int {
        match self {
            EncodeOrDecodeSelect::Encode => 0,
            EncodeOrDecodeSelect::Decode => 1,
        }
    }

    pub fn val(&self) -> (r: usize)
        ensures
            r == self.spec_val(),
    {
        match self {
            EncodeOrDecodeSelect::Encode => 0,
            EncodeOrDecodeSelect::Decode => 1,
        }
    }

    pub fn next_mut(&mut self)
        ensures
            *final(self) == (if *old(self) is Encode {
                EncodeOrDecodeSelect::Decode
            } else {
                *old(self)
            }),
    {
        if let EncodeOrDecodeSelect::Encode = self {
            *self = EncodeOrDecodeSelect::Decode;
        }
    }

    pub fn prev_mut(&mut self)
        ensures
            *final(self) == (if *old(self) is Decode {
                EncodeOrDecodeSelect::Encode
            } else {
                *old(self)
            }),
    {
        if let EncodeOrDecodeSelect::Decode = self {
            *self = EncodeOrDecodeSelect::Encode;
        }
    }

    pub fn strings_vec() -> (r: Vec<String>)
        ensures
            r@.len() == 2,
            r@[0]@ == "Encode"@,
            r@[1]@ == "Decode"@,
    {
        let mut v: Vec<String> = Vec::new();
        v.push(String::from_str("Encode"));
        v.push(String::from_str("Decode"));
        v
    }
}

/// The character set of the text; a single-value selector.
#[derive(Clone, Copy, Debug, PartialEq, Eq, Structural)]
pub enum CharsetSelect {
    Utf8,
}

impl CharsetSelect {
    pub open spec fn spec_val(&self) -> int {
        0
    }

    pub fn val(&self) -> (r: usize)
        ensures
            r == self.spec_val(),
    {
        0
    }

    pub fn next_mut(&mut self)
        ensures
            *final(self) == *old(self),
    {
    }

    pub fn prev_mut(&mut self)
        ensures
            *final(self) == *old(self),
    {
    }

    pub fn strings_vec() -> (r: Vec<String>)
        ensures
            r@.len() == 1,
            r@[0]@ == "UTF-8"@,
    {
        let mut v: Vec<String> = Vec::new();
        v.push(String::from_str("UTF-8"));
        v
    }
}

/// The field cursor of the page, cycling with wraparound.
#[derive(Clone, Copy, Debug, PartialEq, Eq, Structural)]
pub enum PageItems {
    EncodeOrDecode,
    Charset,
    Input,
    Output,
}

impl PageItems {
    pub open spec fn spec_next(&self) -> PageItems {
        match self {
            PageItems::EncodeOrDecode => PageItems::Charset,
            PageItems::Charset => PageItems::Input,
            PageItems::Input => PageItems::Output,
            PageItems::Output => PageItems::EncodeOrDecode,
        }
    }

    pub fn next(&self) -> (r: PageItems)
        ensures
            r == self.spec_next(),
    {
        match self {
            PageItems::EncodeOrDecode => PageItems::Charset,
            PageItems::Charset => PageItems::Input,
            PageItems::Input => PageItems::Output,
            PageItems::Output => PageItems::EncodeOrDecode,
        }
    }

    pub open spec fn spec_prev(&self) -> PageItems {
        match self {
            PageItems::EncodeOrDecode => PageItems::Output,
            PageItems::Charset => PageItems::EncodeOrDecode,
            PageItems::Input => PageItems::Charset,
            PageItems::Output => PageItems::Input,
        }
    }

    pub fn prev(&self) -> (r: PageItems)
        ensures
            r == self.spec_prev(),
    {
        match self {
            PageItems::EncodeOrDecode => PageItems::Output,
            PageItems::Charset => PageItems::EncodeOrDecode,
            PageItems::Input => PageItems::Charset,
            PageItems::Output => PageItems::Input,
        }
    }
}

/// What the output and the status show for an input and a direction:
/// encoding always succeeds; decoding fails exactly on text whose decoded
/// bytes are no well-formed text, leaving the output empty with a warning.
pub open spec fn spec_url_output(input_bytes: Seq<u8>, eod: EncodeOrDecodeSelect) -> (
    Seq<char>,
    bool,
) {
    match eod {
        EncodeOrDecodeSelect::Encode => (spec_pct_encode(input_bytes), false),
        EncodeOrDecodeSelect::Decode => if valid_utf8(spec_pct_decode(input_bytes)) {
            (decode_utf8(spec_pct_decode(input_bytes)), false)
        } else {
            (Seq::empty(), true)
        },
    }
}

/// Computes the output field and the status from the input field and the
/// direction.
pub fn calculate_url(input: &str, eod_sel: EncodeOrDecodeSelect, charset_sel: CharsetSelect) -> (r:
    (String, InputStatus))
    ensures
        r.0@ == spec_url_output(input.spec_bytes(), eod_sel).0,
        r.1 is Warn <==> spec_url_output(input.spec_bytes(), eod_sel).1,
        r.1 matches InputStatus::Warn(w) ==> w@ == "invalid UTF-8 sequence"@,
{
    match eod_sel {
        EncodeOrDecodeSelect::Encode => {
            let output = match charset_sel {
                CharsetSelect::Utf8 => percent_encode_fragment(input),
            };
            (output, InputStatus::Empty)
        },
        EncodeOrDecodeSelect::Decode => {
            match pct_decode_str(input) {
                Some(decoded) => (decoded, InputStatus::Empty),
                None => (String::new(), InputStatus::Warn(
                    String::from_str("invalid UTF-8 sequence"),
                )),
            }
        },
    }
}

/// The changing state of the page: the field cursor, the direction and
/// charset, the input text with its viewport offset, the derived output and
/// the status line.
pub struct CurrentStatus {
    pub item: PageItems,
    pub eod_sel: EncodeOrDecodeSelect,
    pub charset_sel: CharsetSelect,
    pub input: String,
    pub input_state: ScrollOutputState,
    pub output: String,
    pub status: InputStatus,
}

/// The URL tool page: direction and charset selectors, one input field, and
/// the percent-encoded or decoded output recomputed eagerly.
pub struct UrlPage {
    pub focused: bool,
    pub cur: CurrentStatus,
}

impl UrlPage {
    /// The output and the status always show the conversion of the current
    /// input.
    pub open spec fn output_ok(&self) -> bool {
        &&& self.cur.output@ == spec_url_output(
            encode_utf8_of(self.cur.input@),
            self.cur.eod_sel,
        ).0
        &&& (self.cur.status is Warn <==> spec_url_output(
            encode_utf8_of(self.cur.input@),
            self.cur.eod_sel,
        ).1)
    }

    pub fn new(focused: bool) -> (r: UrlPage)
        ensures
            r.focused == focused,
            r.cur.item == PageItems::EncodeOrDecode,
            r.cur.eod_sel == EncodeOrDecodeSelect::Encode,
            r.cur.input@ == Seq::<char>::empty(),
            r.cur.input_state.offset == 0,
            r.cur.output@ == Seq::<char>::empty(),
            r.cur.status is Empty,
            r.output_ok(),
    {
        proof {
            assert(encode_utf8_of(Seq::<char>::empty()) =~= Seq::<u8>::empty());
            assert(spec_pct_encode(Seq::<u8>::empty()) =~= Seq::<char>::empty());
        }
        UrlPage {
            focused,
            cur: CurrentStatus {
                item: PageItems::EncodeOrDecode,
                eod_sel: EncodeOrDecodeSelect::Encode,
                charset_sel: CharsetSelect::Utf8,
                input: String::new(),
                input_state: ScrollOutputState::new(0),
                output: String::new(),
                status: InputStatus::Empty,
            },
        }
    }

    pub fn handle_key(&self, key: KeyInput) -> (r: Option<Msg>)
        ensures
            r == spec_url_key_msg(key),
    {
        let msg = match key {
            KeyInput::Char('j') | KeyInput::Down => UrlMsg::SelectNextItem,
            KeyInput::Char('k') | KeyInput::Up => UrlMsg::SelectPrevItem,
            KeyInput::Char('l') | KeyInput::Right => UrlMsg::CurrentItemSelectNext,
            KeyInput::Char('h') | KeyInput::Left => UrlMsg::CurrentItemSelectPrev,
            KeyInput::CtrlChar('e') => UrlMsg::ScrollDown,
            KeyInput::CtrlChar('y') => UrlMsg::ScrollUp,
            KeyInput::Char('y') => UrlMsg::Copy,
            KeyInput::Char('p') => UrlMsg::Paste,
            _ => {
                return None;
            },
        };
        Some(Msg::Page(PageMsg::Url(msg)))
    }

    /// Reacts to one page message.  A follow-up message, when one comes
    /// back, is always a notification.
    pub fn update(&mut self, msg: UrlMsg) -> (r: Option<Msg>)
        requires
            old(self).output_ok(),
        ensures
            final(self).output_ok(),
            final(self).focused == old(self).focused,
            r matches Some(m) ==> m.is_notify(),
            match msg {
                UrlMsg::SelectNextItem => r is None && *final(self) == (UrlPage {
                    cur: CurrentStatus { item: old(self).cur.item.spec_next(), ..old(self).cur },
                    ..*old(self)
                }),
                UrlMsg::SelectPrevItem => r is None && *final(self) == (UrlPage {
                    cur: CurrentStatus { item: old(self).cur.item.spec_prev(), ..old(self).cur },
                    ..*old(self)
                }),
                UrlMsg::CurrentItemSelectNext | UrlMsg::CurrentItemSelectPrev => r is None && final(self).cur.item == old(self).cur.item && final(self).cur.input == old(self).cur.input
                    && final(self).output_ok(),
                UrlMsg::ScrollDown | UrlMsg::ScrollUp => r is None && final(self).cur.item == old(self).cur.item && final(self).cur.eod_sel == old(self).cur.eod_sel && final(self).cur.input == old(self).cur.input && final(self).cur.output == old(self).cur.output,
                UrlMsg::Copy => *final(self) == *old(self) && (old(self).cur.item is Output ==> r
                    is Some) && (!(old(self).cur.item is Output) ==> r is None),
                UrlMsg::Paste => final(self).cur.item == old(self).cur.item && final(self).cur.eod_sel == old(self).cur.eod_sel,
            },
    {
        match msg {
            UrlMsg::SelectNextItem => {
                self.cur.item = self.cur.item.next();
                None
            },
            UrlMsg::SelectPrevItem => {
                self.cur.item = self.cur.item.prev();
                None
            },
            UrlMsg::CurrentItemSelectNext => {
                self.current_item_select_next();
                None
            },
            UrlMsg::CurrentItemSelectPrev => {
                self.current_item_select_prev();
                None
            },
            UrlMsg::ScrollDown => {
                self.scroll_down();
                None
            },
            UrlMsg::ScrollUp => {
                self.scroll_up();
                None
            },
            UrlMsg::Copy => self.copy_to_clipboard(),
            UrlMsg::Paste => self.paste_from_clipboard(),
        }
    }

    pub fn focus(&mut self)
        ensures
            *final(self) == (UrlPage { focused: true, ..*old(self) }),
    {
        self.focused = true;
    }

    pub fn unfocus(&mut self)
        ensures
            *final(self) == (UrlPage { focused: false, ..*old(self) }),
    {
        self.focused = false;
    }

    pub fn helps(&self) -> (r: Vec<&'static str>)
        ensures
            r@.map_values(|s: &str| s@) == spec_url_helps(self.cur.item),
    {
        let mut helps: Vec<&'static str> = Vec::new();
        helps.push("<j/k> Select item");
        match self.cur.item {
            PageItems::EncodeOrDecode | PageItems::Charset => {
                helps.push("<h/l> Select current item value");
            },
            PageItems::Output => {
                helps.push("<y> Copy to clipboard");
            },
            PageItems::Input => {
                helps.push("<C-e/C-y> Scroll down/up");
                helps.push("<p> Paste from clipboard");
            },
        }
        proof {
            assert(helps@.map_values(|s: &str| s@) =~= spec_url_helps(self.cur.item));
        }
        helps
    }

    fn current_item_select_next(&mut self)
        requires
            old(self).output_ok(),
        ensures
            final(self).cur.item == old(self).cur.item,
            final(self).cur.input == old(self).cur.input,
            final(self).cur.input_state == old(self).cur.input_state,
            final(self).focused == old(self).focused,
            final(self).output_ok(),
            old(self).cur.item is EncodeOrDecode ==> final(self).cur.eod_sel == (if old(self).cur.eod_sel is Encode {
                EncodeOrDecodeSelect::Decode
            } else {
                old(self).cur.eod_sel
            }),
    {
        match self.cur.item {
            PageItems::EncodeOrDecode => {
                self.cur.eod_sel.next_mut();
                self.update_output();
            },
            PageItems::Charset => {
                self.cur.charset_sel.next_mut();
                self.update_output();
            },
            PageItems::Input => {},
            PageItems::Output => {},
        }
    }

    fn current_item_select_prev(&mut self)
        requires
            old(self).output_ok(),
        ensures
            final(self).cur.item == old(self).cur.item,
            final(self).cur.input == old(self).cur.input,
            final(self).cur.input_state == old(self).cur.input_state,
            final(self).focused == old(self).focused,
            final(self).output_ok(),
            old(self).cur.item is EncodeOrDecode ==> final(self).cur.eod_sel == (if old(self).cur.eod_sel is Decode {
                EncodeOrDecodeSelect::Encode
            } else {
                old(self).cur.eod_sel
            }),
    {
        match self.cur.item {
            PageItems::EncodeOrDecode => {
                self.cur.eod_sel.prev_mut();
                self.update_output();
            },
            PageItems::Charset => {
                self.cur.charset_sel.prev_mut();
                self.update_output();
            },
            PageItems::Input => {},
            PageItems::Output => {},
        }
    }

    fn scroll_down(&mut self)
        ensures
            final(self).cur.item == old(self).cur.item,
            final(self).cur.eod_sel == old(self).cur.eod_sel,
            final(self).cur.input == old(self).cur.input,
            final(self).cur.output == old(self).cur.output,
            final(self).cur.status == old(self).cur.status,
            final(self).cur.charset_sel == old(self).cur.charset_sel,
            final(self).focused == old(self).focused,
            old(self).cur.item is Input && old(self).cur.input@.len() > 0 ==> final(self).cur.input_state.offset == crate::widget::scroll::spec_offset_down(
                old(self).cur.input_state.offset as int,
            ),
            !(old(self).cur.item is Input && old(self).cur.input@.len() > 0) ==> *final(self)
                == *old(self),
    {
        if !(matches!(self.cur.item, PageItems::Input)) || self.cur.input.as_str().is_empty() {
            return ;
        }
        self.cur.input_state.scroll_down();
    }

    fn scroll_up(&mut self)
        ensures
            final(self).cur.item == old(self).cur.item,
            final(self).cur.eod_sel == old(self).cur.eod_sel,
            final(self).cur.input == old(self).cur.input,
            final(self).cur.output == old(self).cur.output,
            final(self).cur.status == old(self).cur.status,
            final(self).cur.charset_sel == old(self).cur.charset_sel,
            final(self).focused == old(self).focused,
            old(self).cur.item is Input && old(self).cur.input@.len() > 0 ==> final(self).cur.input_state.offset == crate::widget::scroll::spec_offset_up(
                old(self).cur.input_state.offset as int,
            ),
            !(old(self).cur.item is Input && old(self).cur.input@.len() > 0) ==> *final(self)
                == *old(self),
    {
        if !(matches!(self.cur.item, PageItems::Input)) || self.cur.input.as_str().is_empty() {
            return ;
        }
        self.cur.input_state.scroll_up();
    }

    fn copy_to_clipboard(&self) -> (r: Option<Msg>)
        ensures
            self.cur.item is Output ==> r is Some && (r matches Some(m) ==> m.is_notify()),
            !(self.cur.item is Output) ==> r is None,
    {
        if !(matches!(self.cur.item, PageItems::Output)) {
            return None;
        }
        util::copy_to_clipboard(self.cur.output.as_str())
    }

    fn paste_from_clipboard(&mut self) -> (r: Option<Msg>)
        requires
            old(self).output_ok(),
        ensures
            final(self).cur.item == old(self).cur.item,
            final(self).cur.eod_sel == old(self).cur.eod_sel,
            final(self).focused == old(self).focused,
            r matches Some(m) ==> m.is_notify(),
            old(self).cur.item is Input && r is Some ==> *final(self) == *old(self),
            !(old(self).cur.item is Input) ==> *final(self) == *old(self) && r is None,
            final(self).output_ok(),
    {
        if matches!(self.cur.item, PageItems::Input) {
            match util::paste_from_clipboard() {
                Some(text) => {
                    self.cur.input = text;
                    self.update_output();
                    None
                },
                None => Some(Msg::NotifyError(String::from_str("Paste from clipboard failed"))),
            }
        } else {
            None
        }
    }

    fn update_output(&mut self)
        ensures
            final(self).output_ok(),
            final(self).cur.item == old(self).cur.item,
            final(self).cur.eod_sel == old(self).cur.eod_sel,
            final(self).cur.charset_sel == old(self).cur.charset_sel,
            final(self).cur.input == old(self).cur.input,
            final(self).cur.input_state == old(self).cur.input_state,
            final(self).focused == old(self).focused,
    {
        let (output, status) = calculate_url(
            self.cur.input.as_str(),
            self.cur.eod_sel,
            self.cur.charset_sel,
        );
        self.cur.output = output;
        self.cur.status = status;
    }

}

/// The view of the input as bytes, shared by the contracts of this page.
pub open spec fn encode_utf8_of(chars: Seq<char>) -> Seq<u8> {
    vstd::utf8::encode_utf8(chars)
}

/// The message one key press maps to while this page has focus.
pub open spec fn spec_url_key_msg(key: KeyInput) -> Option<Msg> {
    match key {
        KeyInput::Char('j') | KeyInput::Down => Some(
            Msg::Page(PageMsg::Url(UrlMsg::SelectNextItem)),
        ),
        KeyInput::Char('k') | KeyInput::Up => Some(Msg::Page(PageMsg::Url(UrlMsg::SelectPrevItem))),
        KeyInput::Char('l') | KeyInput::Right => Some(
            Msg::Page(PageMsg::Url(UrlMsg::CurrentItemSelectNext)),
        ),
        KeyInput::Char('h') | KeyInput::Left => Some(
            Msg::Page(PageMsg::Url(UrlMsg::CurrentItemSelectPrev)),
        ),
        KeyInput::CtrlChar('e') => Some(Msg::Page(PageMsg::Url(UrlMsg::ScrollDown))),
        KeyInput::CtrlChar('y') => Some(Msg::Page(PageMsg::Url(UrlMsg::ScrollUp))),
        KeyInput::Char('y') => Some(Msg::Page(PageMsg::Url(UrlMsg::Copy))),
        KeyInput::Char('p') => Some(Msg::Page(PageMsg::Url(UrlMsg::Paste))),
        _ => None,
    }
}

/// The hint strings the page offers, by the selected field.
pub open spec fn spec_url_helps(item: PageItems) -> Seq<Seq<char>> {
    match item {
        PageItems::EncodeOrDecode | PageItems::Charset => seq![
            "<j/k> Select item"@,
            "<h/l> Select current item value"@,
        ],
        PageItems::Output => seq!["<j/k> Select item"@, "<y> Copy to clipboard"@],
        PageItems::Input => seq![
            "<j/k> Select item"@,
            "<C-e/C-y> Scroll down/up"@,
            "<p> Paste from clipboard"@,
        ],
    }
}

} // verus!
