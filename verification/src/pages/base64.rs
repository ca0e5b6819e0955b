use vstd::prelude::*;
use base64::Engine;
use vstd::string::StringExecFns;
use vstd::string::StringSliceAdditionalSpecFns;
use vstd::utf8::{decode_utf8, encode_utf8, valid_utf8};
use crate::key::KeyInput;
use crate::msg::{Base64Msg, Msg, PageMsg};
use crate::pages::util;
use crate::widget::scroll::ScrollOutputState;

verus! {

/// What the standard base64 alphabet with padding encodes the bytes to.
pub uninterp spec fn base64_of(bytes: Seq<u8>) -> Seq<char>;

/// What decoding with the standard base64 alphabet returns: the bytes, or
/// nothing for a string that is no base64.
pub uninterp spec fn base64_decode_of(s: Seq<char>) -> Option<Seq<u8>>;

/// What lossy conversion of the bytes to text returns; on well-formed bytes
/// it is the exact decoding.
pub uninterp spec fn utf8_lossy_of(bytes: Seq<u8>) -> Seq<char>;

/// Relies on `base64::engine::Engine::encode` with the standard padded
/// alphabet: the output is a function of the input bytes alone, four
/// characters for every started group of three bytes.
#[verifier::external_body]
fn b64_encode(input: &str) -> (r: String)
    ensures
        r@ == base64_of(input.spec_bytes()),
        r@.len() == 4 * ((input.spec_bytes().len() + 2) / 3),
{
    base64::engine::general_purpose::STANDARD.encode(input)
}

/// Relies on `base64::engine::Engine::decode` with the standard padded
/// alphabet: the result is a function of the input characters alone.
#[verifier::external_body]
fn b64_decode(input: &str) -> (r: Option<Vec<u8>>)
    ensures
        match r {
            Some(v) => base64_decode_of(input@) == Some(v@),
            None => base64_decode_of(input@) is None,
        },
{
    base64::engine::general_purpose::STANDARD.decode(input).ok()
}

/// Relies on `String::from_utf8_lossy`: well-formed bytes decode exactly;
/// ill-formed sequences are replaced, a function of the bytes alone.
#[verifier::external_body]
fn utf8_lossy(bytes: &Vec<u8>) -> (r: String)
    ensures
        r@ == utf8_lossy_of(bytes@),
        valid_utf8(bytes@) ==> r@ == decode_utf8(bytes@),
{
    String::from_utf8_lossy(bytes).to_string()
}

/// Whether the page encodes or decodes; a saturating two-value selector.
#[derive(Clone, Copy, Debug, PartialEq, Eq, Structural)]
pub enum EncodeOrDecodeSelect {
    Encode,
    Decode,
}

impl EncodeOrDecodeSelect {
    pub open spec fn spec_val(&self) -> int {
        match self {
            EncodeOrDecodeSelect::Encode => 0,
            EncodeOrDecodeSelect::Decode => 1,
        }
    }

    pub fn val(&self) -> (r: usize)
        ensures
            r == self.spec_val(),
    {
        match self {
            EncodeOrDecodeSelect::Encode => 0,
            EncodeOrDecodeSelect::Decode => 1,
        }
    }

    /// Advances to the next value, stopping at the last.
    pub fn next_mut(&mut self)
        ensures
            *final(self) == (if *old(self) is Encode {
                EncodeOrDecodeSelect::Decode
            } else {
                *old(self)
            }),
    {
        if let EncodeOrDecodeSelect::Encode = self {
            *self = EncodeOrDecodeSelect::Decode;
        }
    }

    /// Retreats to the previous value, stopping at the first.
    pub fn prev_mut(&mut self)
        ensures
            *final(self) == (if *old(self) is Decode {
                EncodeOrDecodeSelect::Encode
            } else {
                *old(self)
            }),
    {
        if let EncodeOrDecodeSelect::Decode = self {
            *self = EncodeOrDecodeSelect::Encode;
        }
    }

    pub fn strings_vec() -> (r: Vec<String>)
        ensures
            r@.len() == 2,
            r@[0]@ == "Encode"@,
            r@[1]@ == "Decode"@,
    {
        let mut v: Vec<String> = Vec::new();
        v.push(String::from_str("Encode"));
        v.push(String::from_str("Decode"));
        v
    }
}

/// The field cursor of the page, cycling with wraparound.
#[derive(Clone, Copy, Debug, PartialEq, Eq, Structural)]
pub enum PageItems {
    EncodeOrDecode,
    Input,
    Output,
}

impl PageItems {
    pub fn next(&self) -> (r: PageItems)
        ensures
            r == self.spec_next(),
    {
        match self {
            PageItems::EncodeOrDecode => PageItems::Input,
            PageItems::Input => PageItems::Output,
            PageItems::Output => PageItems::EncodeOrDecode,
        }
    }

    pub open spec fn spec_next(&self) -> PageItems {
        match self {
            PageItems::EncodeOrDecode => PageItems::Input,
            PageItems::Input => PageItems::Output,
            PageItems::Output => PageItems::EncodeOrDecode,
        }
    }

    pub fn prev(&self) -> (r: PageItems)
        ensures
            r == self.spec_prev(),
    {
        match self {
            PageItems::EncodeOrDecode => PageItems::Output,
            PageItems::Input => PageItems::EncodeOrDecode,
            PageItems::Output => PageItems::Input,
        }
    }

    pub open spec fn spec_prev(&self) -> PageItems {
        match self {
            PageItems::EncodeOrDecode => PageItems::Output,
            PageItems::Input => PageItems::EncodeOrDecode,
            PageItems::Output => PageItems::Input,
        }
    }
}

/// What the output field shows for an input and a direction: the encoding of
/// the input's bytes, or the decoded text, with a fixed notice for rejected
/// base64.
pub open spec fn spec_base64_output(input: Seq<char>, eod: EncodeOrDecodeSelect) -> Seq<char> {
    match eod {
        EncodeOrDecodeSelect::Encode => base64_of(encode_utf8(input)),
        EncodeOrDecodeSelect::Decode => match base64_decode_of(input) {
            Some(bytes) => utf8_lossy_of(bytes),
            None => "Invalid Base64"@,
        },
    }
}

/// Computes the output field from the input field and the direction.
pub fn calculate_base64(input: &str, eod_sel: EncodeOrDecodeSelect) -> (r: String)
    ensures
        r@ == spec_base64_output(input@, eod_sel),
{
    match eod_sel {
        EncodeOrDecodeSelect::Encode => b64_encode(input),
        EncodeOrDecodeSelect::Decode => {
            match b64_decode(input) {
                Some(decoded) => utf8_lossy(&decoded),
                None => String::from_str("Invalid Base64"),
            }
        },
    }
}

/// The changing state of the page: the field cursor, the direction, the
/// input text with its viewport offset, and the derived output.
pub struct CurrentStatus {
    pub item: PageItems,
    pub eod_sel: EncodeOrDecodeSelect,
    pub input: String,
    pub input_state: ScrollOutputState,
    pub output: String,
}

/// The base64 tool page: one direction selector, one input field, and one
/// output field recomputed eagerly on every input-affecting change.
pub struct Base64Page {
    pub focused: bool,
    pub cur: CurrentStatus,
}

impl Base64Page {
    /// The output always shows the conversion of the current input.
    pub open spec fn output_ok(&self) -> bool {
        self.cur.output@ == spec_base64_output(self.cur.input@, self.cur.eod_sel)
    }

    pub fn new(focused: bool) -> (r: Base64Page)
        ensures
            r.focused == focused,
            r.cur.item == PageItems::EncodeOrDecode,
            r.cur.eod_sel == EncodeOrDecodeSelect::Encode,
            r.cur.input@ == Seq::<char>::empty(),
            r.cur.input_state.offset == 0,
            r.output_ok(),
    {
        let eod_sel = EncodeOrDecodeSelect::Encode;
        let input = String::new();
        let output = calculate_base64(input.as_str(), eod_sel);
        Base64Page {
            focused,
            cur: CurrentStatus {
                item: PageItems::EncodeOrDecode,
                eod_sel,
                input,
                input_state: ScrollOutputState::new(0),
                output,
            },
        }
    }

    pub fn handle_key(&self, key: KeyInput) -> (r: Option<Msg>)
        ensures
            r == spec_base64_key_msg(key),
    {
        let msg = match key {
            KeyInput::Char('j') | KeyInput::Down => Base64Msg::SelectNextItem,
            KeyInput::Char('k') | KeyInput::Up => Base64Msg::SelectPrevItem,
            KeyInput::Char('l') | KeyInput::Right => Base64Msg::CurrentItemSelectNext,
            KeyInput::Char('h') | KeyInput::Left => Base64Msg::CurrentItemSelectPrev,
            KeyInput::CtrlChar('e') => Base64Msg::ScrollDown,
            KeyInput::CtrlChar('y') => Base64Msg::ScrollUp,
            KeyInput::Char('y') => Base64Msg::Copy,
            KeyInput::Char('p') => Base64Msg::Paste,
            _ => {
                return None;
            },
        };
        Some(Msg::Page(PageMsg::Base64(msg)))
    }

    /// Reacts to one page message.  Every branch leaves the output
    /// consistent with the input, and a follow-up message, when one comes
    /// back, is always a notification.
    pub fn update(&mut self, msg: Base64Msg) -> (r: Option<Msg>)
        requires
            old(self).output_ok(),
        ensures
            final(self).output_ok(),
            final(self).focused == old(self).focused,
            r matches Some(m) ==> m.is_notify(),
            match msg {
                Base64Msg::SelectNextItem => r is None && *final(self) == (Base64Page {
                    cur: CurrentStatus { item: old(self).cur.item.spec_next(), ..old(self).cur },
                    ..*old(self)
                }),
                Base64Msg::SelectPrevItem => r is None && *final(self) == (Base64Page {
                    cur: CurrentStatus { item: old(self).cur.item.spec_prev(), ..old(self).cur },
                    ..*old(self)
                }),
                Base64Msg::CurrentItemSelectNext | Base64Msg::CurrentItemSelectPrev => r is None
                    && final(self).cur.item == old(self).cur.item && final(self).cur.input
                    == old(self).cur.input && final(self).cur.input_state
                    == old(self).cur.input_state,
                Base64Msg::ScrollDown | Base64Msg::ScrollUp => r is None && final(self).cur.item
                    == old(self).cur.item && final(self).cur.eod_sel == old(self).cur.eod_sel
                    && final(self).cur.input == old(self).cur.input && final(self).cur.output
                    == old(self).cur.output,
                Base64Msg::Copy => *final(self) == *old(self) && (old(self).cur.item
                    is Output ==> r is Some) && (!(old(self).cur.item is Output) ==> r is None),
                Base64Msg::Paste => final(self).cur.item == old(self).cur.item && final(self).cur.eod_sel == old(self).cur.eod_sel,
            },
    {
        match msg {
            Base64Msg::SelectNextItem => {
                self.select_next_item();
                None
            },
            Base64Msg::SelectPrevItem => {
                self.select_prev_item();
                None
            },
            Base64Msg::CurrentItemSelectNext => {
                self.current_item_select_next();
                None
            },
            Base64Msg::CurrentItemSelectPrev => {
                self.current_item_select_prev();
                None
            },
            Base64Msg::ScrollDown => {
                self.scroll_down();
                None
            },
            Base64Msg::ScrollUp => {
                self.scroll_up();
                None
            },
            Base64Msg::Copy => self.copy_to_clipboard(),
            Base64Msg::Paste => self.paste_from_clipboard(),
        }
    }

    pub fn focus(&mut self)
        ensures
            *final(self) == (Base64Page { focused: true, ..*old(self) }),
    {
        self.focused = true;
    }

    pub fn unfocus(&mut self)
        ensures
            *final(self) == (Base64Page { focused: false, ..*old(self) }),
    {
        self.focused = false;
    }

    pub fn helps(&self) -> (r: Vec<&'static str>)
        ensures
            r@.map_values(|s: &str| s@) == spec_base64_helps(self.cur.item),
    {
        let mut helps: Vec<&'static str> = Vec::new();
        helps.push("<j/k> Select item");
        match self.cur.item {
            PageItems::EncodeOrDecode => {
                helps.push("<h/l> Select current item value");
            },
            PageItems::Output => {
                helps.push("<y> Copy to clipboard");
            },
            PageItems::Input => {
                helps.push("<C-e/C-y> Scroll down/up");
                helps.push("<p> Paste from clipboard");
            },
        }
        proof {
            assert(helps@.map_values(|s: &str| s@) =~= spec_base64_helps(self.cur.item));
        }
        helps
    }

    fn select_next_item(&mut self)
        ensures
            *final(self) == (Base64Page {
                cur: CurrentStatus { item: old(self).cur.item.spec_next(), ..old(self).cur },
                ..*old(self)
            }),
    {
        self.cur.item = self.cur.item.next();
    }

    fn select_prev_item(&mut self)
        ensures
            *final(self) == (Base64Page {
                cur: CurrentStatus { item: old(self).cur.item.spec_prev(), ..old(self).cur },
                ..*old(self)
            }),
    {
        self.cur.item = self.cur.item.prev();
    }

    fn current_item_select_next(&mut self)
        requires
            old(self).output_ok(),
        ensures
            final(self).output_ok(),
            final(self).cur.item == old(self).cur.item,
            final(self).cur.input == old(self).cur.input,
            final(self).cur.input_state == old(self).cur.input_state,
            final(self).focused == old(self).focused,
            old(self).cur.item is EncodeOrDecode ==> final(self).cur.eod_sel == (if old(self).cur.eod_sel is Encode {
                EncodeOrDecodeSelect::Decode
            } else {
                old(self).cur.eod_sel
            }),
            !(old(self).cur.item is EncodeOrDecode) ==> *final(self) == *old(self),
    {
        match self.cur.item {
            PageItems::EncodeOrDecode => {
                self.cur.eod_sel.next_mut();
                self.update_output();
            },
            PageItems::Input => {},
            PageItems::Output => {},
        }
    }

    fn current_item_select_prev(&mut self)
        requires
            old(self).output_ok(),
        ensures
            final(self).output_ok(),
            final(self).cur.item == old(self).cur.item,
            final(self).cur.input == old(self).cur.input,
            final(self).cur.input_state == old(self).cur.input_state,
            final(self).focused == old(self).focused,
            old(self).cur.item is EncodeOrDecode ==> final(self).cur.eod_sel == (if old(self).cur.eod_sel is Decode {
                EncodeOrDecodeSelect::Encode
            } else {
                old(self).cur.eod_sel
            }),
            !(old(self).cur.item is EncodeOrDecode) ==> *final(self) == *old(self),
    {
        match self.cur.item {
            PageItems::EncodeOrDecode => {
                self.cur.eod_sel.prev_mut();
                self.update_output();
            },
            PageItems::Input => {},
            PageItems::Output => {},
        }
    }

    fn scroll_down(&mut self)
        ensures
            final(self).cur.item == old(self).cur.item,
            final(self).cur.eod_sel == old(self).cur.eod_sel,
            final(self).cur.input == old(self).cur.input,
            final(self).cur.output == old(self).cur.output,
            final(self).focused == old(self).focused,
            old(self).cur.item is Input && old(self).cur.input@.len() > 0 ==> final(self).cur.input_state.offset == crate::widget::scroll::spec_offset_down(
                old(self).cur.input_state.offset as int,
            ),
            !(old(self).cur.item is Input && old(self).cur.input@.len() > 0) ==> *final(self)
                == *old(self),
    {
        if !(matches!(self.cur.item, PageItems::Input)) || self.cur.input.as_str().is_empty() {
            return ;
        }
        self.cur.input_state.scroll_down();
    }

    fn scroll_up(&mut self)
        ensures
            final(self).cur.item == old(self).cur.item,
            final(self).cur.eod_sel == old(self).cur.eod_sel,
            final(self).cur.input == old(self).cur.input,
            final(self).cur.output == old(self).cur.output,
            final(self).focused == old(self).focused,
            old(self).cur.item is Input && old(self).cur.input@.len() > 0 ==> final(self).cur.input_state.offset == crate::widget::scroll::spec_offset_up(
                old(self).cur.input_state.offset as int,
            ),
            !(old(self).cur.item is Input && old(self).cur.input@.len() > 0) ==> *final(self)
                == *old(self),
    {
        if !(matches!(self.cur.item, PageItems::Input)) || self.cur.input.as_str().is_empty() {
            return ;
        }
        self.cur.input_state.scroll_up();
    }

    fn copy_to_clipboard(&self) -> (r: Option<Msg>)
        ensures
            self.cur.item is Output ==> r is Some && (r matches Some(m) ==> m.is_notify()),
            !(self.cur.item is Output) ==> r is None,
    {
        if !(matches!(self.cur.item, PageItems::Output)) {
            return None;
        }
        util::copy_to_clipboard(self.cur.output.as_str())
    }

    fn paste_from_clipboard(&mut self) -> (r: Option<Msg>)
        requires
            old(self).output_ok(),
        ensures
            final(self).output_ok(),
            final(self).cur.item == old(self).cur.item,
            final(self).cur.eod_sel == old(self).cur.eod_sel,
            final(self).focused == old(self).focused,
            r matches Some(m) ==> m.is_notify(),
            !(old(self).cur.item is Input) ==> *final(self) == *old(self) && r is None,
    {
        if matches!(self.cur.item, PageItems::Input) {
            match util::paste_from_clipboard() {
                Some(text) => {
                    self.cur.input = text;
                    self.update_output();
                    None
                },
                None => Some(Msg::NotifyError(String::from_str("Paste from clipboard failed"))),
            }
        } else {
            None
        }
    }

    fn update_output(&mut self)
        ensures
            final(self).output_ok(),
            final(self).cur.item == old(self).cur.item,
            final(self).cur.eod_sel == old(self).cur.eod_sel,
            final(self).cur.input == old(self).cur.input,
            final(self).cur.input_state == old(self).cur.input_state,
            final(self).focused == old(self).focused,
    {
        self.cur.output = calculate_base64(self.cur.input.as_str(), self.cur.eod_sel);
    }
}

/// The message one key press maps to while this page has focus.
pub open spec fn spec_base64_key_msg(key: KeyInput) -> Option<Msg> {
    match key {
        KeyInput::Char('j') | KeyInput::Down => Some(
            Msg::Page(PageMsg::Base64(Base64Msg::SelectNextItem)),
        ),
        KeyInput::Char('k') | KeyInput::Up => Some(
            Msg::Page(PageMsg::Base64(Base64Msg::SelectPrevItem)),
        ),
        KeyInput::Char('l') | KeyInput::Right => Some(
            Msg::Page(PageMsg::Base64(Base64Msg::CurrentItemSelectNext)),
        ),
        KeyInput::Char('h') | KeyInput::Left => Some(
            Msg::Page(PageMsg::Base64(Base64Msg::CurrentItemSelectPrev)),
        ),
        KeyInput::CtrlChar('e') => Some(Msg::Page(PageMsg::Base64(Base64Msg::ScrollDown))),
        KeyInput::CtrlChar('y') => Some(Msg::Page(PageMsg::Base64(Base64Msg::ScrollUp))),
        KeyInput::Char('y') => Some(Msg::Page(PageMsg::Base64(Base64Msg::Copy))),
        KeyInput::Char('p') => Some(Msg::Page(PageMsg::Base64(Base64Msg::Paste))),
        _ => None,
    }
}

/// The hint strings the page offers, by the selected field.
pub open spec fn spec_base64_helps(item: PageItems) -> Seq<Seq<char>> {
    match item {
        PageItems::EncodeOrDecode => seq!["<j/k> Select item"@, "<h/l> Select current item value"@],
        PageItems::Output => seq!["<j/k> Select item"@, "<y> Copy to clipboard"@],
        PageItems::Input => seq![
            "<j/k> Select item"@,
            "<C-e/C-y> Scroll down/up"@,
            "<p> Paste from clipboard"@,
        ],
    }
}

} // verus!
