use vstd::prelude::*;
use md5::Digest;
use vstd::string::StringExecFns;
use vstd::string::StringSliceAdditionalSpecFns;
use vstd::utf8::encode_utf8;
use crate::key::KeyInput;
use crate::msg::{HashMsg, Msg, PageMsg};
use crate::numfmt::spec_digit_char;
use crate::pages::util;
use crate::widget::scroll::ScrollOutputState;

verus! {

/// The digests, each a function of the input bytes alone.
pub uninterp spec fn md5_of(bytes: Seq<u8>) -> Seq<u8>;

pub uninterp spec fn sha1_of(bytes: Seq<u8>) -> Seq<u8>;

pub uninterp spec fn sha224_of(bytes: Seq<u8>) -> Seq<u8>;

pub uninterp spec fn sha256_of(bytes: Seq<u8>) -> Seq<u8>;

pub uninterp spec fn sha384_of(bytes: Seq<u8>) -> Seq<u8>;

pub uninterp spec fn sha512_224_of(bytes: Seq<u8>) -> Seq<u8>;

pub uninterp spec fn sha512_256_of(bytes: Seq<u8>) -> Seq<u8>;

pub uninterp spec fn sha512_of(bytes: Seq<u8>) -> Seq<u8>;

/// Relies on `md5::Md5::digest`: a 16-byte digest of the input alone.
#[verifier::external_body]
fn md5_digest(input: &[u8]) -> (r: Vec<u8>)
    ensures
        r@ == md5_of(input@),
        r@.len() == 16,
{
    md5::Md5::digest(input).to_vec()
}

/// Relies on `sha1::Sha1::digest`: a 20-byte digest of the input alone.
#[verifier::external_body]
fn sha1_digest(input: &[u8]) -> (r: Vec<u8>)
    ensures
        r@ == sha1_of(input@),
        r@.len() == 20,
{
    sha1::Sha1::digest(input).to_vec()
}

/// Relies on `sha2::Sha224::digest`: a 28-byte digest of the input alone.
#[verifier::external_body]
fn sha224_digest(input: &[u8]) -> (r: Vec<u8>)
    ensures
        r@ == sha224_of(input@),
        r@.len() == 28,
{
    sha2::Sha224::digest(input).to_vec()
}

/// Relies on `sha2::Sha256::digest`: a 32-byte digest of the input alone.
#[verifier::external_body]
fn sha256_digest(input: &[u8]) -> (r: Vec<u8>)
    ensures
        r@ == sha256_of(input@),
        r@.len() == 32,
{
    sha2::Sha256::digest(input).to_vec()
}

/// Relies on `sha2::Sha384::digest`: a 48-byte digest of the input alone.
#[verifier::external_body]
fn sha384_digest(input: &[u8]) -> (r: Vec<u8>)
    ensures
        r@ == sha384_of(input@),
        r@.len() == 48,
{
    sha2::Sha384::digest(input).to_vec()
}

/// Relies on `sha2::Sha512_224::digest`: a 28-byte digest of the input
/// alone.
#[verifier::external_body]
fn sha512_224_digest(input: &[u8]) -> (r: Vec<u8>)
    ensures
        r@ == sha512_224_of(input@),
        r@.len() == 28,
{
    sha2::Sha512_224::digest(input).to_vec()
}

/// Relies on `sha2::Sha512_256::digest`: a 32-byte digest of the input
/// alone.
#[verifier::external_body]
fn sha512_256_digest(input: &[u8]) -> (r: Vec<u8>)
    ensures
        r@ == sha512_256_of(input@),
        r@.len() == 32,
{
    sha2::Sha512_256::digest(input).to_vec()
}

/// Relies on `sha2::Sha512::digest`: a 64-byte digest of the input alone.
#[verifier::external_body]
fn sha512_digest(input: &[u8]) -> (r: Vec<u8>)
    ensures
        r@ == sha512_of(input@),
        r@.len() == 64,
{
    sha2::Sha512::digest(input).to_vec()
}

/// The lower-case hexadecimal rendering of bytes: two digits per byte, high
/// nibble first.
pub open spec fn spec_hex_lower(bytes: Seq<u8>) -> Seq<char> {
    Seq::new(
        2 * bytes.len(),
        |i: int|
            if i % 2 == 0 {
                spec_digit_char(bytes[i / 2] as int / 16)
            } else {
                spec_digit_char(bytes[i / 2] as int % 16)
            },
    )
}

/// Relies on `base16ct::lower::encode_str`: standard lower-case hex, two
/// digits per byte; the 128-byte buffer holds any digest this page computes.
#[verifier::external_body]
fn hash_to_str(hash: &[u8]) -> (r: String)
    requires
        hash@.len() <= 64,
    ensures
        r@ == spec_hex_lower(hash@),
{
    let mut buf = [0u8; 128];
    base16ct::lower::encode_str(hash, &mut buf).unwrap().to_string()
}

/// The digest algorithm; a saturating selector.
#[derive(Clone, Copy, Debug, PartialEq, Eq, Structural)]
pub enum AlgoItemSelect {
    Md5,
    Sha1,
    Sha224,
    Sha256,
    Sha384,
    Sha512_224,
    Sha512_256,
    Sha512,
}

impl AlgoItemSelect {
    pub open spec fn spec_val(&self) -> int {
        match self {
            AlgoItemSelect::Md5 => 0,
            AlgoItemSelect::Sha1 => 1,
            AlgoItemSelect::Sha224 => 2,
            AlgoItemSelect::Sha256 => 3,
            AlgoItemSelect::Sha384 => 4,
            AlgoItemSelect::Sha512_224 => 5,
            AlgoItemSelect::Sha512_256 => 6,
            AlgoItemSelect::Sha512 => 7,
        }
    }

    pub fn val(&self) -> (r: usize)
        ensures
            r == self.spec_val(),
    {
        match self {
            AlgoItemSelect::Md5 => 0,
            AlgoItemSelect::Sha1 => 1,
            AlgoItemSelect::Sha224 => 2,
            AlgoItemSelect::Sha256 => 3,
            AlgoItemSelect::Sha384 => 4,
            AlgoItemSelect::Sha512_224 => 5,
            AlgoItemSelect::Sha512_256 => 6,
            AlgoItemSelect::Sha512 => 7,
        }
    }

    pub open spec fn spec_next_sat(&self) -> AlgoItemSelect {
        match self {
            AlgoItemSelect::Md5 => AlgoItemSelect::Sha1,
            AlgoItemSelect::Sha1 => AlgoItemSelect::Sha224,
            AlgoItemSelect::Sha224 => AlgoItemSelect::Sha256,
            AlgoItemSelect::Sha256 => AlgoItemSelect::Sha384,
            AlgoItemSelect::Sha384 => AlgoItemSelect::Sha512_224,
            AlgoItemSelect::Sha512_224 => AlgoItemSelect::Sha512_256,
            AlgoItemSelect::Sha512_256 => AlgoItemSelect::Sha512,
            AlgoItemSelect::Sha512 => AlgoItemSelect::Sha512,
        }
    }

    pub open spec fn spec_prev_sat(&self) -> AlgoItemSelect {
        match self {
            AlgoItemSelect::Md5 => AlgoItemSelect::Md5,
            AlgoItemSelect::Sha1 => AlgoItemSelect::Md5,
            AlgoItemSelect::Sha224 => AlgoItemSelect::Sha1,
            AlgoItemSelect::Sha256 => AlgoItemSelect::Sha224,
            AlgoItemSelect::Sha384 => AlgoItemSelect::Sha256,
            AlgoItemSelect::Sha512_224 => AlgoItemSelect::Sha384,
            AlgoItemSelect::Sha512_256 => AlgoItemSelect::Sha512_224,
            AlgoItemSelect::Sha512 => AlgoItemSelect::Sha512_256,
        }
    }

    /// Advances to the next algorithm, stopping at the last.
    pub fn next_mut(&mut self)
        ensures
            *final(self) == old(self).spec_next_sat(),
    {
        *self = match self {
            AlgoItemSelect::Md5 => AlgoItemSelect::Sha1,
            AlgoItemSelect::Sha1 => AlgoItemSelect::Sha224,
            AlgoItemSelect::Sha224 => AlgoItemSelect::Sha256,
            AlgoItemSelect::Sha256 => AlgoItemSelect::Sha384,
            AlgoItemSelect::Sha384 => AlgoItemSelect::Sha512_224,
            AlgoItemSelect::Sha512_224 => AlgoItemSelect::Sha512_256,
            AlgoItemSelect::Sha512_256 => AlgoItemSelect::Sha512,
            AlgoItemSelect::Sha512 => AlgoItemSelect::Sha512,
        };
    }

    /// Retreats to the previous algorithm, stopping at the first.
    pub fn prev_mut(&mut self)
        ensures
            *final(self) == old(self).spec_prev_sat(),
    {
        *self = match self {
            AlgoItemSelect::Md5 => AlgoItemSelect::Md5,
            AlgoItemSelect::Sha1 => AlgoItemSelect::Md5,
            AlgoItemSelect::Sha224 => AlgoItemSelect::Sha1,
            AlgoItemSelect::Sha256 => AlgoItemSelect::Sha224,
            AlgoItemSelect::Sha384 => AlgoItemSelect::Sha256,
            AlgoItemSelect::Sha512_224 => AlgoItemSelect::Sha384,
            AlgoItemSelect::Sha512_256 => AlgoItemSelect::Sha512_224,
            AlgoItemSelect::Sha512 => AlgoItemSelect::Sha512_256,
        };
    }

    pub fn strings_vec() -> (r: Vec<String>)
        ensures
            r@.len() == 8,
            r@[0]@ == "MD5"@,
            r@[1]@ == "SHA-1"@,
            r@[2]@ == "SHA-224"@,
            r@[3]@ == "SHA-256"@,
            r@[4]@ == "SHA-384"@,
            r@[5]@ == "SHA-512/224"@,
            r@[6]@ == "SHA-512/256"@,
            r@[7]@ == "SHA-512"@,
    {
        let mut v: Vec<String> = Vec::new();
        v.push(String::from_str("MD5"));
        v.push(String::from_str("SHA-1"));
        v.push(String::from_str("SHA-224"));
        v.push(String::from_str("SHA-256"));
        v.push(String::from_str("SHA-384"));
        v.push(String::from_str("SHA-512/224"));
        v.push(String::from_str("SHA-512/256"));
        v.push(String::from_str("SHA-512"));
        v
    }
}

/// The input text encoding; a single-value selector.
#[derive(Clone, Copy, Debug, PartialEq, Eq, Structural)]
pub enum EncodeItemSelect {
    Utf8,
}

impl EncodeItemSelect {
    pub open spec fn spec_val(&self) -> int {
        0
    }

    pub fn val(&self) -> (r: usize)
        ensures
            r == self.spec_val(),
    {
        0
    }

    pub fn next_mut(&mut self)
        ensures
            *final(self) == *old(self),
    {
    }

    pub fn prev_mut(&mut self)
        ensures
            *final(self) == *old(self),
    {
    }

    pub fn strings_vec() -> (r: Vec<String>)
        ensures
            r@.len() == 1,
            r@[0]@ == "UTF-8"@,
    {
        let mut v: Vec<String> = Vec::new();
        v.push(String::from_str("UTF-8"));
        v
    }
}

/// The field cursor of the page, cycling with wraparound.
#[derive(Clone, Copy, Debug, PartialEq, Eq, Structural)]
pub enum PageItems {
    Algo,
    Encode,
    Input,
    Output,
}

impl PageItems {
    pub open spec fn spec_next(&self) -> PageItems {
        match self {
            PageItems::Algo => PageItems::Encode,
            PageItems::Encode => PageItems::Input,
            PageItems::Input => PageItems::Output,
            PageItems::Output => PageItems::Algo,
        }
    }

    pub fn next(&self) -> (r: PageItems)
        ensures
            r == self.spec_next(),
    {
        match self {
            PageItems::Algo => PageItems::Encode,
            PageItems::Encode => PageItems::Input,
            PageItems::Input => PageItems::Output,
            PageItems::Output => PageItems::Algo,
        }
    }

    pub open spec fn spec_prev(&self) -> PageItems {
        match self {
            PageItems::Algo => PageItems::Output,
            PageItems::Encode => PageItems::Algo,
            PageItems::Input => PageItems::Encode,
            PageItems::Output => PageItems::Input,
        }
    }

    pub fn prev(&self) -> (r: PageItems)
        ensures
            r == self.spec_prev(),
    {
        match self {
            PageItems::Algo => PageItems::Output,
            PageItems::Encode => PageItems::Algo,
            PageItems::Input => PageItems::Encode,
            PageItems::Output => PageItems::Input,
        }
    }
}

/// The digest of the input bytes under the chosen algorithm.
pub open spec fn spec_digest(bytes: Seq<u8>, algo: AlgoItemSelect) -> Seq<u8> {
    match algo {
        AlgoItemSelect::Md5 => md5_of(bytes),
        AlgoItemSelect::Sha1 => sha1_of(bytes),
        AlgoItemSelect::Sha224 => sha224_of(bytes),
        AlgoItemSelect::Sha256 => sha256_of(bytes),
        AlgoItemSelect::Sha384 => sha384_of(bytes),
        AlgoItemSelect::Sha512_224 => sha512_224_of(bytes),
        AlgoItemSelect::Sha512_256 => sha512_256_of(bytes),
        AlgoItemSelect::Sha512 => sha512_of(bytes),
    }
}

/// The digest length in bytes of each algorithm.
pub open spec fn spec_digest_len(algo: AlgoItemSelect) -> int {
    match algo {
        AlgoItemSelect::Md5 => 16,
        AlgoItemSelect::Sha1 => 20,
        AlgoItemSelect::Sha224 => 28,
        AlgoItemSelect::Sha256 => 32,
        AlgoItemSelect::Sha384 => 48,
        AlgoItemSelect::Sha512_224 => 28,
        AlgoItemSelect::Sha512_256 => 32,
        AlgoItemSelect::Sha512 => 64,
    }
}

/// What the output field shows: the chosen digest of the input's bytes in
/// lower-case hex.
pub open spec fn spec_hash_output(input: Seq<char>, algo: AlgoItemSelect) -> Seq<char> {
    spec_hex_lower(spec_digest(encode_utf8(input), algo))
}

/// Computes the output field from the input field and the algorithm; the
/// rendering holds two hex digits per digest byte.
pub fn calculate_hash(input: &str, algo_sel: AlgoItemSelect) -> (r: String)
    ensures
        r@ == spec_hash_output(input@, algo_sel),
        r@.len() == 2 * spec_digest_len(algo_sel),
{
    let input_bytes = input.as_bytes();
    let digest = match algo_sel {
        AlgoItemSelect::Md5 => md5_digest(input_bytes),
        AlgoItemSelect::Sha1 => sha1_digest(input_bytes),
        AlgoItemSelect::Sha224 => sha224_digest(input_bytes),
        AlgoItemSelect::Sha256 => sha256_digest(input_bytes),
        AlgoItemSelect::Sha384 => sha384_digest(input_bytes),
        AlgoItemSelect::Sha512_224 => sha512_224_digest(input_bytes),
        AlgoItemSelect::Sha512_256 => sha512_256_digest(input_bytes),
        AlgoItemSelect::Sha512 => sha512_digest(input_bytes),
    };
    hash_to_str(digest.as_slice())
}

/// The changing state of the page: the field cursor, the algorithm and
/// encoding selectors, the input text with its viewport offset, and the
/// derived output.
pub struct CurrentStatus {
    pub item: PageItems,
    pub algo_sel: AlgoItemSelect,
    pub enc_sel: EncodeItemSelect,
    pub input: String,
    pub input_state: ScrollOutputState,
    pub output: String,
}

/// The hash tool page: algorithm and encoding selectors, one input field,
/// and the digest output recomputed eagerly on every input-affecting change.
pub struct HashPage {
    pub focused: bool,
    pub cur: CurrentStatus,
}

impl HashPage {
    /// The output always shows the digest of the current input.
    pub open spec fn output_ok(&self) -> bool {
        self.cur.output@ == spec_hash_output(self.cur.input@, self.cur.algo_sel)
    }

    pub fn new(focused: bool) -> (r: HashPage)
        ensures
            r.focused == focused,
            r.cur.item == PageItems::Algo,
            r.cur.algo_sel == AlgoItemSelect::Md5,
            r.cur.input@ == Seq::<char>::empty(),
            r.cur.input_state.offset == 0,
            r.output_ok(),
    {
        let algo_sel = AlgoItemSelect::Md5;
        let input = String::new();
        let output = calculate_hash(input.as_str(), algo_sel);
        HashPage {
            focused,
            cur: CurrentStatus {
                item: PageItems::Algo,
                algo_sel,
                enc_sel: EncodeItemSelect::Utf8,
                input,
                input_state: ScrollOutputState::new(0),
                output,
            },
        }
    }

    pub fn handle_key(&self, key: KeyInput) -> (r: Option<Msg>)
        ensures
            r == spec_hash_key_msg(key),
    {
        let msg = match key {
            KeyInput::Char('j') | KeyInput::Down => HashMsg::SelectNextItem,
            KeyInput::Char('k') | KeyInput::Up => HashMsg::SelectPrevItem,
            KeyInput::Char('l') | KeyInput::Right => HashMsg::CurrentItemSelectNext,
            KeyInput::Char('h') | KeyInput::Left => HashMsg::CurrentItemSelectPrev,
            KeyInput::CtrlChar('e') => HashMsg::ScrollDown,
            KeyInput::CtrlChar('y') => HashMsg::ScrollUp,
            KeyInput::Char('y') => HashMsg::Copy,
            KeyInput::Char('p') => HashMsg::Paste,
            _ => {
                return None;
            },
        };
        Some(Msg::Page(PageMsg::Hash(msg)))
    }

    /// Reacts to one page message.  Every branch leaves the output
    /// consistent with the input, and a follow-up message, when one comes
    /// back, is always a notification.
    pub fn update(&mut self, msg: HashMsg) -> (r: Option<Msg>)
        requires
            old(self).output_ok(),
        ensures
            final(self).output_ok(),
            spec_hash_step(*old(self), msg, *final(self), r),
    {
        match msg {
            HashMsg::SelectNextItem => {
                self.cur.item = self.cur.item.next();
                None
            },
            HashMsg::SelectPrevItem => {
                self.cur.item = self.cur.item.prev();
                None
            },
            HashMsg::CurrentItemSelectNext => {
                self.current_item_select_next();
                None
            },
            HashMsg::CurrentItemSelectPrev => {
                self.current_item_select_prev();
                None
            },
            HashMsg::ScrollDown => {
                self.scroll_down();
                None
            },
            HashMsg::ScrollUp => {
                self.scroll_up();
                None
            },
            HashMsg::Copy => self.copy_to_clipboard(),
            HashMsg::Paste => self.paste_from_clipboard(),
        }
    }

    pub fn focus(&mut self)
        ensures
            *final(self) == (HashPage { focused: true, ..*old(self) }),
    {
        self.focused = true;
    }

    pub fn unfocus(&mut self)
        ensures
            *final(self) == (HashPage { focused: false, ..*old(self) }),
    {
        self.focused = false;
    }

    pub fn helps(&self) -> (r: Vec<&'static str>)
        ensures
            r@.map_values(|s: &str| s@) == spec_hash_helps(self.cur.item),
    {
        let mut helps: Vec<&'static str> = Vec::new();
        helps.push("<j/k> Select item");
        match self.cur.item {
            PageItems::Algo | PageItems::Encode => {
                helps.push("<h/l> Select current item value");
            },
            PageItems::Output => {
                helps.push("<y> Copy to clipboard");
            },
            PageItems::Input => {
                helps.push("<C-e/C-y> Scroll down/up");
                helps.push("<p> Paste from clipboard");
            },
        }
        proof {
            assert(helps@.map_values(|s: &str| s@) =~= spec_hash_helps(self.cur.item));
        }
        helps
    }

    fn current_item_select_next(&mut self)
        requires
            old(self).output_ok(),
        ensures
            final(self).output_ok(),
            final(self).focused == old(self).focused,
            spec_hash_value_next(*old(self), *final(self)),
    {
        match self.cur.item {
            PageItems::Algo => {
                self.cur.algo_sel.next_mut();
                self.update_hash();
            },
            PageItems::Encode => {
                self.cur.enc_sel.next_mut();
                self.update_hash();
            },
            PageItems::Input => {},
            PageItems::Output => {},
        }
    }

    fn current_item_select_prev(&mut self)
        requires
            old(self).output_ok(),
        ensures
            final(self).output_ok(),
            final(self).focused == old(self).focused,
            spec_hash_value_prev(*old(self), *final(self)),
    {
        match self.cur.item {
            PageItems::Algo => {
                self.cur.algo_sel.prev_mut();
                self.update_hash();
            },
            PageItems::Encode => {
                self.cur.enc_sel.prev_mut();
                self.update_hash();
            },
            PageItems::Input => {},
            PageItems::Output => {},
        }
    }

    fn scroll_down(&mut self)
        ensures
            final(self).cur.item == old(self).cur.item,
            final(self).cur.algo_sel == old(self).cur.algo_sel,
            final(self).cur.input == old(self).cur.input,
            final(self).cur.output == old(self).cur.output,
            final(self).focused == old(self).focused,
            old(self).cur.item is Input && old(self).cur.input@.len() > 0 ==> final(self).cur.input_state.offset == crate::widget::scroll::spec_offset_down(
                old(self).cur.input_state.offset as int,
            ),
            !(old(self).cur.item is Input && old(self).cur.input@.len() > 0) ==> *final(self)
                == *old(self),
    {
        if !(matches!(self.cur.item, PageItems::Input)) || self.cur.input.as_str().is_empty() {
            return ;
        }
        self.cur.input_state.scroll_down();
    }

    fn scroll_up(&mut self)
        ensures
            final(self).cur.item == old(self).cur.item,
            final(self).cur.algo_sel == old(self).cur.algo_sel,
            final(self).cur.input == old(self).cur.input,
            final(self).cur.output == old(self).cur.output,
            final(self).focused == old(self).focused,
            old(self).cur.item is Input && old(self).cur.input@.len() > 0 ==> final(self).cur.input_state.offset == crate::widget::scroll::spec_offset_up(
                old(self).cur.input_state.offset as int,
            ),
            !(old(self).cur.item is Input && old(self).cur.input@.len() > 0) ==> *final(self)
                == *old(self),
    {
        if !(matches!(self.cur.item, PageItems::Input)) || self.cur.input.as_str().is_empty() {
            return ;
        }
        self.cur.input_state.scroll_up();
    }

    fn copy_to_clipboard(&self) -> (r: Option<Msg>)
        ensures
            self.cur.item is Output ==> r is Some && (r matches Some(m) ==> m.is_notify()),
            !(self.cur.item is Output) ==> r is None,
    {
        if !(matches!(self.cur.item, PageItems::Output)) {
            return None;
        }
        util::copy_to_clipboard(self.cur.output.as_str())
    }

    fn paste_from_clipboard(&mut self) -> (r: Option<Msg>)
        requires
            old(self).output_ok(),
        ensures
            final(self).output_ok(),
            final(self).cur.item == old(self).cur.item,
            final(self).cur.algo_sel == old(self).cur.algo_sel,
            final(self).focused == old(self).focused,
            r matches Some(m) ==> m.is_notify(),
            !(old(self).cur.item is Input) ==> *final(self) == *old(self) && r is None,
    {
        if matches!(self.cur.item, PageItems::Input) {
            match util::paste_from_clipboard() {
                Some(text) => {
                    self.cur.input = text;
                    self.update_hash();
                    None
                },
                None => Some(Msg::NotifyError(String::from_str("Paste from clipboard failed"))),
            }
        } else {
            None
        }
    }

    fn update_hash(&mut self)
        ensures
            final(self).output_ok(),
            final(self).cur.item == old(self).cur.item,
            final(self).cur.algo_sel == old(self).cur.algo_sel,
            final(self).cur.enc_sel == old(self).cur.enc_sel,
            final(self).cur.input == old(self).cur.input,
            final(self).cur.input_state == old(self).cur.input_state,
            final(self).focused == old(self).focused,
    {
        self.cur.output = calculate_hash(self.cur.input.as_str(), self.cur.algo_sel);
    }
}

/// The saturating move of the value under the cursor, one step forward;
/// a selector move recomputes the output eagerly.
pub open spec fn spec_hash_value_next(pre: HashPage, post: HashPage) -> bool {
    match pre.cur.item {
        PageItems::Algo => post == (HashPage {
            cur: CurrentStatus {
                algo_sel: pre.cur.algo_sel.spec_next_sat(),
                output: post.cur.output,
                ..pre.cur
            },
            ..pre
        }) && post.output_ok(),
        PageItems::Encode => post == (HashPage {
            cur: CurrentStatus { output: post.cur.output, ..pre.cur },
            ..pre
        }) && post.output_ok(),
        PageItems::Input => post == pre,
        PageItems::Output => post == pre,
    }
}

/// The saturating move of the value under the cursor, one step back.
pub open spec fn spec_hash_value_prev(pre: HashPage, post: HashPage) -> bool {
    match pre.cur.item {
        PageItems::Algo => post == (HashPage {
            cur: CurrentStatus {
                algo_sel: pre.cur.algo_sel.spec_prev_sat(),
                output: post.cur.output,
                ..pre.cur
            },
            ..pre
        }) && post.output_ok(),
        PageItems::Encode => post == (HashPage {
            cur: CurrentStatus { output: post.cur.output, ..pre.cur },
            ..pre
        }) && post.output_ok(),
        PageItems::Input => post == pre,
        PageItems::Output => post == pre,
    }
}

/// One dispatch step of the page: the relation between the state before,
/// the message, the state after, and the follow-up message.
pub open spec fn spec_hash_step(
    pre: HashPage,
    msg: HashMsg,
    post: HashPage,
    r: Option<Msg>,
) -> bool {
    &&& post.focused == pre.focused
    &&& (r matches Some(m) ==> m.is_notify())
    &&& match msg {
        HashMsg::SelectNextItem => r is None && post == (HashPage {
            cur: CurrentStatus { item: pre.cur.item.spec_next(), ..pre.cur },
            ..pre
        }),
        HashMsg::SelectPrevItem => r is None && post == (HashPage {
            cur: CurrentStatus { item: pre.cur.item.spec_prev(), ..pre.cur },
            ..pre
        }),
        HashMsg::CurrentItemSelectNext => r is None && spec_hash_value_next(pre, post),
        HashMsg::CurrentItemSelectPrev => r is None && spec_hash_value_prev(pre, post),
        HashMsg::ScrollDown => r is None && (pre.cur.item is Input && pre.cur.input@.len() > 0
            ==> post == (HashPage {
            cur: CurrentStatus { input_state: post.cur.input_state, ..pre.cur },
            ..pre
        }) && post.cur.input_state.offset == crate::widget::scroll::spec_offset_down(
            pre.cur.input_state.offset as int,
        )) && (!(pre.cur.item is Input && pre.cur.input@.len() > 0) ==> post == pre),
        HashMsg::ScrollUp => r is None && (pre.cur.item is Input && pre.cur.input@.len() > 0
            ==> post == (HashPage {
            cur: CurrentStatus { input_state: post.cur.input_state, ..pre.cur },
            ..pre
        }) && post.cur.input_state.offset == crate::widget::scroll::spec_offset_up(
            pre.cur.input_state.offset as int,
        )) && (!(pre.cur.item is Input && pre.cur.input@.len() > 0) ==> post == pre),
        HashMsg::Copy => post == pre && (pre.cur.item is Output ==> r is Some) && (!(pre.cur.item
            is Output) ==> r is None),
        HashMsg::Paste => post.cur.item == pre.cur.item && post.cur.algo_sel == pre.cur.algo_sel
            && post.output_ok() && (!(pre.cur.item is Input) ==> post == pre && r is None),
    }
}

/// The message one key press maps to while this page has focus.
pub open spec fn spec_hash_key_msg(key: KeyInput) -> Option<Msg> {
    match key {
        KeyInput::Char('j') | KeyInput::Down => Some(
            Msg::Page(PageMsg::Hash(HashMsg::SelectNextItem)),
        ),
        KeyInput::Char('k') | KeyInput::Up => Some(
            Msg::Page(PageMsg::Hash(HashMsg::SelectPrevItem)),
        ),
        KeyInput::Char('l') | KeyInput::Right => Some(
            Msg::Page(PageMsg::Hash(HashMsg::CurrentItemSelectNext)),
        ),
        KeyInput::Char('h') | KeyInput::Left => Some(
            Msg::Page(PageMsg::Hash(HashMsg::CurrentItemSelectPrev)),
        ),
        KeyInput::CtrlChar('e') => Some(Msg::Page(PageMsg::Hash(HashMsg::ScrollDown))),
        KeyInput::CtrlChar('y') => Some(Msg::Page(PageMsg::Hash(HashMsg::ScrollUp))),
        KeyInput::Char('y') => Some(Msg::Page(PageMsg::Hash(HashMsg::Copy))),
        KeyInput::Char('p') => Some(Msg::Page(PageMsg::Hash(HashMsg::Paste))),
        _ => None,
    }
}

/// The hint strings the page offers, by the selected field.
pub open spec fn spec_hash_helps(item: PageItems) -> Seq<Seq<char>> {
    match item {
        PageItems::Algo | PageItems::Encode => seq![
            "<j/k> Select item"@,
            "<h/l> Select current item value"@,
        ],
        PageItems::Output => seq!["<j/k> Select item"@, "<y> Copy to clipboard"@],
        PageItems::Input => seq![
            "<j/k> Select item"@,
            "<C-e/C-y> Scroll down/up"@,
            "<p> Paste from clipboard"@,
        ],
    }
}

} // verus!
