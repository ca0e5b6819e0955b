use vstd::prelude::*;
use vstd::string::StringExecFns;
use crate::key::KeyInput;
use crate::msg::{Msg, NumberBaseMsg, PageMsg};
use crate::numfmt::{parse_radix_u128, format_radix_u128, spec_parse_radix, spec_radix_str};
use crate::pages::util;
use crate::strutil::{lower_of, to_lowercase, to_uppercase, upper_of};
use crate::textbuf::InputBuffer;

verus! {

/// The field cursor of the page: the four number fields and the case
/// selector, cycling with wraparound.
#[derive(Clone, Copy, Debug, PartialEq, Eq, Structural)]
pub enum PageItems {
    Binary,
    Octal,
    Decimal,
    Hexadecimal,
    Case,
}

impl PageItems {
    pub open spec fn spec_next(&self) -> PageItems {
        match self {
            PageItems::Binary => PageItems::Octal,
            PageItems::Octal => PageItems::Decimal,
            PageItems::Decimal => PageItems::Hexadecimal,
            PageItems::Hexadecimal => PageItems::Case,
            PageItems::Case => PageItems::Binary,
        }
    }

    pub fn next(&self) -> (r: PageItems)
        ensures
            r == self.spec_next(),
    {
        match self {
            PageItems::Binary => PageItems::Octal,
            PageItems::Octal => PageItems::Decimal,
            PageItems::Decimal => PageItems::Hexadecimal,
            PageItems::Hexadecimal => PageItems::Case,
            PageItems::Case => PageItems::Binary,
        }
    }

    pub open spec fn spec_prev(&self) -> PageItems {
        match self {
            PageItems::Binary => PageItems::Case,
            PageItems::Octal => PageItems::Binary,
            PageItems::Decimal => PageItems::Octal,
            PageItems::Hexadecimal => PageItems::Decimal,
            PageItems::Case => PageItems::Hexadecimal,
        }
    }

    pub fn prev(&self) -> (r: PageItems)
        ensures
            r == self.spec_prev(),
    {
        match self {
            PageItems::Binary => PageItems::Case,
            PageItems::Octal => PageItems::Binary,
            PageItems::Decimal => PageItems::Octal,
            PageItems::Hexadecimal => PageItems::Decimal,
            PageItems::Case => PageItems::Hexadecimal,
        }
    }

    /// The title of the field, empty for the case selector.
    pub fn str(&self) -> (r: &'static str)
        ensures
            r@ == spec_number_item_title(*self),
    {
        match self {
            PageItems::Binary => "Binary",
            PageItems::Octal => "Octal",
            PageItems::Decimal => "Decimal",
            PageItems::Hexadecimal => "Hexadecimal",
            PageItems::Case => "",
        }
    }

    /// The number base of the field, or zero for the case selector.
    pub open spec fn spec_base(&self) -> int {
        match self {
            PageItems::Binary => 2,
            PageItems::Octal => 8,
            PageItems::Decimal => 10,
            PageItems::Hexadecimal => 16,
            PageItems::Case => 0,
        }
    }
}

pub open spec fn spec_number_item_title(item: PageItems) -> Seq<char> {
    match item {
        PageItems::Binary => "Binary"@,
        PageItems::Octal => "Octal"@,
        PageItems::Decimal => "Decimal"@,
        PageItems::Hexadecimal => "Hexadecimal"@,
        PageItems::Case => ""@,
    }
}

/// The letter case applied to the hexadecimal field; a saturating selector.
#[derive(Clone, Copy, Debug, PartialEq, Eq, Structural)]
pub enum CaseItemSelect {
    Lowercase,
    Uppercase,
}

impl CaseItemSelect {
    pub open spec fn spec_val(&self) -> int {
        match self {
            CaseItemSelect::Lowercase => 0,
            CaseItemSelect::Uppercase => 1,
        }
    }

    pub fn val(&self) -> (r: usize)
        ensures
            r == self.spec_val(),
    {
        match self {
            CaseItemSelect::Lowercase => 0,
            CaseItemSelect::Uppercase => 1,
        }
    }

    pub fn next_mut(&mut self)
        ensures
            *final(self) == (if *old(self) is Lowercase {
                CaseItemSelect::Uppercase
            } else {
                *old(self)
            }),
    {
        if let CaseItemSelect::Lowercase = self {
            *self = CaseItemSelect::Uppercase;
        }
    }

    pub fn prev_mut(&mut self)
        ensures
            *final(self) == (if *old(self) is Uppercase {
                CaseItemSelect::Lowercase
            } else {
                *old(self)
            }),
    {
        if let CaseItemSelect::Uppercase = self {
            *self = CaseItemSelect::Lowercase;
        }
    }

    pub fn strings_vec() -> (r: Vec<String>)
        ensures
            r@.len() == 2,
            r@[0]@ == "Lowercase"@,
            r@[1]@ == "Uppercase"@,
    {
        let mut v: Vec<String> = Vec::new();
        v.push(String::from_str("Lowercase"));
        v.push(String::from_str("Uppercase"));
        v
    }
}

/// The hexadecimal text under the chosen case: the standard library's case
/// folding of the rendered digits.
pub open spec fn spec_hex_cased(s: Seq<char>, case: CaseItemSelect) -> Seq<char> {
    match case {
        CaseItemSelect::Lowercase => lower_of(s),
        CaseItemSelect::Uppercase => upper_of(s),
    }
}

/// The changing state of the page: the field cursor, the four number
/// fields with their status lines, the case selector, and the edit flag.
pub struct CurrentStatus {
    pub item: PageItems,
    pub binary_input: InputBuffer,
    pub octal_input: InputBuffer,
    pub decimal_input: InputBuffer,
    pub hex_input: InputBuffer,
    pub binary_status: String,
    pub octal_status: String,
    pub decimal_status: String,
    pub hex_status: String,
    pub case_sel: CaseItemSelect,
    pub edit: bool,
}

/// The number-base conversion page: one editable field per base, kept in
/// step by eager reparsing of whichever field was edited last.
pub struct NumberBasePage {
    pub focused: bool,
    pub cur: CurrentStatus,
}

impl NumberBasePage {
    /// Every field's cursor sits inside its text.
    pub open spec fn wf(&self) -> bool {
        &&& self.cur.binary_input.wf()
        &&& self.cur.octal_input.wf()
        &&& self.cur.decimal_input.wf()
        &&& self.cur.hex_input.wf()
    }

    pub fn new(focused: bool) -> (r: NumberBasePage)
        ensures
            r.focused == focused,
            r.cur.item == PageItems::Binary,
            r.cur.case_sel == CaseItemSelect::Lowercase,
            r.cur.edit == false,
            r.cur.binary_input.chars@ == Seq::<char>::empty(),
            r.cur.octal_input.chars@ == Seq::<char>::empty(),
            r.cur.decimal_input.chars@ == Seq::<char>::empty(),
            r.cur.hex_input.chars@ == Seq::<char>::empty(),
            r.wf(),
    {
        NumberBasePage {
            focused,
            cur: CurrentStatus {
                item: PageItems::Binary,
                binary_input: InputBuffer::new(),
                octal_input: InputBuffer::new(),
                decimal_input: InputBuffer::new(),
                hex_input: InputBuffer::new(),
                binary_status: String::new(),
                octal_status: String::new(),
                decimal_status: String::new(),
                hex_status: String::new(),
                case_sel: CaseItemSelect::Lowercase,
                edit: false,
            },
        }
    }

    pub fn handle_key(&self, key: KeyInput) -> (r: Option<Msg>)
        ensures
            r == spec_number_key_msg(self.cur.edit, key),
    {
        let msg = if self.cur.edit {
            match key {
                KeyInput::Esc => NumberBaseMsg::EditEnd,
                _ => NumberBaseMsg::EditKeyEvent(key),
            }
        } else {
            match key {
                KeyInput::Char('j') | KeyInput::Down => NumberBaseMsg::SelectNextItem,
                KeyInput::Char('k') | KeyInput::Up => NumberBaseMsg::SelectPrevItem,
                KeyInput::Char('l') | KeyInput::Right => NumberBaseMsg::CurrentItemSelectNext,
                KeyInput::Char('h') | KeyInput::Left => NumberBaseMsg::CurrentItemSelectPrev,
                KeyInput::Char('y') => NumberBaseMsg::Copy,
                KeyInput::Char('p') => NumberBaseMsg::Paste,
                KeyInput::Char('e') => NumberBaseMsg::EditStart,
                _ => {
                    return None;
                },
            }
        };
        Some(Msg::Page(PageMsg::NumberBase(msg)))
    }

    /// Reacts to one page message.  A follow-up message, when one comes
    /// back, is always a notification.
    pub fn update(&mut self, msg: NumberBaseMsg) -> (r: Option<Msg>)
        requires
            old(self).wf(),
        ensures
            final(self).wf(),
            spec_number_step(*old(self), msg, *final(self), r),
    {
        match msg {
            NumberBaseMsg::SelectNextItem => {
                self.cur.item = self.cur.item.next();
                None
            },
            NumberBaseMsg::SelectPrevItem => {
                self.cur.item = self.cur.item.prev();
                None
            },
            NumberBaseMsg::CurrentItemSelectNext => {
                self.current_item_select_next();
                None
            },
            NumberBaseMsg::CurrentItemSelectPrev => {
                self.current_item_select_prev();
                None
            },
            NumberBaseMsg::Copy => self.copy_to_clipboard(),
            NumberBaseMsg::Paste => self.paste_from_clipboard(),
            NumberBaseMsg::EditStart => {
                self.edit_start();
                None
            },
            NumberBaseMsg::EditEnd => {
                self.edit_end();
                None
            },
            NumberBaseMsg::EditKeyEvent(key) => {
                self.edit(key);
                None
            },
        }
    }

    pub fn focus(&mut self)
        ensures
            *final(self) == (NumberBasePage { focused: true, ..*old(self) }),
    {
        self.focused = true;
    }

    pub fn unfocus(&mut self)
        ensures
            *final(self) == (NumberBasePage { focused: false, ..*old(self) }),
    {
        self.focused = false;
    }

    pub fn helps(&self) -> (r: Vec<&'static str>)
        ensures
            r@.map_values(|s: &str| s@) == spec_number_helps(self.cur.edit),
    {
        let mut helps: Vec<&'static str> = Vec::new();
        if self.cur.edit {
            helps.push("<Esc> End edit");
        } else {
            helps.push("<e> Edit");
            helps.push("<j/k> Select item");
            helps.push("<y> Copy to clipboard");
            helps.push("<p> Paste from clipboard");
        }
        proof {
            assert(helps@.map_values(|s: &str| s@) =~= spec_number_helps(self.cur.edit));
        }
        helps
    }

    fn current_item_select_next(&mut self)
        requires
            old(self).wf(),
        ensures
            final(self).wf(),
            final(self).cur.item == old(self).cur.item,
            final(self).focused == old(self).focused,
            old(self).cur.item is Case ==> final(self).cur.case_sel == (if old(self).cur.case_sel
                is Lowercase {
                CaseItemSelect::Uppercase
            } else {
                old(self).cur.case_sel
            }) && final(self).cur.hex_input.chars@ == spec_hex_cased(
                old(self).cur.hex_input.chars@,
                final(self).cur.case_sel,
            ),
            !(old(self).cur.item is Case) ==> *final(self) == *old(self),
    {
        if let PageItems::Case = self.cur.item {
            self.cur.case_sel.next_mut();
            self.update_hex_case();
        }
    }

    fn current_item_select_prev(&mut self)
        requires
            old(self).wf(),
        ensures
            final(self).wf(),
            final(self).cur.item == old(self).cur.item,
            final(self).focused == old(self).focused,
            old(self).cur.item is Case ==> final(self).cur.case_sel == (if old(self).cur.case_sel
                is Uppercase {
                CaseItemSelect::Lowercase
            } else {
                old(self).cur.case_sel
            }) && final(self).cur.hex_input.chars@ == spec_hex_cased(
                old(self).cur.hex_input.chars@,
                final(self).cur.case_sel,
            ),
            !(old(self).cur.item is Case) ==> *final(self) == *old(self),
    {
        if let PageItems::Case = self.cur.item {
            self.cur.case_sel.prev_mut();
            self.update_hex_case();
        }
    }

    fn edit_start(&mut self)
        ensures
            *final(self) == (NumberBasePage {
                cur: CurrentStatus {
                    edit: (if old(self).cur.item is Case {
                        old(self).cur.edit
                    } else {
                        true
                    }),
                    ..old(self).cur
                },
                ..*old(self)
            }),
    {
        if matches!(self.cur.item, PageItems::Case) {
            return ;
        }
        self.cur.edit = true;
    }

    fn edit_end(&mut self)
        ensures
            *final(self) == (NumberBasePage {
                cur: CurrentStatus {
                    edit: (if old(self).cur.item is Case {
                        old(self).cur.edit
                    } else {
                        false
                    }),
                    ..old(self).cur
                },
                ..*old(self)
            }),
    {
        if matches!(self.cur.item, PageItems::Case) {
            return ;
        }
        self.cur.edit = false;
    }

    /// Forwards one key into the selected field and reparses it.
    fn edit(&mut self, key: KeyInput)
        requires
            old(self).wf(),
        ensures
            final(self).wf(),
            final(self).focused == old(self).focused,
            old(self).cur.item is Case ==> *final(self) == *old(self),
            !(old(self).cur.item is Case) ==> spec_numbers_result(
                *old(self),
                old(self).cur.item,
                InputBuffer::spec_edit(
                    spec_field_buf(*old(self), old(self).cur.item).0,
                    spec_field_buf(*old(self), old(self).cur.item).1,
                    key,
                ),
                *final(self),
            ),
    {
        match self.cur.item {
            PageItems::Binary => {
                self.cur.binary_input.handle_key(key);
            },
            PageItems::Octal => {
                self.cur.octal_input.handle_key(key);
            },
            PageItems::Decimal => {
                self.cur.decimal_input.handle_key(key);
            },
            PageItems::Hexadecimal => {
                self.cur.hex_input.handle_key(key);
            },
            PageItems::Case => {
                return ;
            },
        }
        let item = self.cur.item;
        self.update_numbers(item);
    }

    fn copy_to_clipboard(&self) -> (r: Option<Msg>)
        ensures
            self.cur.item is Case ==> r is None,
            !(self.cur.item is Case) ==> r is Some && (r matches Some(m) ==> m.is_notify()),
    {
        let text = match self.cur.item {
            PageItems::Binary => self.cur.binary_input.value(),
            PageItems::Octal => self.cur.octal_input.value(),
            PageItems::Decimal => self.cur.decimal_input.value(),
            PageItems::Hexadecimal => self.cur.hex_input.value(),
            PageItems::Case => {
                return None;
            },
        };
        util::copy_to_clipboard(text.as_str())
    }

    fn paste_from_clipboard(&mut self) -> (r: Option<Msg>)
        requires
            old(self).wf(),
        ensures
            final(self).wf(),
            final(self).cur.item == old(self).cur.item,
            final(self).focused == old(self).focused,
            r matches Some(m) ==> m is NotifyError,
            old(self).cur.item is Case ==> *final(self) == *old(self) && r is None,
    {
        if matches!(self.cur.item, PageItems::Case) {
            return None;
        }
        match util::paste_from_clipboard() {
            Some(text) => {
                match self.cur.item {
                    PageItems::Binary => {
                        self.cur.binary_input.set_value(text.as_str());
                    },
                    PageItems::Octal => {
                        self.cur.octal_input.set_value(text.as_str());
                    },
                    PageItems::Decimal => {
                        self.cur.decimal_input.set_value(text.as_str());
                    },
                    PageItems::Hexadecimal => {
                        self.cur.hex_input.set_value(text.as_str());
                    },
                    PageItems::Case => {},
                }
                let item = self.cur.item;
                self.update_numbers(item);
                None
            },
            None => Some(Msg::NotifyError(String::from_str("Paste from clipboard failed"))),
        }
    }

    /// Reparses the field that changed.  On success every field shows the
    /// same value, rendered in its own base with the chosen hexadecimal
    /// case, and all status lines clear; on failure only the changed
    /// field's status line reports the rejection and every other field and
    /// status line keeps what it held.
    fn update_numbers(&mut self, updated_item: PageItems)
        requires
            old(self).wf(),
            !(updated_item is Case),
        ensures
            final(self).wf(),
            final(self).focused == old(self).focused,
            spec_numbers_result(
                *old(self),
                updated_item,
                spec_field_buf(*old(self), updated_item),
                *final(self),
            ),
    {
        let parsed: Option<u128> = match updated_item {
            PageItems::Binary => {
                let v = self.cur.binary_input.value();
                parse_radix_u128(v.as_str(), 2)
            },
            PageItems::Octal => {
                let v = self.cur.octal_input.value();
                parse_radix_u128(v.as_str(), 8)
            },
            PageItems::Decimal => {
                let v = self.cur.decimal_input.value();
                parse_radix_u128(v.as_str(), 10)
            },
            PageItems::Hexadecimal => {
                let v = self.cur.hex_input.value();
                parse_radix_u128(v.as_str(), 16)
            },
            PageItems::Case => {
                return ;
            },
        };
        match parsed {
            Some(value) => {
                let b = format_radix_u128(value, 2);
                self.cur.binary_input.set_value(b.as_str());
                let o = format_radix_u128(value, 8);
                self.cur.octal_input.set_value(o.as_str());
                let d = format_radix_u128(value, 10);
                self.cur.decimal_input.set_value(d.as_str());
                let h = format_radix_u128(value, 16);
                self.cur.hex_input.set_value(h.as_str());
                self.update_hex_case();
                self.cur.binary_status = String::new();
                self.cur.octal_status = String::new();
                self.cur.decimal_status = String::new();
                self.cur.hex_status = String::new();
            },
            None => {
                match updated_item {
                    PageItems::Binary => {
                        self.cur.binary_status = String::from_str("Invalid binary number");
                    },
                    PageItems::Octal => {
                        self.cur.octal_status = String::from_str("Invalid octal number");
                    },
                    PageItems::Decimal => {
                        self.cur.decimal_status = String::from_str("Invalid decimal number");
                    },
                    PageItems::Hexadecimal => {
                        self.cur.hex_status = String::from_str("Invalid hexadecimal number");
                    },
                    PageItems::Case => {},
                }
            },
        }
    }

    /// Applies the chosen case to the hexadecimal field.
    fn update_hex_case(&mut self)
        requires
            old(self).wf(),
        ensures
            final(self).wf(),
            *final(self) == (NumberBasePage {
                cur: CurrentStatus {
                    hex_input: final(self).cur.hex_input,
                    ..old(self).cur
                },
                ..*old(self)
            }),
            final(self).cur.hex_input.chars@ == spec_hex_cased(
                old(self).cur.hex_input.chars@,
                old(self).cur.case_sel,
            ),
    {
        let value = self.cur.hex_input.value();
        match self.cur.case_sel {
            CaseItemSelect::Lowercase => {
                let lowered = to_lowercase(value.as_str());
                self.cur.hex_input.set_value(lowered.as_str());
            },
            CaseItemSelect::Uppercase => {
                let raised = to_uppercase(value.as_str());
                self.cur.hex_input.set_value(raised.as_str());
            },
        }
    }
}

/// The buffer of the given field: its text and its cursor.
pub open spec fn spec_field_buf(page: NumberBasePage, item: PageItems) -> (Seq<char>, int) {
    match item {
        PageItems::Binary => (page.cur.binary_input.chars@, page.cur.binary_input.cursor as int),
        PageItems::Octal => (page.cur.octal_input.chars@, page.cur.octal_input.cursor as int),
        PageItems::Decimal => (
            page.cur.decimal_input.chars@,
            page.cur.decimal_input.cursor as int,
        ),
        PageItems::Hexadecimal => (page.cur.hex_input.chars@, page.cur.hex_input.cursor as int),
        PageItems::Case => (Seq::empty(), 0),
    }
}

/// What one reparse of the given field does, where `buf` is the text and
/// cursor that field holds as the reparse starts.  On success every field
/// is rewritten to the parsed value in its own base, the hexadecimal one
/// under the chosen case, and all four status lines clear; on failure the
/// reparsed field keeps `buf`, every other field keeps its text, only the
/// reparsed field's status line reports the rejection, and the other
/// status lines keep what they held.
pub open spec fn spec_numbers_result(
    pre: NumberBasePage,
    updated: PageItems,
    buf: (Seq<char>, int),
    post: NumberBasePage,
) -> bool {
    &&& post.cur.item == pre.cur.item
    &&& post.cur.edit == pre.cur.edit
    &&& post.cur.case_sel == pre.cur.case_sel
    &&& match spec_parse_radix(buf.0, updated.spec_base()) {
        Some(v) => {
            &&& post.cur.binary_input.chars@ == spec_radix_str(v as int, 2)
            &&& post.cur.octal_input.chars@ == spec_radix_str(v as int, 8)
            &&& post.cur.decimal_input.chars@ == spec_radix_str(v as int, 10)
            &&& post.cur.hex_input.chars@ == spec_hex_cased(
                spec_radix_str(v as int, 16),
                pre.cur.case_sel,
            )
            &&& post.cur.binary_status@ == Seq::<char>::empty()
            &&& post.cur.octal_status@ == Seq::<char>::empty()
            &&& post.cur.decimal_status@ == Seq::<char>::empty()
            &&& post.cur.hex_status@ == Seq::<char>::empty()
        },
        None => {
            &&& spec_field_buf(post, updated) == buf
            &&& (!(updated is Binary) ==> post.cur.binary_input == pre.cur.binary_input)
            &&& (!(updated is Octal) ==> post.cur.octal_input == pre.cur.octal_input)
            &&& (!(updated is Decimal) ==> post.cur.decimal_input == pre.cur.decimal_input)
            &&& (!(updated is Hexadecimal) ==> post.cur.hex_input == pre.cur.hex_input)
            &&& (updated is Binary ==> post.cur.binary_status@ == "Invalid binary number"@)
            &&& (!(updated is Binary) ==> post.cur.binary_status == pre.cur.binary_status)
            &&& (updated is Octal ==> post.cur.octal_status@ == "Invalid octal number"@)
            &&& (!(updated is Octal) ==> post.cur.octal_status == pre.cur.octal_status)
            &&& (updated is Decimal ==> post.cur.decimal_status@ == "Invalid decimal number"@)
            &&& (!(updated is Decimal) ==> post.cur.decimal_status == pre.cur.decimal_status)
            &&& (updated is Hexadecimal ==> post.cur.hex_status@ == "Invalid hexadecimal number"@)
            &&& (!(updated is Hexadecimal) ==> post.cur.hex_status == pre.cur.hex_status)
        },
    }
}

/// One dispatch step of the page: the relation between the state before,
/// the message, the state after, and the follow-up message.
pub open spec fn spec_number_step(
    pre: NumberBasePage,
    msg: NumberBaseMsg,
    post: NumberBasePage,
    r: Option<Msg>,
) -> bool {
    &&& post.focused == pre.focused
    &&& (r matches Some(m) ==> m.is_notify())
    &&& match msg {
        NumberBaseMsg::SelectNextItem => r is None && post == (NumberBasePage {
            cur: CurrentStatus { item: pre.cur.item.spec_next(), ..pre.cur },
            ..pre
        }),
        NumberBaseMsg::SelectPrevItem => r is None && post == (NumberBasePage {
            cur: CurrentStatus { item: pre.cur.item.spec_prev(), ..pre.cur },
            ..pre
        }),
        NumberBaseMsg::CurrentItemSelectNext => r is None && post.cur.item == pre.cur.item && (
        pre.cur.item is Case ==> post.cur.case_sel == (if pre.cur.case_sel is Lowercase {
            CaseItemSelect::Uppercase
        } else {
            pre.cur.case_sel
        }) && post.cur.hex_input.chars@ == spec_hex_cased(
            pre.cur.hex_input.chars@,
            post.cur.case_sel,
        )) && (!(pre.cur.item is Case) ==> post == pre),
        NumberBaseMsg::CurrentItemSelectPrev => r is None && post.cur.item == pre.cur.item && (
        pre.cur.item is Case ==> post.cur.case_sel == (if pre.cur.case_sel is Uppercase {
            CaseItemSelect::Lowercase
        } else {
            pre.cur.case_sel
        }) && post.cur.hex_input.chars@ == spec_hex_cased(
            pre.cur.hex_input.chars@,
            post.cur.case_sel,
        )) && (!(pre.cur.item is Case) ==> post == pre),
        NumberBaseMsg::EditStart => r is None && post == (NumberBasePage {
            cur: CurrentStatus {
                edit: (if pre.cur.item is Case {
                    pre.cur.edit
                } else {
                    true
                }),
                ..pre.cur
            },
            ..pre
        }),
        NumberBaseMsg::EditEnd => r is None && post == (NumberBasePage {
            cur: CurrentStatus {
                edit: (if pre.cur.item is Case {
                    pre.cur.edit
                } else {
                    false
                }),
                ..pre.cur
            },
            ..pre
        }),
        NumberBaseMsg::EditKeyEvent(k) => r is None && (pre.cur.item is Case ==> post == pre) && (
        !(pre.cur.item is Case) ==> spec_numbers_result(
            pre,
            pre.cur.item,
            InputBuffer::spec_edit(
                spec_field_buf(pre, pre.cur.item).0,
                spec_field_buf(pre, pre.cur.item).1,
                k,
            ),
            post,
        )),
        NumberBaseMsg::Copy => post == pre && (pre.cur.item is Case ==> r is None) && (!(
        pre.cur.item is Case) ==> r is Some),
        NumberBaseMsg::Paste => post.cur.item == pre.cur.item && (r matches Some(m) ==> m
            is NotifyError) && (pre.cur.item is Case ==> post == pre && r is None),
    }
}

/// The message one key press maps to, by the edit sub-state.
pub open spec fn spec_number_key_msg(edit: bool, key: KeyInput) -> Option<Msg> {
    if edit {
        match key {
            KeyInput::Esc => Some(Msg::Page(PageMsg::NumberBase(NumberBaseMsg::EditEnd))),
            _ => Some(Msg::Page(PageMsg::NumberBase(NumberBaseMsg::EditKeyEvent(key)))),
        }
    } else {
        match key {
            KeyInput::Char('j') | KeyInput::Down => Some(
                Msg::Page(PageMsg::NumberBase(NumberBaseMsg::SelectNextItem)),
            ),
            KeyInput::Char('k') | KeyInput::Up => Some(
                Msg::Page(PageMsg::NumberBase(NumberBaseMsg::SelectPrevItem)),
            ),
            KeyInput::Char('l') | KeyInput::Right => Some(
                Msg::Page(PageMsg::NumberBase(NumberBaseMsg::CurrentItemSelectNext)),
            ),
            KeyInput::Char('h') | KeyInput::Left => Some(
                Msg::Page(PageMsg::NumberBase(NumberBaseMsg::CurrentItemSelectPrev)),
            ),
            KeyInput::Char('y') => Some(Msg::Page(PageMsg::NumberBase(NumberBaseMsg::Copy))),
            KeyInput::Char('p') => Some(Msg::Page(PageMsg::NumberBase(NumberBaseMsg::Paste))),
            KeyInput::Char('e') => Some(Msg::Page(PageMsg::NumberBase(NumberBaseMsg::EditStart))),
            _ => None,
        }
    }
}

/// The hint strings the page offers, by the edit sub-state.
pub open spec fn spec_number_helps(edit: bool) -> Seq<Seq<char>> {
    if edit {
        seq!["<Esc> End edit"@]
    } else {
        seq![
            "<e> Edit"@,
            "<j/k> Select item"@,
            "<y> Copy to clipboard"@,
            "<p> Paste from clipboard"@,
        ]
    }
}

} // verus!
