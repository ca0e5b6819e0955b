use vstd::prelude::*;
use vstd::string::StringExecFns;
use crate::key::KeyInput;
use crate::msg::{Msg, PageMsg, UnixTimeMsg};
use crate::numfmt::{format_dec_i64, parse_radix_u128, spec_dec_i64, spec_parse_radix};
use crate::pages::util;
use crate::textbuf::InputBuffer;

verus! {

/// The output format every fresh page starts with.
pub const DEFAULT_OUTPUT_FORMAT: &'static str = "%Y-%m-%dT%H:%M:%S%.f%:z";

/// Whether a format string is a well-formed strftime format; what the
/// format parser of the date-time library accepts.
pub uninterp spec fn strftime_valid_of(s: Seq<char>) -> bool;

/// What formatting the given instant in universal time with the given
/// format string yields; a function of the arguments alone.
pub uninterp spec fn utc_format_of(secs: i64, nanos: u32, fmt: Seq<char>) -> Seq<char>;

/// What parsing text as a date-time returns: seconds and subsecond
/// nanoseconds since the epoch, or nothing for text that is no date-time.
pub uninterp spec fn datetime_parse_of(s: Seq<char>) -> Option<(i64, u32)>;

/// Relies on `chrono::format::StrftimeItems`: the format string is walked
/// and accepted exactly when no item comes back as an error.
#[verifier::external_body]
pub fn is_valid_datetime_format(s: &str) -> (r: bool)
    ensures
        r == strftime_valid_of(s@),
{
    chrono::format::StrftimeItems::new(s).all(|item| item != chrono::format::Item::Error)
}

/// Relies on `chrono::DateTime::from_timestamp` and `DateTime::format`:
/// the rendering of the instant in universal time, a function of the
/// arguments alone.  The bounds keep the instant inside the library's
/// supported range and the format well formed, where neither call fails.
#[verifier::external_body]
fn format_datetime_utc(secs: i64, nanos: u32, fmt: &str) -> (r: String)
    requires
        0 <= secs < 1_000_000_000_000,
        nanos < 1_000_000_000,
        strftime_valid_of(fmt@),
    ensures
        r@ == utc_format_of(secs, nanos, fmt@),
{
    chrono::DateTime::from_timestamp(secs, nanos).unwrap().format(fmt).to_string()
}

/// Relies on `chrono::DateTime::with_timezone` into the machine's local
/// zone and `DateTime::format`: the rendering depends on the machine's
/// zone, so nothing is promised of the text.
#[verifier::external_body]
fn format_datetime_local(secs: i64, nanos: u32, fmt: &str) -> String
    requires
        0 <= secs < 1_000_000_000_000,
        nanos < 1_000_000_000,
        strftime_valid_of(fmt@),
{
    let dt = chrono::DateTime::from_timestamp(secs, nanos).unwrap();
    dt.with_timezone(&chrono::Local).format(fmt).to_string()
}

/// Relies on `str::parse` for `chrono::DateTime<Utc>`: the result is a
/// function of the characters alone.
#[verifier::external_body]
pub fn parse_as_datetime(s: &str) -> (r: Option<(i64, u32)>)
    ensures
        r == datetime_parse_of(s@),
{
    s.parse::<chrono::DateTime<chrono::Utc>>().ok().map(
        |dt| (dt.timestamp(), dt.timestamp_subsec_nanos()),
    )
}

/// How finely a numeric timestamp was given, read off its magnitude.
#[derive(Clone, Copy, Debug, PartialEq, Eq, Structural)]
pub enum Resolution {
    Second,
    Milli,
    Micro,
    Nano,
}

impl Resolution {
    pub fn str(&self) -> (r: &'static str)
        ensures
            r@ == spec_resolution_str(*self),
    {
        match self {
            Resolution::Second => "Second",
            Resolution::Milli => "Milli",
            Resolution::Micro => "Micro",
            Resolution::Nano => "Nano",
        }
    }
}

pub open spec fn spec_resolution_str(r: Resolution) -> Seq<char> {
    match r {
        Resolution::Second => "Second"@,
        Resolution::Milli => "Milli"@,
        Resolution::Micro => "Micro"@,
        Resolution::Nano => "Nano"@,
    }
}

/// An instant split into seconds and subsecond nanoseconds, together with
/// the resolution the timestamp was given in.
pub struct DateTimeWithResolution {
    pub secs: i64,
    pub nanos: u32,
    pub resolution: Resolution,
}

/// The instant a numeric timestamp denotes, by its magnitude: up to twelve
/// digits it counts seconds, then milliseconds, microseconds and
/// nanoseconds; anything of twenty-two digits or more is rejected.
pub open spec fn spec_timestamp_parts(t: int) -> (int, int, Resolution) {
    if t < 1_000_000_000_000 {
        (t, 0, Resolution::Second)
    } else if t < 1_000_000_000_000_000 {
        (t / 1_000, (t % 1_000) * 1_000_000, Resolution::Milli)
    } else if t < 1_000_000_000_000_000_000 {
        (t / 1_000_000, (t % 1_000_000) * 1_000, Resolution::Micro)
    } else {
        (t / 1_000_000_000, t % 1_000_000_000, Resolution::Nano)
    }
}

/// Splits a numeric timestamp into an instant and its resolution; rejects
/// values too large to be a nanosecond timestamp.
pub fn to_timestamp(t: u128) -> (r: Option<DateTimeWithResolution>)
    ensures
        t < 1_000_000_000_000_000_000_000 ==> (r matches Some(d) && (d.secs as int, d.nanos as int,
        d.resolution) == spec_timestamp_parts(t as int)),
        t >= 1_000_000_000_000_000_000_000 ==> r is None,
{
    if t < 1_000_000_000_000 {
        Some(DateTimeWithResolution { secs: t as i64, nanos: 0, resolution: Resolution::Second })
    } else if t < 1_000_000_000_000_000 {
        let sec = t / 1_000;
        let millis = t % 1_000;
        Some(
            DateTimeWithResolution {
                secs: sec as i64,
                nanos: (millis * 1_000_000) as u32,
                resolution: Resolution::Milli,
            },
        )
    } else if t < 1_000_000_000_000_000_000 {
        let sec = t / 1_000_000;
        let micros = t % 1_000_000;
        Some(
            DateTimeWithResolution {
                secs: sec as i64,
                nanos: (micros * 1_000) as u32,
                resolution: Resolution::Micro,
            },
        )
    } else if t < 1_000_000_000_000_000_000_000 {
        let sec = t / 1_000_000_000;
        let nanos = t % 1_000_000_000;
        Some(
            DateTimeWithResolution {
                secs: sec as i64,
                nanos: nanos as u32,
                resolution: Resolution::Nano,
            },
        )
    } else {
        None
    }
}

/// The instant a decimal string denotes as a numeric timestamp, if any.
pub open spec fn spec_unix_ts(s: Seq<char>) -> Option<(int, int, Resolution)> {
    match spec_parse_radix(s, 10) {
        Some(t) => if t < 1_000_000_000_000_000_000_000 {
            Some(spec_timestamp_parts(t as int))
        } else {
            None
        },
        None => None,
    }
}

/// Parses a decimal string as a numeric timestamp.
pub fn parse_as_unix_timestamp(s: &str) -> (r: Option<DateTimeWithResolution>)
    ensures
        match spec_unix_ts(s@) {
            Some(parts) => r matches Some(d) && (d.secs as int, d.nanos as int, d.resolution)
                == parts,
            None => r is None,
        },
{
    match parse_radix_u128(s, 10) {
        Some(t) => to_timestamp(t),
        None => None,
    }
}

/// A status line under a field: empty, informational, or a warning.
pub enum Status {
    Empty,
    Info(String),
    Warn(String),
}

impl Status {
    /// The text of the status line, empty when there is none.
    pub fn str(&self) -> (r: &str)
        ensures
            r@ == spec_status_str(self),
    {
        match self {
            Status::Empty => "",
            Status::Info(s) => s.as_str(),
            Status::Warn(s) => s.as_str(),
        }
    }
}

pub open spec fn spec_status_str(s: &Status) -> Seq<char> {
    match s {
        Status::Empty => ""@,
        Status::Info(t) => t@,
        Status::Warn(t) => t@,
    }
}

/// The time zone the output is rendered in; a saturating selector.
#[derive(Clone, Copy, Debug, PartialEq, Eq, Structural)]
pub enum TimeZoneItemSelect {
    Utc,
    Local,
}

impl TimeZoneItemSelect {
    pub open spec fn spec_val(&self) -> int {
        match self {
            TimeZoneItemSelect::Utc => 0,
            TimeZoneItemSelect::Local => 1,
        }
    }

    pub fn val(&self) -> (r: usize)
        ensures
            r == self.spec_val(),
    {
        match self {
            TimeZoneItemSelect::Utc => 0,
            TimeZoneItemSelect::Local => 1,
        }
    }

    pub fn len() -> (r: usize)
        ensures
            r == 2,
    {
        2
    }

    pub fn next(&self) -> (r: TimeZoneItemSelect)
        ensures
            r == (if *self is Utc {
                TimeZoneItemSelect::Local
            } else {
                TimeZoneItemSelect::Utc
            }),
    {
        match self {
            TimeZoneItemSelect::Utc => TimeZoneItemSelect::Local,
            TimeZoneItemSelect::Local => TimeZoneItemSelect::Utc,
        }
    }

    pub fn prev(&self) -> (r: TimeZoneItemSelect)
        ensures
            r == (if *self is Utc {
                TimeZoneItemSelect::Local
            } else {
                TimeZoneItemSelect::Utc
            }),
    {
        match self {
            TimeZoneItemSelect::Utc => TimeZoneItemSelect::Local,
            TimeZoneItemSelect::Local => TimeZoneItemSelect::Utc,
        }
    }

    pub fn str(&self) -> (r: &'static str)
        ensures
            r@ == (if *self is Utc {
                "UTC"@
            } else {
                "Local"@
            }),
    {
        match self {
            TimeZoneItemSelect::Utc => "UTC",
            TimeZoneItemSelect::Local => "Local",
        }
    }

    pub fn strings_vec() -> (r: Vec<String>)
        ensures
            r@.len() == 2,
            r@[0]@ == "UTC"@,
            r@[1]@ == "Local"@,
    {
        let mut v: Vec<String> = Vec::new();
        v.push(String::from_str("UTC"));
        v.push(String::from_str("Local"));
        v
    }
}

/// The field cursor of the page, cycling with wraparound.
#[derive(Clone, Copy, Debug, PartialEq, Eq, Structural)]
pub enum PageItems {
    Input,
    Output,
    TimeZone,
    OutputFormat,
}

impl PageItems {
    pub open spec fn spec_next(&self) -> PageItems {
        match self {
            PageItems::Input => PageItems::Output,
            PageItems::Output => PageItems::TimeZone,
            PageItems::TimeZone => PageItems::OutputFormat,
            PageItems::OutputFormat => PageItems::Input,
        }
    }

    pub fn next(&self) -> (r: PageItems)
        ensures
            r == self.spec_next(),
    {
        match self {
            PageItems::Input => PageItems::Output,
            PageItems::Output => PageItems::TimeZone,
            PageItems::TimeZone => PageItems::OutputFormat,
            PageItems::OutputFormat => PageItems::Input,
        }
    }

    pub open spec fn spec_prev(&self) -> PageItems {
        match self {
            PageItems::Input => PageItems::OutputFormat,
            PageItems::Output => PageItems::Input,
            PageItems::TimeZone => PageItems::Output,
            PageItems::OutputFormat => PageItems::TimeZone,
        }
    }

    pub fn prev(&self) -> (r: PageItems)
        ensures
            r == self.spec_prev(),
    {
        match self {
            PageItems::Input => PageItems::OutputFormat,
            PageItems::Output => PageItems::Input,
            PageItems::TimeZone => PageItems::Output,
            PageItems::OutputFormat => PageItems::TimeZone,
        }
    }
}

/// The changing state of the page: the field cursor, the timestamp input,
/// the derived output, the zone selector, the output format, the two status
/// lines, and the edit flag.
pub struct CurrentStatus {
    pub item: PageItems,
    pub input: InputBuffer,
    pub output: String,
    pub tz_sel: TimeZoneItemSelect,
    pub output_format: InputBuffer,
    pub input_status: Status,
    pub output_format_status: Status,
    pub edit: bool,
}

/// The timestamp conversion page: a numeric timestamp or date-time input,
/// a zone and format for the rendering, and the derived output recomputed
/// eagerly on every input-affecting change.
pub struct UnixTimePage {
    pub focused: bool,
    pub cur: CurrentStatus,
}

impl UnixTimePage {
    pub open spec fn wf(&self) -> bool {
        &&& self.cur.input.wf()
        &&& self.cur.output_format.wf()
    }

    pub fn new(focused: bool) -> (r: UnixTimePage)
        ensures
            r.focused == focused,
            r.cur.item == PageItems::Input,
            r.cur.input.chars@ == Seq::<char>::empty(),
            r.cur.output@ == Seq::<char>::empty(),
            r.cur.tz_sel == TimeZoneItemSelect::Utc,
            r.cur.output_format.chars@ == DEFAULT_OUTPUT_FORMAT@,
            r.cur.input_status is Empty,
            r.cur.output_format_status is Empty,
            r.cur.edit == false,
            r.wf(),
    {
        let output_format = InputBuffer::new_with(DEFAULT_OUTPUT_FORMAT);
        UnixTimePage {
            focused,
            cur: CurrentStatus {
                item: PageItems::Input,
                input: InputBuffer::new(),
                output: String::new(),
                tz_sel: TimeZoneItemSelect::Utc,
                output_format,
                input_status: Status::Empty,
                output_format_status: Status::Empty,
                edit: false,
            },
        }
    }

    pub fn handle_key(&self, key: KeyInput) -> (r: Option<Msg>)
        ensures
            r == spec_unixtime_key_msg(self.cur.edit, key),
    {
        if self.cur.edit {
            return match key {
                KeyInput::Esc => Some(Msg::Page(PageMsg::UnixTime(UnixTimeMsg::EditEnd))),
                _ => Some(Msg::Page(PageMsg::UnixTime(UnixTimeMsg::EditKeyEvent(key)))),
            };
        }
        match key {
            KeyInput::Esc => Some(Msg::Quit),
            KeyInput::CtrlChar('n') => Some(Msg::Page(PageMsg::UnixTime(
                UnixTimeMsg::SelectNextItem,
            ))),
            KeyInput::CtrlChar('p') => Some(Msg::Page(PageMsg::UnixTime(
                UnixTimeMsg::SelectPrevItem,
            ))),
            KeyInput::Char('l') | KeyInput::Right => Some(Msg::Page(PageMsg::UnixTime(
                UnixTimeMsg::CurrentItemSelectNext,
            ))),
            KeyInput::Char('h') | KeyInput::Left => Some(Msg::Page(PageMsg::UnixTime(
                UnixTimeMsg::CurrentItemSelectPrev,
            ))),
            KeyInput::Char('y') => Some(Msg::Page(PageMsg::UnixTime(UnixTimeMsg::Copy))),
            KeyInput::Char('p') => Some(Msg::Page(PageMsg::UnixTime(UnixTimeMsg::Paste))),
            KeyInput::Char('e') => Some(Msg::Page(PageMsg::UnixTime(UnixTimeMsg::EditStart))),
            _ => None,
        }
    }

    /// Reacts to one page message.  A follow-up message, when one comes
    /// back, is always a notification.
    pub fn update(&mut self, msg: UnixTimeMsg) -> (r: Option<Msg>)
        requires
            old(self).wf(),
        ensures
            final(self).wf(),
            spec_unixtime_step(*old(self), msg, *final(self), r),
    {
        match msg {
            UnixTimeMsg::SelectNextItem => {
                self.cur.item = self.cur.item.next();
                None
            },
            UnixTimeMsg::SelectPrevItem => {
                self.cur.item = self.cur.item.prev();
                None
            },
            UnixTimeMsg::CurrentItemSelectNext => {
                self.current_item_select_next();
                None
            },
            UnixTimeMsg::CurrentItemSelectPrev => {
                self.current_item_select_prev();
                None
            },
            UnixTimeMsg::Copy => self.copy_to_clipboard(),
            UnixTimeMsg::Paste => self.paste_from_clipboard(),
            UnixTimeMsg::EditStart => {
                self.edit_start();
                None
            },
            UnixTimeMsg::EditEnd => {
                self.edit_end();
                None
            },
            UnixTimeMsg::EditKeyEvent(key) => {
                self.edit(key);
                None
            },
        }
    }

    pub fn focus(&mut self)
        ensures
            *final(self) == (UnixTimePage { focused: true, ..*old(self) }),
    {
        self.focused = true;
    }

    pub fn unfocus(&mut self)
        ensures
            *final(self) == (UnixTimePage { focused: false, ..*old(self) }),
    {
        self.focused = false;
    }

    pub fn helps(&self) -> (r: Vec<&'static str>)
        ensures
            r@.map_values(|s: &str| s@) == spec_unixtime_helps(self.cur.edit, self.cur.item),
    {
        let mut helps: Vec<&'static str> = Vec::new();
        if self.cur.edit {
            helps.push("<Esc> End edit");
        } else {
            helps.push("<C-n/C-p> Select item");
            if matches!(self.cur.item, PageItems::TimeZone) {
                helps.push("<Left/Right> Select current item value");
            }
            if matches!(self.cur.item, PageItems::Input | PageItems::OutputFormat) {
                helps.push("<e> Edit");
            }
            if matches!(
                self.cur.item,
                PageItems::Input | PageItems::Output | PageItems::OutputFormat
            ) {
                helps.push("<y> Copy to clipboard");
            }
            if matches!(self.cur.item, PageItems::Input | PageItems::OutputFormat) {
                helps.push("<p> Paste from clipboard");
            }
        }
        proof {
            assert(helps@.map_values(|s: &str| s@) =~= spec_unixtime_helps(
                self.cur.edit,
                self.cur.item,
            ));
        }
        helps
    }

    /// What the output and the status lines show for the current input,
    /// zone and format, when the zone is universal time; in the local zone
    /// only the status lines are pinned down.
    pub open spec fn output_consistent(&self) -> bool {
        let s = self.cur.input.chars@;
        let fmt = self.cur.output_format.chars@;
        if s.len() == 0 {
            self.cur.output@ == Seq::<char>::empty() && self.cur.input_status is Empty
        } else {
            match spec_unix_ts(s) {
                Some(parts) => {
                    &&& spec_status_str(&self.cur.input_status) == "valid unix timestamp ("@
                        + spec_resolution_str(parts.2) + ")"@
                    &&& self.cur.input_status is Info
                    &&& (strftime_valid_of(fmt) ==> self.cur.output_format_status is Empty && (
                    self.cur.tz_sel is Utc ==> self.cur.output@ == utc_format_of(
                        parts.0 as i64,
                        parts.1 as u32,
                        fmt,
                    )))
                    &&& (!strftime_valid_of(fmt) ==> self.cur.output@ == Seq::<char>::empty()
                        && self.cur.output_format_status is Warn && spec_status_str(
                        &self.cur.output_format_status,
                    ) == "invalid format"@)
                },
                None => match datetime_parse_of(s) {
                    Some(dt) => {
                        &&& self.cur.output@ == spec_dec_i64(dt.0 as int)
                        &&& self.cur.input_status is Info
                        &&& spec_status_str(&self.cur.input_status) == "valid datetime"@
                    },
                    None => {
                        &&& self.cur.output@ == Seq::<char>::empty()
                        &&& self.cur.input_status is Warn
                        &&& spec_status_str(&self.cur.input_status) == "invalid input"@
                    },
                },
            }
        }
    }

    fn current_item_select_next(&mut self)
        requires
            old(self).wf(),
        ensures
            final(self).wf(),
            final(self).focused == old(self).focused,
            final(self).cur.item == old(self).cur.item,
            final(self).cur.input == old(self).cur.input,
            !(old(self).cur.item is TimeZone) ==> *final(self) == *old(self),
            old(self).cur.item is TimeZone ==> final(self).cur.tz_sel is Local && final(self).output_consistent(),
    {
        match self.cur.item {
            PageItems::TimeZone => {
                if self.cur.tz_sel.val() < TimeZoneItemSelect::len() - 1 {
                    self.cur.tz_sel = self.cur.tz_sel.next();
                }
                self.update_output();
            },
            PageItems::Input => {},
            PageItems::Output => {},
            PageItems::OutputFormat => {},
        }
    }

    fn current_item_select_prev(&mut self)
        requires
            old(self).wf(),
        ensures
            final(self).wf(),
            final(self).focused == old(self).focused,
            final(self).cur.item == old(self).cur.item,
            final(self).cur.input == old(self).cur.input,
            !(old(self).cur.item is TimeZone) ==> *final(self) == *old(self),
            old(self).cur.item is TimeZone ==> final(self).cur.tz_sel is Utc && final(self).output_consistent(),
    {
        match self.cur.item {
            PageItems::TimeZone => {
                if self.cur.tz_sel.val() > 0 {
                    self.cur.tz_sel = self.cur.tz_sel.prev();
                }
                self.update_output();
            },
            PageItems::Input => {},
            PageItems::Output => {},
            PageItems::OutputFormat => {},
        }
    }

    fn edit_start(&mut self)
        ensures
            *final(self) == (UnixTimePage {
                cur: CurrentStatus {
                    edit: (if old(self).cur.item is Input || old(self).cur.item is OutputFormat {
                        true
                    } else {
                        old(self).cur.edit
                    }),
                    ..old(self).cur
                },
                ..*old(self)
            }),
    {
        if !(matches!(self.cur.item, PageItems::Input | PageItems::OutputFormat)) {
            return ;
        }
        self.cur.edit = true;
    }

    fn edit_end(&mut self)
        ensures
            *final(self) == (UnixTimePage {
                cur: CurrentStatus {
                    edit: (if old(self).cur.item is Input || old(self).cur.item is OutputFormat {
                        false
                    } else {
                        old(self).cur.edit
                    }),
                    ..old(self).cur
                },
                ..*old(self)
            }),
    {
        if !(matches!(self.cur.item, PageItems::Input | PageItems::OutputFormat)) {
            return ;
        }
        self.cur.edit = false;
    }

    /// Forwards one key into the selected field and recomputes the output.
    fn edit(&mut self, key: KeyInput)
        requires
            old(self).wf(),
        ensures
            final(self).wf(),
            final(self).focused == old(self).focused,
            spec_unixtime_edit_outcome(*old(self), key, *final(self)),
    {
        match self.cur.item {
            PageItems::Input => {
                self.cur.input.handle_key(key);
            },
            PageItems::OutputFormat => {
                self.cur.output_format.handle_key(key);
            },
            _ => {},
        }
        self.update_output();
    }

    fn copy_to_clipboard(&self) -> (r: Option<Msg>)
        ensures
            self.cur.item is TimeZone ==> r is None,
            !(self.cur.item is TimeZone) ==> r is Some && (r matches Some(m) ==> m.is_notify()),
    {
        let text = match self.cur.item {
            PageItems::Input => self.cur.input.value(),
            PageItems::Output => self.cur.output.clone(),
            PageItems::OutputFormat => self.cur.output_format.value(),
            PageItems::TimeZone => {
                return None;
            },
        };
        util::copy_to_clipboard(text.as_str())
    }

    fn paste_from_clipboard(&mut self) -> (r: Option<Msg>)
        requires
            old(self).wf(),
        ensures
            final(self).wf(),
            final(self).focused == old(self).focused,
            final(self).cur.item == old(self).cur.item,
            r matches Some(m) ==> m is NotifyError,
            !(old(self).cur.item is Input || old(self).cur.item is OutputFormat) ==> *final(self)
                == *old(self) && r is None,
    {
        if !(matches!(self.cur.item, PageItems::Input | PageItems::OutputFormat)) {
            return None;
        }
        match util::paste_from_clipboard() {
            Some(text) => {
                match self.cur.item {
                    PageItems::Input => {
                        self.cur.input.set_value(text.as_str());
                    },
                    PageItems::OutputFormat => {
                        self.cur.output_format.set_value(text.as_str());
                    },
                    _ => {},
                }
                self.update_output();
                None
            },
            None => Some(Msg::NotifyError(String::from_str("Paste from clipboard failed"))),
        }
    }

    /// Recomputes the output and the status lines from the input, the zone
    /// and the format.
    fn update_output(&mut self)
        requires
            old(self).wf(),
        ensures
            final(self).wf(),
            final(self).focused == old(self).focused,
            final(self).cur.item == old(self).cur.item,
            final(self).cur.input == old(self).cur.input,
            final(self).cur.tz_sel == old(self).cur.tz_sel,
            final(self).cur.output_format == old(self).cur.output_format,
            final(self).cur.edit == old(self).cur.edit,
            final(self).output_consistent(),
    {
        let s = self.cur.input.value();
        if s.as_str().is_empty() {
            self.cur.output = String::new();
            self.cur.input_status = Status::Empty;
            return ;
        }
        match parse_as_unix_timestamp(s.as_str()) {
            Some(dt) => {
                let f = self.cur.output_format.value();
                if is_valid_datetime_format(f.as_str()) {
                    self.cur.output = match self.cur.tz_sel {
                        TimeZoneItemSelect::Utc => format_datetime_utc(
                            dt.secs,
                            dt.nanos,
                            f.as_str(),
                        ),
                        TimeZoneItemSelect::Local => format_datetime_local(
                            dt.secs,
                            dt.nanos,
                            f.as_str(),
                        ),
                    };
                    self.cur.output_format_status = Status::Empty;
                } else {
                    self.cur.output = String::new();
                    self.cur.output_format_status = Status::Warn(
                        String::from_str("invalid format"),
                    );
                }
                let mut m = String::from_str("valid unix timestamp (");
                m.append(dt.resolution.str());
                m.append(")");
                self.cur.input_status = Status::Info(m);
            },
            None => {
                match parse_as_datetime(s.as_str()) {
                    Some(dt) => {
                        self.cur.output = format_dec_i64(dt.0);
                        self.cur.input_status = Status::Info(String::from_str("valid datetime"));
                    },
                    None => {
                        self.cur.output = String::new();
                        self.cur.input_status = Status::Warn(String::from_str("invalid input"));
                    },
                }
            },
        }
    }
}

/// What one forwarded key does: it lands in the selected field's buffer,
/// exactly as the text buffer's editing step describes, the other field is
/// untouched, and the output is recomputed from the new state.
pub open spec fn spec_unixtime_edit_outcome(
    pre: UnixTimePage,
    key: KeyInput,
    post: UnixTimePage,
) -> bool {
    &&& post.cur.item == pre.cur.item
    &&& post.cur.edit == pre.cur.edit
    &&& post.cur.tz_sel == pre.cur.tz_sel
    &&& (pre.cur.item is Input ==> (post.cur.input.chars@, post.cur.input.cursor as int)
        == InputBuffer::spec_edit(pre.cur.input.chars@, pre.cur.input.cursor as int, key)
        && post.cur.output_format == pre.cur.output_format)
    &&& (pre.cur.item is OutputFormat ==> (
    post.cur.output_format.chars@,
    post.cur.output_format.cursor as int,
    ) == InputBuffer::spec_edit(
        pre.cur.output_format.chars@,
        pre.cur.output_format.cursor as int,
        key,
    ) && post.cur.input == pre.cur.input)
    &&& (!(pre.cur.item is Input || pre.cur.item is OutputFormat) ==> post.cur.input
        == pre.cur.input && post.cur.output_format == pre.cur.output_format)
    &&& post.output_consistent()
}

/// One dispatch step of the page: the relation between the state before,
/// the message, the state after, and the follow-up message.
pub open spec fn spec_unixtime_step(
    pre: UnixTimePage,
    msg: UnixTimeMsg,
    post: UnixTimePage,
    r: Option<Msg>,
) -> bool {
    &&& post.focused == pre.focused
    &&& (r matches Some(m) ==> m.is_notify())
    &&& match msg {
        UnixTimeMsg::SelectNextItem => r is None && post == (UnixTimePage {
            cur: CurrentStatus { item: pre.cur.item.spec_next(), ..pre.cur },
            ..pre
        }),
        UnixTimeMsg::SelectPrevItem => r is None && post == (UnixTimePage {
            cur: CurrentStatus { item: pre.cur.item.spec_prev(), ..pre.cur },
            ..pre
        }),
        UnixTimeMsg::CurrentItemSelectNext => r is None && post.cur.item == pre.cur.item
            && post.cur.input == pre.cur.input && (pre.cur.item is TimeZone ==> post.cur.tz_sel
            is Local && post.output_consistent()) && (!(pre.cur.item is TimeZone) ==> post
            == pre),
        UnixTimeMsg::CurrentItemSelectPrev => r is None && post.cur.item == pre.cur.item
            && post.cur.input == pre.cur.input && (pre.cur.item is TimeZone ==> post.cur.tz_sel
            is Utc && post.output_consistent()) && (!(pre.cur.item is TimeZone) ==> post == pre),
        UnixTimeMsg::EditStart => r is None && post == (UnixTimePage {
            cur: CurrentStatus {
                edit: (if pre.cur.item is Input || pre.cur.item is OutputFormat {
                    true
                } else {
                    pre.cur.edit
                }),
                ..pre.cur
            },
            ..pre
        }),
        UnixTimeMsg::EditEnd => r is None && post == (UnixTimePage {
            cur: CurrentStatus {
                edit: (if pre.cur.item is Input || pre.cur.item is OutputFormat {
                    false
                } else {
                    pre.cur.edit
                }),
                ..pre.cur
            },
            ..pre
        }),
        UnixTimeMsg::EditKeyEvent(k) => r is None && spec_unixtime_edit_outcome(pre, k, post),
        UnixTimeMsg::Copy => post == pre && (pre.cur.item is TimeZone ==> r is None) && (!(
        pre.cur.item is TimeZone) ==> r is Some),
        UnixTimeMsg::Paste => post.cur.item == pre.cur.item && (r matches Some(m) ==> m
            is NotifyError) && (!(pre.cur.item is Input || pre.cur.item is OutputFormat) ==> post
            == pre && r is None),
    }
}

/// The message one key press maps to, by the edit sub-state.
pub open spec fn spec_unixtime_key_msg(edit: bool, key: KeyInput) -> Option<Msg> {
    if edit {
        match key {
            KeyInput::Esc => Some(Msg::Page(PageMsg::UnixTime(UnixTimeMsg::EditEnd))),
            _ => Some(Msg::Page(PageMsg::UnixTime(UnixTimeMsg::EditKeyEvent(key)))),
        }
    } else {
        match key {
            KeyInput::Esc => Some(Msg::Quit),
            KeyInput::CtrlChar('n') => Some(
                Msg::Page(PageMsg::UnixTime(UnixTimeMsg::SelectNextItem)),
            ),
            KeyInput::CtrlChar('p') => Some(
                Msg::Page(PageMsg::UnixTime(UnixTimeMsg::SelectPrevItem)),
            ),
            KeyInput::Char('l') | KeyInput::Right => Some(
                Msg::Page(PageMsg::UnixTime(UnixTimeMsg::CurrentItemSelectNext)),
            ),
            KeyInput::Char('h') | KeyInput::Left => Some(
                Msg::Page(PageMsg::UnixTime(UnixTimeMsg::CurrentItemSelectPrev)),
            ),
            KeyInput::Char('y') => Some(Msg::Page(PageMsg::UnixTime(UnixTimeMsg::Copy))),
            KeyInput::Char('p') => Some(Msg::Page(PageMsg::UnixTime(UnixTimeMsg::Paste))),
            KeyInput::Char('e') => Some(Msg::Page(PageMsg::UnixTime(UnixTimeMsg::EditStart))),
            _ => None,
        }
    }
}

/// The hint strings the page offers, by the edit sub-state and the
/// selected field.
pub open spec fn spec_unixtime_helps(edit: bool, item: PageItems) -> Seq<Seq<char>> {
    if edit {
        seq!["<Esc> End edit"@]
    } else {
        match item {
            PageItems::TimeZone => seq![
                "<C-n/C-p> Select item"@,
                "<Left/Right> Select current item value"@,
            ],
            PageItems::Input | PageItems::OutputFormat => seq![
                "<C-n/C-p> Select item"@,
                "<e> Edit"@,
                "<y> Copy to clipboard"@,
                "<p> Paste from clipboard"@,
            ],
            PageItems::Output => seq!["<C-n/C-p> Select item"@, "<y> Copy to clipboard"@],
        }
    }
}

} // verus!
