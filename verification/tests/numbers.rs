use tuitools::key::KeyInput;
use tuitools::msg::NumberBaseMsg;
use tuitools::numfmt::{format_dec_i64, format_radix_u128, parse_radix_u128};
use tuitools::pages::number::NumberBasePage;
use tuitools::textbuf::InputBuffer;

#[test]
fn parse_radix_exact_values() {
    assert_eq!(parse_radix_u128("101", 2), Some(5));
    assert_eq!(parse_radix_u128("777", 8), Some(511));
    assert_eq!(parse_radix_u128("255", 10), Some(255));
    assert_eq!(parse_radix_u128("ff", 16), Some(255));
    assert_eq!(parse_radix_u128("FF", 16), Some(255));
    assert_eq!(parse_radix_u128("+42", 10), Some(42));
}

#[test]
fn parse_radix_rejects_bad_input() {
    assert_eq!(parse_radix_u128("", 10), None);
    assert_eq!(parse_radix_u128("+", 10), None);
    assert_eq!(parse_radix_u128("-1", 10), None);
    assert_eq!(parse_radix_u128("2", 2), None);
    assert_eq!(parse_radix_u128("g", 16), None);
    assert_eq!(parse_radix_u128("12 3", 10), None);
}

#[test]
fn parse_radix_matches_standard_parser() {
    for s in ["0", "1", "170141183460469231731687303715884105727", "+007"] {
        assert_eq!(parse_radix_u128(s, 10), u128::from_str_radix(s, 10).ok());
    }
    // one digit past the maximum overflows
    assert_eq!(parse_radix_u128("340282366920938463463374607431768211456", 10), None);
}

#[test]
fn format_radix_exact_values() {
    assert_eq!(format_radix_u128(5, 2), "101");
    assert_eq!(format_radix_u128(511, 8), "777");
    assert_eq!(format_radix_u128(255, 10), "255");
    assert_eq!(format_radix_u128(255, 16), "ff");
    assert_eq!(format_radix_u128(0, 16), "0");
    assert_eq!(format_radix_u128(u128::MAX, 16), format!("{:x}", u128::MAX));
}

#[test]
fn format_dec_i64_signed() {
    assert_eq!(format_dec_i64(0), "0");
    assert_eq!(format_dec_i64(1634567890), "1634567890");
    assert_eq!(format_dec_i64(-42), "-42");
    assert_eq!(format_dec_i64(i64::MIN), i64::MIN.to_string());
}

fn type_into(page: &mut NumberBasePage, text: &str) {
    page.update(NumberBaseMsg::EditStart);
    for c in text.chars() {
        page.update(NumberBaseMsg::EditKeyEvent(KeyInput::Char(c)));
    }
    page.update(NumberBaseMsg::EditEnd);
}

#[test]
fn editing_binary_converts_all_fields() {
    let mut page = NumberBasePage::new(true);
    type_into(&mut page, "1010");
    assert_eq!(page.cur.binary_input.value(), "1010");
    assert_eq!(page.cur.octal_input.value(), "12");
    assert_eq!(page.cur.decimal_input.value(), "10");
    assert_eq!(page.cur.hex_input.value(), "a");
    assert_eq!(page.cur.binary_status, "");
}

#[test]
fn invalid_digit_sets_status_only() {
    let mut page = NumberBasePage::new(true);
    type_into(&mut page, "12");
    assert_eq!(page.cur.binary_status, "Invalid binary number");
    // the other fields and their status lines keep what they held
    assert_eq!(page.cur.decimal_input.value(), "1");
    assert_eq!(page.cur.octal_status, "");
    assert_eq!(page.cur.decimal_status, "");
    assert_eq!(page.cur.hex_status, "");
}

#[test]
fn hex_case_switch_raises_digits() {
    let mut page = NumberBasePage::new(true);
    // select the hexadecimal field (three steps down from binary)
    page.update(NumberBaseMsg::SelectNextItem);
    page.update(NumberBaseMsg::SelectNextItem);
    page.update(NumberBaseMsg::SelectNextItem);
    type_into(&mut page, "ab");
    assert_eq!(page.cur.hex_input.value(), "ab");
    // move to the case selector and raise the case
    page.update(NumberBaseMsg::SelectNextItem);
    page.update(NumberBaseMsg::CurrentItemSelectNext);
    assert_eq!(page.cur.hex_input.value(), "AB");
    page.update(NumberBaseMsg::CurrentItemSelectPrev);
    assert_eq!(page.cur.hex_input.value(), "ab");
}

#[test]
fn item_cursor_wraps_around() {
    let mut page = NumberBasePage::new(true);
    for _ in 0..5 {
        page.update(NumberBaseMsg::SelectNextItem);
    }
    // five steps return to the first field
    type_into(&mut page, "1");
    assert_eq!(page.cur.binary_input.value(), "1");
}

#[test]
fn input_buffer_editing() {
    let mut buf = InputBuffer::new();
    buf.handle_key(KeyInput::Char('a'));
    buf.handle_key(KeyInput::Char('c'));
    buf.handle_key(KeyInput::Left);
    buf.handle_key(KeyInput::Char('b'));
    assert_eq!(buf.value(), "abc");
    buf.handle_key(KeyInput::Backspace);
    assert_eq!(buf.value(), "ac");
    buf.handle_key(KeyInput::Home);
    buf.handle_key(KeyInput::Delete);
    assert_eq!(buf.value(), "c");
    buf.handle_key(KeyInput::End);
    buf.handle_key(KeyInput::Char('z'));
    assert_eq!(buf.value(), "cz");
}
