use tuitools::msg::{Base64Msg, HashMsg, UrlMsg};
use tuitools::pages::base64::{calculate_base64, Base64Page, EncodeOrDecodeSelect};
use tuitools::pages::hash::{calculate_hash, AlgoItemSelect, HashPage};
use tuitools::pages::ulid::{parse_ulid_lines, UlidPage};
use tuitools::pages::url::{calculate_url, percent_encode_fragment, CharsetSelect, InputStatus};
use tuitools::pages::url::EncodeOrDecodeSelect as UrlEncodeOrDecode;
use tuitools::pages::uuid::{parse_uuid_lines, UuidPage};
use tuitools::msg::{UlidMsg, UuidMsg};

#[test]
fn base64_encode_known_values() {
    assert_eq!(calculate_base64("", EncodeOrDecodeSelect::Encode), "");
    assert_eq!(calculate_base64("Hello", EncodeOrDecodeSelect::Encode), "SGVsbG8=");
    assert_eq!(calculate_base64("fo", EncodeOrDecodeSelect::Encode), "Zm8=");
}

#[test]
fn base64_decode_round_trip() {
    assert_eq!(calculate_base64("SGVsbG8=", EncodeOrDecodeSelect::Decode), "Hello");
    assert_eq!(calculate_base64("not base64!", EncodeOrDecodeSelect::Decode), "Invalid Base64");
}

#[test]
fn base64_page_recomputes_on_direction_change() {
    let mut page = Base64Page::new(true);
    assert_eq!(page.cur.output, "");
    // flip to decode: the empty input still decodes to the empty string
    page.update(Base64Msg::CurrentItemSelectNext);
    assert!(matches!(page.cur.eod_sel, EncodeOrDecodeSelect::Decode));
    assert_eq!(page.cur.output, "");
}

#[test]
fn hash_known_digests() {
    assert_eq!(
        calculate_hash("abc", AlgoItemSelect::Md5),
        "900150983cd24fb0d6963f7d28e17f72"
    );
    assert_eq!(
        calculate_hash("abc", AlgoItemSelect::Sha1),
        "a9993e364706816aba3e25717850c26c9cd0d89d"
    );
    assert_eq!(
        calculate_hash("abc", AlgoItemSelect::Sha256),
        "ba7816bf8f01cfea414140de5dae2223b00361a396177a9cb410ff61f20015ad"
    );
    assert_eq!(
        calculate_hash("", AlgoItemSelect::Sha224),
        "d14a028c2a3a2bc9476102bb288234c415a2b01f828ea62ac5b3e42f"
    );
    assert_eq!(
        calculate_hash("abc", AlgoItemSelect::Sha384),
        "cb00753f45a35e8bb5a03d699ac65007272c32ab0eded1631a8b605a43ff5bed8086072ba1e7cc2358baeca134c825a7"
    );
    assert_eq!(
        calculate_hash("abc", AlgoItemSelect::Sha512),
        "ddaf35a193617abacc417349ae20413112e6fa4e89a97ea20a9eeee64b55d39a2192992a274fc1a836ba3c23a3feebbd454d4423643ce80e2a9ac94fa54ca49f"
    );
    assert_eq!(
        calculate_hash("abc", AlgoItemSelect::Sha512_224),
        "4634270f707b6a54daae7530460842e20e37ed265ceee9a43e8924aa"
    );
    assert_eq!(
        calculate_hash("abc", AlgoItemSelect::Sha512_256),
        "53048e2681941ef99b2e29b76b4c7dabe4c2d0c634fc6d46e0e2f13107e7af23"
    );
}

#[test]
fn hash_algo_selector_saturates() {
    let mut page = HashPage::new(true);
    // the algorithm selector stops at the first entry
    page.update(HashMsg::CurrentItemSelectPrev);
    assert!(matches!(page.cur.algo_sel, AlgoItemSelect::Md5));
    page.update(HashMsg::CurrentItemSelectNext);
    assert!(matches!(page.cur.algo_sel, AlgoItemSelect::Sha1));
    // the output follows the algorithm eagerly
    assert_eq!(page.cur.output, calculate_hash("", AlgoItemSelect::Sha1));
}

#[test]
fn url_encode_fragment_set() {
    assert_eq!(percent_encode_fragment("hello"), "hello");
    assert_eq!(percent_encode_fragment("a b"), "a%20b");
    assert_eq!(percent_encode_fragment("<x>\"`"), "%3Cx%3E%22%60");
    assert_eq!(percent_encode_fragment("snowman\u{2603}"), "snowman%E2%98%83");
    // question marks and slashes stay as they are in a fragment
    assert_eq!(percent_encode_fragment("a/b?c"), "a/b?c");
}

#[test]
fn url_decode_and_errors() {
    let (out, status) = calculate_url("a%20b", UrlEncodeOrDecode::Decode, CharsetSelect::Utf8);
    assert_eq!(out, "a b");
    assert!(matches!(status, InputStatus::Empty));
    let (out, status) = calculate_url("%FF", UrlEncodeOrDecode::Decode, CharsetSelect::Utf8);
    assert_eq!(out, "");
    assert!(matches!(status, InputStatus::Warn(s) if s == "invalid UTF-8 sequence"));
    // a stray percent sign passes through untouched
    let (out, _) = calculate_url("100%", UrlEncodeOrDecode::Decode, CharsetSelect::Utf8);
    assert_eq!(out, "100%");
}

#[test]
fn url_page_item_cursor() {
    let mut page = tuitools::pages::url::UrlPage::new(true);
    page.update(UrlMsg::SelectNextItem);
    page.update(UrlMsg::SelectNextItem);
    page.update(UrlMsg::SelectNextItem);
    page.update(UrlMsg::SelectNextItem);
    // four steps wrap back to the direction selector
    page.update(UrlMsg::CurrentItemSelectNext);
    assert!(matches!(page.cur.eod_sel, UrlEncodeOrDecode::Decode));
}

#[test]
fn uuid_generate_and_format() {
    let mut page = UuidPage::new(true);
    page.update(UuidMsg::Generate);
    assert_eq!(page.ids.len(), 1);
    let text = page.format_uuid(page.ids[0]);
    assert_eq!(text.len(), 36);
    // version 4 shows in the third group
    assert_eq!(text.as_bytes()[14], b'4');
    let parsed = uuid::Uuid::parse_str(&text).unwrap();
    assert_eq!(parsed.as_u128(), page.ids[0]);
}

#[test]
fn uuid_format_options() {
    let page = UuidPage::new(true);
    let id = 0x00112233_4455_6677_8899_aabbccddeeffu128;
    assert_eq!(page.format_uuid(id), "00112233-4455-6677-8899-aabbccddeeff");
    let mut page = page;
    page.update(UuidMsg::CurrentItemSelectNext);
    assert_eq!(page.format_uuid(id), "00112233445566778899aabbccddeeff");
    page.update(UuidMsg::SelectNextItem);
    page.update(UuidMsg::CurrentItemSelectNext);
    assert_eq!(page.format_uuid(id), "00112233445566778899AABBCCDDEEFF");
}

#[test]
fn uuid_count_clamps() {
    let mut page = UuidPage::new(true);
    // move to the count field: Hyphen -> Case -> Version -> Count
    page.update(UuidMsg::SelectNextItem);
    page.update(UuidMsg::SelectNextItem);
    page.update(UuidMsg::SelectNextItem);
    page.update(UuidMsg::CurrentItemSelectPrev);
    assert_eq!(page.cur.count, 1);
    for _ in 0..150 {
        page.update(UuidMsg::CurrentItemSelectNext);
    }
    assert_eq!(page.cur.count, 100);
    page.update(UuidMsg::Generate);
    assert_eq!(page.ids.len(), 100);
}

#[test]
fn uuid_parse_lines_counts_failures() {
    let text = "00112233-4455-6677-8899-aabbccddeeff\nnot a uuid\n00112233445566778899AABBCCDDEEFF";
    let (ids, failures) = parse_uuid_lines(text);
    assert_eq!(ids.len(), 2);
    assert_eq!(failures, 1);
    assert_eq!(ids[0], 0x00112233_4455_6677_8899_aabbccddeeffu128);
    assert_eq!(ids[0], ids[1]);
}

#[test]
fn ulid_generate_and_format() {
    let mut page = UlidPage::new(true);
    page.update(UlidMsg::Generate);
    assert_eq!(page.ids.len(), 1);
    let text = page.format_ulid(page.ids[0]);
    assert_eq!(text.len(), 26);
    let parsed = ulid::Ulid::from_string(&text).unwrap();
    assert_eq!(parsed.0, page.ids[0]);
}

#[test]
fn ulid_format_case() {
    let mut page = UlidPage::new(true);
    let id = 1u128;
    assert_eq!(page.format_ulid(id), "00000000000000000000000001");
    page.update(UlidMsg::CurrentItemSelectNext);
    let lowered = page.format_ulid(0x41u128);
    assert_eq!(lowered, lowered.to_lowercase());
    // the canonical text of the same value, by the identifier crate itself
    assert_eq!(page.format_ulid(id), ulid::Ulid(id).to_string().to_lowercase());
}

#[test]
fn ulid_parse_lines_counts_failures() {
    let good = ulid::Ulid(77).to_string();
    let text = format!("{good}\nbogus line");
    let (ids, failures) = parse_ulid_lines(&text);
    assert_eq!(ids, vec![77u128]);
    assert_eq!(failures, 1);
}

#[test]
fn uuid_selectors_saturate() {
    let mut page = UuidPage::new(true);
    // hyphen selector moves forward once and then stops
    page.update(UuidMsg::CurrentItemSelectNext);
    assert!(matches!(page.cur.hyphen_sel, tuitools::pages::uuid::HyphenItemSelect::WithoutHyphen));
    page.update(UuidMsg::CurrentItemSelectNext);
    assert!(matches!(page.cur.hyphen_sel, tuitools::pages::uuid::HyphenItemSelect::WithoutHyphen));
    page.update(UuidMsg::CurrentItemSelectPrev);
    assert!(matches!(page.cur.hyphen_sel, tuitools::pages::uuid::HyphenItemSelect::WithHyphen));
    // the case selector on the next field moves the same way
    page.update(UuidMsg::SelectNextItem);
    page.update(UuidMsg::CurrentItemSelectNext);
    assert!(matches!(page.cur.case_sel, tuitools::pages::uuid::CaseItemSelect::Uppercase));
    page.update(UuidMsg::CurrentItemSelectPrev);
    page.update(UuidMsg::CurrentItemSelectPrev);
    assert!(matches!(page.cur.case_sel, tuitools::pages::uuid::CaseItemSelect::Lowercase));
}
