use flashnx::base64::base64_decode;
use flashnx::digits;
use flashnx::net;
use flashnx::parts;
use flashnx::text;

#[test]
fn trimming_is_by_unicode_white_space() {
    assert_eq!(text::trim("  a b\t\n"), "a b");
    assert_eq!(text::trim("\u{3000}x\u{00a0}"), "x");
    assert_eq!(text::trim("   "), "");
    assert_eq!(text::trim_front("  a "), "a ");
    assert_eq!(text::trim_back("  a "), "  a");
}

#[test]
fn finding_counts_characters() {
    assert_eq!(text::find("h\u{e9}llo", "llo"), Some(2));
    assert_eq!(text::find("abc", "d"), None);
    assert_eq!(text::find("abc", ""), Some(0));
    assert!(text::contains("abc", "bc"));
    assert!(text::starts_with("abc", "ab"));
    assert!(!text::starts_with("ab", "abc"));
    assert!(text::ends_with("abc", "bc"));
    assert!(text::ends_with("abc", ""));
}

#[test]
fn splitting_and_joining_undo_each_other() {
    let p = parts::split("a/b//c", '/');
    assert_eq!(p, vec!["a", "b", "", "c"]);
    assert_eq!(parts::join(&p, "/"), "a/b//c");
    assert_eq!(parts::split("", '/'), vec![""]);
    assert_eq!(parts::split_words(" a  b\tc "), vec!["a", "b", "c"]);
    assert_eq!(parts::join(&Vec::new(), ", "), "");
}

#[test]
fn parts_of_an_address() {
    assert_eq!(parts::head_before("a?b#c", '?', '#'), "a");
    assert_eq!(parts::head_before("abc", '?', '#'), "abc");
    assert_eq!(parts::tail_after("a/b\\c", '/', '\\'), "c");
    assert_eq!(parts::tail_after("abc", '/', '\\'), "abc");
    assert_eq!(parts::strip_prefix("https://x", "https://"), Some("x".to_string()));
    assert_eq!(parts::strip_prefix("x", "https://"), None);
    assert_eq!(parts::trim_trailing("a//", '/'), "a");
    assert_eq!(
        parts::split_once("k=v=w", "="),
        Some(("k".to_string(), "v=w".to_string()))
    );
    assert_eq!(parts::split_once("kv", "="), None);
}

#[test]
fn replacing_goes_from_left_to_right() {
    assert_eq!(parts::replace("{} and {}", "{}", "x"), "x and x");
    assert_eq!(parts::replace("aaa", "aa", "b"), "ba");
    assert_eq!(parts::replace("abc", "d", "x"), "abc");
    assert_eq!(parts::swap_either("a_b-c", '_', '-', ' '), "a b c");
}

#[test]
fn numbers_in_digits() {
    assert_eq!(digits::dec(0), "0");
    assert_eq!(digits::dec(18446744073709551615), "18446744073709551615");
    assert_eq!(digits::dec_padded(7, 4), "0007");
    assert_eq!(digits::hex_padded(0xbeef, 8), "0000beef");
    assert_eq!(digits::parse("255", 255), Some(255));
    assert_eq!(digits::parse("256", 255), None);
    assert_eq!(digits::parse("+7", 255), Some(7));
    assert_eq!(digits::parse("", 255), None);
    assert_eq!(digits::parse("-1", 255), None);
    assert_eq!(digits::parse("18446744073709551616", u64::MAX), None);
}

#[test]
fn base64_skips_line_breaks_and_stops_at_the_padding() {
    assert_eq!(base64_decode("aGVs\nbG8="), b"hello".to_vec());
    assert_eq!(base64_decode("aGk="), b"hi".to_vec());
    assert_eq!(base64_decode("aGk=aGk="), b"hi".to_vec());
    assert_eq!(base64_decode(""), Vec::<u8>::new());
}

#[test]
fn paths_are_percent_encoded_byte_by_byte() {
    assert_eq!(net::url_encode_path("a b/c.swf"), "a%20b%2Fc.swf");
    assert_eq!(net::url_encode_path("\u{e9}"), "%C3%A9");
    assert_eq!(net::url_encode_path("#?"), "%23%3F");
}

#[test]
fn item_of_an_address() {
    assert_eq!(
        net::extract_item_id("https://archive.org/details/my-item"),
        Some("my-item".to_string())
    );
    assert_eq!(
        net::extract_item_id("https://archive.org/download/my-item/a.swf"),
        Some("my-item".to_string())
    );
    assert_eq!(net::extract_item_id("   "), None);
}

#[test]
fn typed_texts_end_at_the_first_zero() {
    assert_eq!(net::typed(0, b"abc\0def".to_vec()), Some("abc".to_string()));
    assert_eq!(net::typed(1, b"abc\0".to_vec()), None);
    assert_eq!(net::typed(0, vec![0xff, 0xfe, 0]), None);
}
