//! Text, numbers, fractions and fields.

use mdoctor::base64::base64_encode;
use mdoctor::fields::FieldMap;
use mdoctor::number::{fixed_text, millis_text, num, parse_i64, parse_u16, parse_u64};
use mdoctor::paths::{file_name, file_stem, join_path};
use mdoctor::ratio::{Ratio, MAX_NUMERATOR};
use mdoctor::text::{
    contains, eq_ignore_ascii_case, join, lines, split_once, split_whitespace, strip_prefix, trim,
};

#[test]
fn texts_are_taken_apart() {
    assert_eq!(trim("\t a b \u{a0}\n"), "a b");
    assert_eq!(lines("a\r\nb\n\nc"), vec!["a", "b", "", "c"]);
    assert_eq!(lines("a\n"), vec!["a"]);
    assert_eq!(split_whitespace("  a \t b\n"), vec!["a", "b"]);
    assert_eq!(split_once("k: v: w", ": "), Some(("k".to_string(), "v: w".to_string())));
    assert_eq!(split_once("k", ":"), None);
    assert_eq!(strip_prefix("$5", "$").as_deref(), Some("5"));
    assert!(contains("abc", "") && contains("abc", "bc") && !contains("abc", "ac"));
    assert!(eq_ignore_ascii_case("FaLse", "false") && !eq_ignore_ascii_case("a", "ab"));
    assert_eq!(join(&vec!["a".to_string(), "b".to_string()], ", "), "a, b");
}

#[test]
fn numbers_are_read_and_written() {
    assert_eq!(num(0), "0");
    assert_eq!(num(u64::MAX), "18446744073709551615");
    assert_eq!(parse_u64("18446744073709551615"), Some(u64::MAX));
    assert_eq!(parse_u64("18446744073709551616"), None);
    assert_eq!(parse_u64("+7"), Some(7));
    assert_eq!(parse_u64("-7"), None);
    assert_eq!(parse_u64(""), None);
    assert_eq!(parse_u16("65535"), Some(65535));
    assert_eq!(parse_u16("65536"), None);
    assert_eq!(parse_i64("-12"), Some(-12));
    assert_eq!(fixed_text(1, 3, 2), "0.33");
    assert_eq!(fixed_text(5, 2, 0), "2");
    assert_eq!(fixed_text(7, 2, 0), "4");
    assert_eq!(millis_text(1_850_000_000_000, 0), "1850");
}

#[test]
fn fractions_are_exact() {
    assert!(Ratio::new(1, 0).is_none());
    assert_eq!(Ratio::percent(48, 50).unwrap().fixed_text(1), "96.0");
    assert_eq!(Ratio::parse("1.45").unwrap().fixed_text(2), "1.45");
    assert!(Ratio::parse("x").is_none());
    assert_eq!(Ratio::parse("145e-2").unwrap().parts(), (145, 100));
    assert_eq!(Ratio::parse("+1.5E+3").unwrap().parts(), (1500, 1));
    assert_eq!(Ratio::parse("1.").unwrap().parts(), (1, 1));
    assert_eq!(Ratio::parse(".5").unwrap().parts(), (5, 10));
    assert_eq!(Ratio::parse("1.0512345678901234567").unwrap().fixed_text(2), "1.05");
    assert_eq!(
        Ratio::parse("1.0512345678901234567").unwrap().parts(),
        (1_051_234_567_890_123, 1_000_000_000_000_000)
    );
    assert_eq!(Ratio::parse("1e-99999999999999999999999999999999999999999").unwrap().parts().0, 0);
    assert_eq!(Ratio::parse("0e99999").unwrap().parts(), (0, 1));
    let great = Ratio::parse("1e40").unwrap();
    assert_eq!(great.parts(), (MAX_NUMERATOR, 1));
    assert_eq!(Ratio::parse("2e99999999999999999999999999999999999999999").unwrap(), great);
    for bad in ["", "+", ".", "e5", "1e", "1e+", "1e5x", "1.2.3", "-1", "inf", "nan", "1 "] {
        assert!(Ratio::parse(bad).is_none(), "{}", bad);
    }
    assert_eq!(great.times(3), great);
    assert_eq!(Ratio::new(3, 2).unwrap().times(4).parts(), (12, 2));
    assert!(Ratio::new(9, 10).unwrap().exceeds(8, 10));
    assert!(!Ratio::new(8, 10).unwrap().exceeds(8, 10));
    assert!(Ratio::new(7, 10).unwrap().below(8, 10));
}

#[test]
fn paths_are_text() {
    assert_eq!(join_path("/srv/shop", "app/etc/env.php"), "/srv/shop/app/etc/env.php");
    assert_eq!(join_path("/", "a"), "/a");
    assert_eq!(file_name("/a/b.xml/").as_deref(), Some("b.xml"));
    assert_eq!(file_stem("/a/b.tar.gz").as_deref(), Some("b.tar"));
    assert_eq!(file_stem("/a/.hidden").as_deref(), Some(".hidden"));
    assert_eq!(file_stem("..").as_deref(), None);
}

#[test]
fn a_later_field_replaces_an_earlier_one() {
    let mut map = FieldMap::new();
    map.insert("k".to_string(), "1".to_string());
    map.insert("k".to_string(), "2".to_string());
    assert_eq!(map.get("k"), Some("2"));
    assert_eq!(map.number("k"), Some(2));
    assert_eq!(map.get("K"), None);
}

#[test]
fn base64_differs_for_different_credentials() {
    assert_eq!(base64_encode(b""), "");
    assert_ne!(base64_encode(b"a:b"), base64_encode(b"a:c"));
    assert_eq!(base64_encode(&[0xfb, 0xff]), "+/8=");
}
