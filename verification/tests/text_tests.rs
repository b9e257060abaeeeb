use trackfetch::fields::{lookup, Field};
use trackfetch::text::{
    after_marker, contains, find, joined, matches_at, push_decimal, push_signed_decimal,
    same_text, starts_with, to_chars, to_text,
};

fn field(name: &str, value: &str) -> Field {
    Field { name: name.to_string(), value: value.to_string() }
}

#[test]
fn to_chars_keeps_every_character_in_order() {
    assert_eq!(to_chars("héllo"), vec!['h', 'é', 'l', 'l', 'o']);
    assert_eq!(to_chars(""), Vec::<char>::new());
}

#[test]
fn to_text_takes_the_named_range() {
    let chars = to_chars("abcdef");
    assert_eq!(to_text(&chars, 1, 4), "bcd");
    assert_eq!(to_text(&chars, 0, 6), "abcdef");
    assert_eq!(to_text(&chars, 3, 3), "");
}

#[test]
fn matches_at_checks_one_place() {
    let text = to_chars("xxhttp://a");
    let pattern = to_chars("http://");
    assert!(matches_at(&text, 2, &pattern));
    assert!(!matches_at(&text, 0, &pattern));
    assert!(!matches_at(&text, 3, &pattern));
    assert!(!matches_at(&text, 9, &pattern));
    assert!(!matches_at(&text, 100, &pattern));
    assert!(matches_at(&text, 10, &to_chars("")));
}

#[test]
fn find_gives_the_leftmost_place() {
    let text = to_chars("abcabc");
    assert_eq!(find(&text, &to_chars("bc")), Some(1));
    assert_eq!(find(&text, &to_chars("abc")), Some(0));
    assert_eq!(find(&text, &to_chars("cab")), Some(2));
    assert_eq!(find(&text, &to_chars("abcd")), None);
    assert_eq!(find(&text, &to_chars("abcabcabc")), None);
    assert_eq!(find(&text, &to_chars("")), Some(0));
    assert_eq!(find(&to_chars(""), &to_chars("")), Some(0));
}

#[test]
fn contains_and_starts_with_agree_with_std() {
    let samples = ["mp3_128", "hq_mp3", "opus_0_0", "aac_160k", "", "mp", "xmp3x"];
    for sample in samples {
        assert_eq!(contains(sample, "mp3"), sample.contains("mp3"));
        assert_eq!(starts_with(sample, "mp3"), sample.starts_with("mp3"));
    }
}

#[test]
fn same_text_compares_all_characters() {
    assert!(same_text("oauth_token", "oauth_token"));
    assert!(!same_text("oauth_token", "oauth_tokens"));
    assert!(!same_text("oauth_token", "Oauth_token"));
    assert!(same_text("", ""));
    assert!(!same_text("", "a"));
}

#[test]
fn after_marker_takes_the_rest_behind_the_first_marker() {
    assert_eq!(after_marker("a=1; b=2; b=3", "b="), "2; b=3");
    assert_eq!(after_marker("a=1", "b="), "");
    assert_eq!(after_marker("b=", "b="), "");
    assert_eq!(after_marker("", "b="), "");
}

#[test]
fn joined_appends_the_second_text() {
    assert_eq!(joined("File not found: ", "/tmp/a.mp3"), "File not found: /tmp/a.mp3");
    assert_eq!(joined("", ""), "");
}

#[test]
fn push_decimal_writes_without_leading_zeros() {
    let cases: [(u64, &str); 6] = [
        (0, "0"),
        (7, "7"),
        (10, "10"),
        (404, "404"),
        (65535, "65535"),
        (18446744073709551615, "18446744073709551615"),
    ];
    for (number, text) in cases {
        let mut out = String::from("n=");
        push_decimal(&mut out, number);
        assert_eq!(out, format!("n={}", text));
    }
}

#[test]
fn push_signed_decimal_writes_the_sign() {
    let cases: [(i32, &str); 6] = [
        (0, "0"),
        (1, "1"),
        (-1, "-1"),
        (255, "255"),
        (i32::MAX, "2147483647"),
        (i32::MIN, "-2147483648"),
    ];
    for (number, text) in cases {
        let mut out = String::new();
        push_signed_decimal(&mut out, number);
        assert_eq!(out, text);
    }
}

#[test]
fn lookup_gives_the_first_value_by_that_name() {
    let fields = vec![field("a", "1"), field("b", "2"), field("a", "3")];
    assert_eq!(lookup(&fields, "a"), Some("1".to_string()));
    assert_eq!(lookup(&fields, "b"), Some("2".to_string()));
    assert_eq!(lookup(&fields, "c"), None);
    assert_eq!(lookup(&fields, "A"), None);
    assert_eq!(lookup(&Vec::new(), "a"), None);
}
