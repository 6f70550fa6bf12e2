use a2a_rs::text::{
    byte_length, chars_of, contains, contains_char, find, join, matches_at, owned, same_text,
    split_ranges, starts_with, with_prefix,
};

fn chars(s: &str) -> Vec<char> {
    s.chars().collect()
}

#[test]
fn characters_and_bytes() {
    assert_eq!(chars_of("h\u{e9}llo"), chars("h\u{e9}llo"));
    assert_eq!(chars_of(""), Vec::<char>::new());
    assert_eq!(byte_length("h\u{e9}llo"), 6);
    assert_eq!(byte_length(""), 0);
    assert!(same_text("abc", "abc"));
    assert!(!same_text("abc", "abd"));
    assert!(!same_text("abc", "ab"));
    assert!(same_text("", ""));
}

#[test]
fn searching() {
    let s = chars("https://example.com/.well-known/x");
    assert!(starts_with(&s, "https://"));
    assert!(!starts_with(&s, "http://e"));
    assert!(starts_with(&s, ""));
    assert!(!starts_with(&chars("ht"), "http://"));
    assert!(contains(&s, "/.well-known/"));
    assert!(contains(&s, ""));
    assert!(!contains(&s, "/.well-knowm/"));
    assert!(contains_char(&s, ':'));
    assert!(!contains_char(&s, ' '));
    assert_eq!(find(&s, &chars("/.well-known/")), Some(19));
    assert_eq!(find(&s, &chars("/")), Some(6));
    assert_eq!(find(&s, &chars("zz")), None);
    assert_eq!(find(&s, &chars("")), Some(0));
    assert_eq!(find(&chars(""), &chars("")), Some(0));
    assert_eq!(find(&chars("aab"), &chars("ab")), Some(1));
    assert!(matches_at(&s, &chars("example"), 8));
    assert!(!matches_at(&s, &chars("example"), 9));
    assert!(!matches_at(&s, &chars("x"), 1000));
    assert!(matches_at(&s, &chars(""), s.len()));
}

#[test]
fn splitting() {
    assert_eq!(split_ranges(&chars("a/b"), '/'), vec![(0, 1), (2, 3)]);
    assert_eq!(split_ranges(&chars(""), '/'), vec![(0, 0)]);
    assert_eq!(split_ranges(&chars("/"), '/'), vec![(0, 0), (1, 1)]);
    assert_eq!(split_ranges(&chars("1.22..3"), '.'), vec![(0, 1), (2, 4), (5, 5), (6, 7)]);
    assert_eq!(split_ranges(&chars("abc"), '.'), vec![(0, 3)]);
}

#[test]
fn messages() {
    assert_eq!(owned("abc"), "abc");
    assert_eq!(join("Invalid: ", "x"), "Invalid: x");
    assert_eq!(with_prefix("p: ", Ok(())), Ok(()));
    assert_eq!(with_prefix("p: ", Err("bad".to_string())), Err("p: bad".to_string()));
}
