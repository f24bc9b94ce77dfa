use actix_practice::decimal::{i32_to_string, parse_i32_text, parse_u8_text, usize_to_string};
use actix_practice::text::{
    after_last_chars, chars_of, concat2, join_strings, replace_chars, same_text, string_of,
    trim_chars,
};

fn s(v: &[char]) -> String {
    v.iter().collect()
}

#[test]
fn prints_integers_like_to_string() {
    for n in [0, 7, 10, 42, 100, -1, -15, i32::MAX, i32::MIN] {
        assert_eq!(i32_to_string(n), n.to_string());
    }
    assert_eq!(usize_to_string(0), "0");
    assert_eq!(usize_to_string(262144), "262144");
}

#[test]
fn parses_i32_like_std() {
    for t in [
        "0", "42", "+42", "-42", "007", "2147483647", "-2147483648", "2147483648", "-2147483649",
        "", "+", "-", "4 2", " 42", "42a", "--1", "99999999999999999999",
    ] {
        assert_eq!(parse_i32_text(t), t.parse::<i32>().ok(), "input {:?}", t);
    }
}

#[test]
fn parses_u8_like_std() {
    for t in ["0", "255", "256", "+7", "-0", "-1", "", "+", "1000", "12x"] {
        assert_eq!(parse_u8_text(t), t.parse::<u8>().ok(), "input {:?}", t);
    }
}

#[test]
fn printed_numbers_read_back() {
    for n in [-1000, -1, 0, 1, 99, 123456, i32::MIN, i32::MAX] {
        assert_eq!(parse_i32_text(&i32_to_string(n)), Some(n));
    }
}

#[test]
fn trims_and_splits_like_std() {
    for t in ["  a b \t", "", "   ", "\u{3000}x\u{a0}", "a:b: 3 ", "no colon", "end:"] {
        let v = chars_of(t);
        assert_eq!(s(&trim_chars(&v)), t.trim());
        assert_eq!(s(&after_last_chars(&v, ':')), t.split(':').last().unwrap());
    }
}

#[test]
fn replaces_like_std() {
    let cases = [
        ("aaa", "aa", "b"),
        ("1 11 111", "1", "22"),
        ("random number of today : 42", "42", "43"),
        ("xyz", "q", "r"),
        ("", "a", "b"),
    ];
    for (text, pat, rep) in cases {
        let out = replace_chars(&chars_of(text), &chars_of(pat), &chars_of(rep));
        assert_eq!(s(&out), text.replace(pat, rep));
    }
}

#[test]
fn joins_like_std() {
    let items: Vec<String> = vec!["john".into(), "victor".into(), "gustavo".into()];
    assert_eq!(join_strings(&items, " , "), items.join(" , "));
    assert_eq!(join_strings(&Vec::new(), " "), "");
    assert_eq!(join_strings(&vec!["one".to_string()], " "), "one");
}

#[test]
fn compares_and_concatenates_text() {
    assert!(same_text("true", "true"));
    assert!(!same_text("true", "True"));
    assert!(!same_text("true", "true "));
    assert_eq!(concat2("ab", "cd"), "abcd");
    assert_eq!(string_of(&vec!['h', 'é']), "hé");
}

#[test]
fn test_appstate() {
    let users: Vec<String> = vec!["john", "victor", "gustavo"].iter().map(|u| u.to_string()).collect();
    assert_eq!(join_strings(&users, " "), "john victor gustavo");
}
