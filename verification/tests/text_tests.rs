use tafarn::text::{
    ascii_ci_eq, char_is_whitespace, contains_str, join_strings, sort_dedup, split_char, split_once_char,
    split_whitespace, str_lt, to_ascii_lower, trims_to_empty,
};

fn strings(v: &[&str]) -> Vec<String> {
    v.iter().map(|s| s.to_string()).collect()
}

#[test]
fn splitting_and_joining() {
    assert_eq!(split_char("a b  c", ' '), strings(&["a", "b", "", "c"]));
    assert_eq!(split_char("", ' '), strings(&[""]));
    assert_eq!(join_strings(&strings(&["a", "b", "c"]), ", "), "a, b, c");
    assert_eq!(join_strings(&vec![], ", "), "");
    assert_eq!(split_once_char("a:b:c", ':'), Some(("a".to_string(), "b:c".to_string())));
    assert_eq!(split_once_char("abc", ':'), None);
    assert_eq!(split_whitespace("  read\u{3000}write\n follow "), strings(&["read", "write", "follow"]));
    assert!(split_whitespace(" \t ").is_empty());
}

#[test]
fn join_then_split_gives_parts() {
    let parts = strings(&["(request-target)", "host", "date"]);
    let joined = join_strings(&parts, " ");
    assert_eq!(split_char(&joined, ' '), parts);
}

#[test]
fn ordering_and_dedup() {
    assert!(str_lt("a", "b"));
    assert!(str_lt("read", "read:accounts"));
    assert!(!str_lt("b", "a"));
    assert!(!str_lt("same", "same"));
    assert_eq!(sort_dedup(strings(&["write", "read", "write", "follow", "read"])), strings(&["follow", "read", "write"]));
    assert_eq!(sort_dedup(vec![]), Vec::<String>::new());
    let mut expected = strings(&["é", "z", "a", "Z"]);
    expected.sort();
    expected.dedup();
    assert_eq!(sort_dedup(strings(&["é", "z", "a", "Z", "a"])), expected);
}

#[test]
fn character_classes() {
    for c in ['\t', '\n', ' ', '\u{85}', '\u{a0}', '\u{2003}', '\u{3000}'] {
        assert!(char_is_whitespace(c));
        assert_eq!(char_is_whitespace(c), c.is_whitespace());
    }
    for c in ['a', '\u{200b}', '_'] {
        assert!(!char_is_whitespace(c));
        assert_eq!(char_is_whitespace(c), c.is_whitespace());
    }
    assert!(trims_to_empty(" \t\n"));
    assert!(trims_to_empty(""));
    assert!(!trims_to_empty(" x "));
    assert_eq!(to_ascii_lower("Content-TYPE Ä"), "content-type Ä");
    assert!(ascii_ci_eq("HOST", "host"));
    assert!(!ascii_ci_eq("hosts", "host"));
    assert!(contains_str(&strings(&["a", "b"]), "b"));
    assert!(!contains_str(&strings(&["a", "b"]), "c"));
}
