use ai_token_prelude::text::{chars_of, contains_text, same_text, split_chars};

#[test]
fn substring_search() {
    assert!(contains_text("gold-vip-1", "vip"));
    assert!(contains_text("abc", ""));
    assert!(contains_text("abc", "abc"));
    assert!(!contains_text("ab", "abc"));
    assert!(!contains_text("aab", "abb"));
    assert!(contains_text("中文private", "private"));
}

#[test]
fn exact_comparison() {
    assert!(same_text("internal", "internal"));
    assert!(!same_text("internal", "internal "));
    assert!(same_text("", ""));
}

#[test]
fn split_like_str_split() {
    for s in ["", "a", "a,b", ",", "a,,b,", "internal"] {
        let ours: Vec<String> = split_chars(s, ',').into_iter().map(|p| p.into_iter().collect()).collect();
        let std_pieces: Vec<String> = s.split(',').map(|p| p.to_string()).collect();
        assert_eq!(ours, std_pieces);
    }
    assert_eq!(chars_of("héllo"), vec!['h', 'é', 'l', 'l', 'o']);
}
