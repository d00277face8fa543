use plexus_core::text::{decimal_string, split_all_at, split_once_at, strip_prefix_of, trim_text};

#[test]
fn decimal_matches_display() {
    for n in [0u64, 9, 10, 99, 100, 12345, u64::MAX] {
        assert_eq!(decimal_string(n), n.to_string());
    }
}

#[test]
fn split_matches_std() {
    for s in ["", "a", "a|b", "|", "a||b|", "x|y|z"] {
        let mine = split_all_at(s, '|');
        let std: Vec<String> = s.split('|').map(|x| x.to_string()).collect();
        assert_eq!(mine, std);
        let once = split_once_at(s, '|');
        let std_once = s.split_once('|').map(|(a, b)| (a.to_string(), b.to_string()));
        assert_eq!(once, std_once);
    }
}

#[test]
fn trim_and_prefix_match_std() {
    for s in ["", "  a b  ", "\t\nx\u{3000}", "   ", "é ü"] {
        assert_eq!(trim_text(s), s.trim());
    }
    assert_eq!(strip_prefix_of("session=ab", "session="), Some("ab".to_string()));
    assert_eq!(strip_prefix_of("sess", "session="), None);
    assert_eq!(strip_prefix_of("é=1", "é"), Some("=1".to_string()));
}
