use clipsync::text::{chars_of, concat2, concat3, str_contains, str_greater, trim_str, u64_to_decimal};

#[test]
fn contains_finds_substrings() {
    assert!(str_contains("authenticated + sent text", "authenticated"));
    assert!(str_contains("abc", ""));
    assert!(str_contains("clipsync-laptop._clipsync._tcp.local.", "clipsync-laptop"));
    assert!(!str_contains("rejected: token mismatch", "authenticated"));
    assert!(!str_contains("ab", "abc"));
}

#[test]
fn contains_matches_std() {
    let hays = ["", "a", "héllo wörld", "authenticated (inbound)", "abcabd"];
    let needles = ["", "a", "wö", "inbound)", "abd", "abcabdx", "é"];
    for h in hays {
        for n in needles {
            assert_eq!(str_contains(h, n), h.contains(n), "{h} / {n}");
        }
    }
}

#[test]
fn greater_matches_std() {
    let words = ["", "a", "ab", "b", "é", "z", "laptop", "phone", "Phone", "\u{10000}"];
    for a in words {
        for b in words {
            assert_eq!(str_greater(a, b), a > b, "{a} / {b}");
        }
    }
}

#[test]
fn greater_is_lexicographic() {
    assert!(str_greater("b", "a"));
    assert!(str_greater("ab", "a"));
    assert!(!str_greater("a", "ab"));
    assert!(!str_greater("same", "same"));
    assert!(str_greater("phone", "laptop"));
    assert!(!str_greater("", ""));
    assert_eq!(str_greater("é", "z"), "é" > "z");
}

#[test]
fn trim_matches_std() {
    for s in ["  Desk  ", "\t\nx y\u{3000}", "", "   ", "none", "\u{a0}a\u{2009}"] {
        assert_eq!(trim_str(s), s.trim());
    }
}

#[test]
fn decimal_matches_to_string() {
    for n in [0u64, 7, 10, 2048, 30000, 10190, u64::MAX] {
        assert_eq!(u64_to_decimal(n), n.to_string());
    }
}

#[test]
fn concatenation_and_chars() {
    assert_eq!(concat2("ab", "cd"), "abcd");
    assert_eq!(concat3("a", "-", "b"), "a-b");
    assert_eq!(chars_of("héllo"), vec!['h', 'é', 'l', 'l', 'o']);
}
