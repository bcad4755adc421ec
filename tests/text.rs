use thermal_relay::text::substr;

#[test]
fn substr_to_the_end() {
    assert_eq!(substr("abcdefgh", 3, None), Some("defgh"));
    assert_eq!(substr("abc", 3, None), Some(""));
}

#[test]
fn substr_with_end() {
    assert_eq!(substr("abcdefgh", 1, Some(4)), Some("bcd"));
    assert_eq!(substr("abcdefgh", 0, Some(8)), Some("abcdefgh"));
}

#[test]
fn substr_end_before_begin_is_empty() {
    assert_eq!(substr("abcdefgh", 5, Some(2)), Some(""));
    assert_eq!(substr("abcdefgh", 5, Some(5)), Some(""));
}

#[test]
fn substr_out_of_range() {
    assert_eq!(substr("abc", 4, None), None);
    assert_eq!(substr("abc", 1, Some(5)), None);
}

#[test]
fn substr_counts_characters() {
    assert_eq!(substr("héllo wörld", 1, Some(4)), Some("éll"));
    assert_eq!(substr("日本語テキスト", 4, None), Some("キスト"));
}
