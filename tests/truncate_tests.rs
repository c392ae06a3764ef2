use bel7_cli::{truncate_middle, truncate_string, truncate_with_suffix};

#[test]
fn test_truncate_short_string() {
    assert_eq!(truncate_string("Hi", 10), "Hi");
}

#[test]
fn test_truncate_exact_length() {
    assert_eq!(truncate_string("Hello", 5), "Hello");
}

#[test]
fn test_truncate_long_string() {
    assert_eq!(truncate_string("Hello, World!", 8), "Hello...");
}

#[test]
fn test_truncate_unicode() {
    assert_eq!(truncate_string("Héllo Wörld", 8), "Héllo...");
}

#[test]
fn test_truncate_middle_short() {
    assert_eq!(truncate_middle("short", 20), "short");
}

#[test]
fn test_truncate_middle_long() {
    let result = truncate_middle("/very/long/path/to/file.txt", 20);
    assert!(result.len() <= 20);
    assert!(result.contains("..."));
}

#[test]
fn test_custom_suffix() {
    assert_eq!(truncate_with_suffix("Hello, World!", 9, "…"), "Hello, W…");
}

#[test]
fn test_truncate_empty_string() {
    assert_eq!(truncate_string("", 10), "");
    assert_eq!(truncate_middle("", 10), "");
}

#[test]
fn test_truncate_middle_max_chars_zero() {
    assert_eq!(truncate_middle("Hello", 0), "");
}

#[test]
fn test_truncate_middle_max_chars_smaller_than_suffix() {
    assert_eq!(truncate_middle("Hello, World!", 1), ".");
    assert_eq!(truncate_middle("Hello, World!", 2), "..");
    assert_eq!(truncate_middle("Hello, World!", 3), "...");
}

#[test]
fn test_truncate_middle_preserves_both_ends() {
    let result = truncate_middle("abcdefghij", 7);
    assert_eq!(result, "ab...ij");
}

#[test]
fn test_truncate_with_unicode_suffix() {
    assert_eq!(truncate_with_suffix("Hello, World!", 6, "…"), "Hello…");
}

#[test]
fn fitting_string_is_unchanged_by_both_truncations() {
    for n in 11..15 {
        assert_eq!(truncate_string("Héllo Wörld", n), "Héllo Wörld");
        assert_eq!(truncate_middle("Héllo Wörld", n), "Héllo Wörld");
    }
}

#[test]
fn end_truncation_fits_and_ends_with_marker() {
    let s = "The quick brown fox";
    for n in 3..19 {
        let r = truncate_string(s, n);
        assert!(r.chars().count() <= n);
        assert!(r.ends_with("..."));
    }
}

#[test]
fn end_truncation_below_marker_length_appends_whole_marker() {
    assert_eq!(truncate_string("Hello", 0), "...");
    assert_eq!(truncate_string("Hello", 1), "...");
    assert_eq!(truncate_with_suffix("Hello", 0, "[cut]"), "[cut]");
}

#[test]
fn end_truncation_counts_characters_not_bytes() {
    assert_eq!(truncate_with_suffix("ääääää", 4, "…"), "äää…");
}

#[test]
fn middle_truncation_has_exact_length_and_one_marker() {
    let s = "abcdefghijklmnopqrstuvwxyz";
    for n in 4..26 {
        let r = truncate_middle(s, n);
        assert_eq!(r.chars().count(), n);
        assert_eq!(r.matches("...").count(), 1);
        let start_len = (n - 3 + 1) / 2;
        assert_eq!(r.split("...").next().unwrap(), &s[..start_len]);
    }
}

#[test]
fn middle_truncation_favours_the_start_for_odd_room() {
    assert_eq!(truncate_middle("abcdefghij", 8), "abc...ij");
    assert_eq!(truncate_middle("ÄÖÜäöüßéèê", 6), "ÄÖ...ê");
}
