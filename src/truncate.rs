//! Character-accurate string truncation.
//!
//! All lengths count Unicode scalar values (`char`s), never bytes, so a
//! result never splits a multi-byte character.
use vstd::prelude::*;
use vstd::string::*;

verus! {

/// Default suffix appended to truncated strings.
pub const DEFAULT_TRUNCATION_SUFFIX: &'static str = "...";

/// The three-dot marker, as characters.
pub open spec fn ellipsis() -> Seq<char> {
    seq!['.', '.', '.']
}

/// `s` cut to its first `max_chars - |suffix|` characters (none when the
/// suffix is longer than `max_chars`) followed by the whole suffix, or `s`
/// itself when it already fits.
pub open spec fn truncated_with_suffix(s: Seq<char>, max_chars: nat, suffix: Seq<char>) -> Seq<char> {
    if s.len() <= max_chars {
        s
    } else {
        let keep: nat = if suffix.len() <= max_chars { (max_chars - suffix.len()) as nat } else { 0 };
        s.take(keep as int) + suffix
    }
}

/// `s` with its middle replaced by the marker so that exactly `max_chars`
/// characters remain; the start keeps the odd character. At most three
/// characters, only (part of) the marker is left.
pub open spec fn truncated_middle(s: Seq<char>, max_chars: nat) -> Seq<char> {
    if s.len() <= max_chars {
        s
    } else if max_chars <= 3 {
        ellipsis().take(max_chars as int)
    } else {
        let available = max_chars - 3;
        let start_len = (available + 1) / 2;
        let end_len = available / 2;
        s.take(start_len) + ellipsis() + s.skip(s.len() - end_len)
    }
}

/// Truncates `s` to at most `max_chars` characters, ending in "..." when
/// anything was cut.
pub fn truncate_string(s: &str, max_chars: usize) -> (r: String)
    ensures
        r@ == truncated_with_suffix(s@, max_chars as nat, ellipsis()),
{
    proof {
        reveal_strlit("...");
        assert(DEFAULT_TRUNCATION_SUFFIX@ == ellipsis());
    }
    truncate_with_suffix(s, max_chars, DEFAULT_TRUNCATION_SUFFIX)
}

/// Truncates `s` to `max_chars` characters with a custom suffix, which is
/// always appended whole.
pub fn truncate_with_suffix(s: &str, max_chars: usize, suffix: &str) -> (r: String)
    ensures
        r@ == truncated_with_suffix(s@, max_chars as nat, suffix@),
{
    let char_count = s.unicode_len();
    if char_count <= max_chars {
        return String::from_str(s);
    }
    let suffix_len = suffix.unicode_len();
    let keep = max_chars.saturating_sub(suffix_len);
    let mut out = String::from_str(s.substring_char(0, keep));
    out.append(suffix);
    out
}

/// Truncates `s` in the middle, keeping both its start and its end.
pub fn truncate_middle(s: &str, max_chars: usize) -> (r: String)
    ensures
        r@ == truncated_middle(s@, max_chars as nat),
{
    let char_count = s.unicode_len();
    if char_count <= max_chars {
        return String::from_str(s);
    }
    let marker = "...";
    proof {
        reveal_strlit("...");
    }
    let marker_len = marker.unicode_len();
    if max_chars <= marker_len {
        return String::from_str(marker.substring_char(0, max_chars));
    }
    let available = max_chars - marker_len;
    let start_len = available - available / 2;
    let end_len = available / 2;
    let mut out = String::from_str(s.substring_char(0, start_len));
    out.append(marker);
    out.append(s.substring_char(char_count - end_len, char_count));
    proof {
        assert(s@.subrange(0, start_len as int) == s@.take(start_len as int));
        assert(s@.subrange((char_count - end_len) as int, char_count as int)
            == s@.skip(s@.len() - end_len));
    }
    out
}

/// The marker occupies positions `i .. i + 3` of `r`.
pub open spec fn marker_at(r: Seq<char>, i: int) -> bool {
    0 <= i && i + 3 <= r.len() && r.subrange(i, i + 3) == ellipsis()
}

/// A string that already fits is returned unchanged by end truncation.
pub proof fn lemma_truncate_string_fits(s: Seq<char>, n: nat)
    requires
        n >= s.len(),
    ensures
        truncated_with_suffix(s, n, ellipsis()) == s,
{
}

/// A string that does not fit is cut to at most `n` characters ending in the
/// marker, as long as the marker itself fits (`n >= 3`): below that the
/// marker is still appended whole and the result is longer than `n`.
pub proof fn lemma_truncate_string_shortens(s: Seq<char>, n: nat)
    requires
        3 <= n < s.len(),
    ensures
        truncated_with_suffix(s, n, ellipsis()).len() <= n,
        truncated_with_suffix(s, n, ellipsis()).len() >= 3,
        truncated_with_suffix(s, n, ellipsis()).skip(
            truncated_with_suffix(s, n, ellipsis()).len() - 3,
        ) == ellipsis(),
{
    let r = truncated_with_suffix(s, n, ellipsis());
    assert(r.skip(r.len() - 3) =~= ellipsis());
}

/// A string that already fits is returned unchanged by middle truncation.
pub proof fn lemma_truncate_middle_fits(s: Seq<char>, n: nat)
    requires
        n >= s.len(),
    ensures
        truncated_middle(s, n) == s,
{
}

/// Middle truncation of a string that does not fit, to more than three
/// characters, has exactly `n` characters: the first `ceil((n - 3) / 2)`
/// characters of `s`, the marker, then the last `floor((n - 3) / 2)`.
pub proof fn lemma_truncate_middle_shape(s: Seq<char>, n: nat)
    requires
        3 < n < s.len(),
    ensures
        truncated_middle(s, n).len() == n,
        truncated_middle(s, n).take((n - 2) / 2) == s.take((n - 2) / 2),
        marker_at(truncated_middle(s, n), (n - 2) / 2),
        truncated_middle(s, n).skip((n - 2) / 2 + 3) == s.skip(s.len() - (n - 3) / 2),
{
    let r = truncated_middle(s, n);
    let c = (n - 2) / 2;
    assert(c == (n - 3 + 1) / 2);
    assert(r.take(c) =~= s.take(c));
    assert(r.subrange(c, c + 3) =~= ellipsis());
    assert(r.skip(c + 3) =~= s.skip(s.len() - (n - 3) / 2));
}

/// In a middle truncation to more than three characters, the marker occurs
/// right after the kept start, and any other occurrence of it overlaps a dot
/// kept from `s` (before or after the inserted marker).
pub proof fn lemma_truncate_middle_other_markers(s: Seq<char>, n: nat, j: int)
    requires
        3 < n < s.len(),
        marker_at(truncated_middle(s, n), j),
        j != (n - 2) / 2,
    ensures
        exists|i: int|
            j <= i < j + 3 && (i < (n - 2) / 2 || i >= (n - 2) / 2 + 3) && #[trigger] truncated_middle(
                s,
                n,
            )[i] == '.',
{
    lemma_truncate_middle_shape(s, n);
    let r = truncated_middle(s, n);
    let c = (n - 2) / 2;
    let w = if j < c { j } else { j + 2 };
    assert(r.subrange(j, j + 3)[w - j] == r[w]);
    assert(j <= w < j + 3 && (w < c || w >= c + 3) && r[w] == '.');
}

/// When none of the characters that middle truncation keeps from `s` is a
/// dot, the marker occurs exactly once in the result, right after the kept
/// start.
pub proof fn lemma_truncate_middle_marker_unique(s: Seq<char>, n: nat, j: int)
    requires
        3 < n < s.len(),
        forall|i: int| 0 <= i < (n - 2) / 2 ==> s[i] != '.',
        forall|i: int| s.len() - (n - 3) / 2 <= i < s.len() ==> s[i] != '.',
        marker_at(truncated_middle(s, n), j),
    ensures
        j == (n - 2) / 2,
{
    lemma_truncate_middle_shape(s, n);
    let r = truncated_middle(s, n);
    let c = (n - 2) / 2;
    if j != c {
        lemma_truncate_middle_other_markers(s, n, j);
        let i = choose|i: int| j <= i < j + 3 && (i < c || i >= c + 3) && #[trigger] r[i] == '.';
        if i < c {
            assert(r.take(c)[i] == r[i]);
        } else {
            let k = i - (c + 3);
            assert(r.skip(c + 3)[k] == r[i]);
            assert(s.skip(s.len() - (n - 3) / 2)[k] == s[s.len() - (n - 3) / 2 + k]);
        }
    }
}

} // verus!
