// Tests of the character-sequence utilities.

use hostcore::text::{
    chars_eq_str, chars_of, contains_sub, decimal_of, escape_backslashes, escape_double_quotes,
    escape_posix_quotes, escape_ps_quotes, find_sub, lower_char, prefix_chars, str_eq,
    subrange_chars, to_lower, trim,
};

fn s(v: Vec<char>) -> String {
    v.into_iter().collect()
}

#[test]
fn chars_of_round_trip() {
    assert_eq!(s(chars_of("hello world")), "hello world");
    assert_eq!(s(chars_of("")), "");
}

#[test]
fn lower_char_maps_ascii_only() {
    assert_eq!(lower_char('A'), 'a');
    assert_eq!(lower_char('Z'), 'z');
    assert_eq!(lower_char('a'), 'a');
    assert_eq!(lower_char('0'), '0');
    // Neighbours of the letter range stay untouched.
    assert_eq!(lower_char('@'), '@');
    assert_eq!(lower_char('['), '[');
}

#[test]
fn to_lower_whole_string() {
    assert_eq!(s(to_lower(&chars_of("RClone.EXE"))), "rclone.exe");
}

#[test]
fn trim_both_ends() {
    assert_eq!(s(trim(&chars_of("  abc\t\n"))), "abc");
    assert_eq!(s(trim(&chars_of("abc"))), "abc");
    assert_eq!(s(trim(&chars_of(" \r\n\t "))), "");
    assert_eq!(s(trim(&chars_of(""))), "");
    assert_eq!(s(trim(&chars_of("a b"))), "a b");
}

#[test]
fn find_sub_first_occurrence() {
    let hay = chars_of("abcabc");
    assert_eq!(find_sub(&hay, "abc"), Some(0));
    assert_eq!(find_sub(&hay, "bc"), Some(1));
    assert_eq!(find_sub(&hay, "cab"), Some(2));
    assert_eq!(find_sub(&hay, "zzz"), None);
    assert_eq!(find_sub(&hay, ""), Some(0));
    assert_eq!(find_sub(&hay, "abcabcabc"), None);
}

#[test]
fn contains_sub_matches_std() {
    let hay = chars_of("No tasks are running which match the criteria");
    assert!(contains_sub(&hay, "No tasks are running"));
    assert!(!contains_sub(&hay, "no tasks"));
}

#[test]
fn decimal_of_exact_digits() {
    assert_eq!(s(decimal_of(0)), "0");
    assert_eq!(s(decimal_of(7)), "7");
    assert_eq!(s(decimal_of(1040)), "1040");
    assert_eq!(s(decimal_of(4294967295)), "4294967295");
}

#[test]
fn prefix_chars_takes_at_most_n() {
    let v = chars_of("abcdef");
    assert_eq!(s(prefix_chars(&v, 3)), "abc");
    assert_eq!(s(prefix_chars(&v, 0)), "");
    assert_eq!(s(prefix_chars(&v, 10)), "abcdef");
}

#[test]
fn subrange_chars_slices() {
    let v = chars_of("abcdef");
    assert_eq!(s(subrange_chars(&v, 1, 4)), "bcd");
    assert_eq!(s(subrange_chars(&v, 0, 0)), "");
}

#[test]
fn str_eq_and_chars_eq() {
    assert!(str_eq("rclone", "rclone"));
    assert!(!str_eq("rclone", "rclone "));
    assert!(chars_eq_str(&chars_of("rclone"), "rclone"));
    assert!(!chars_eq_str(&chars_of("rclonE"), "rclone"));
}

#[test]
fn escape_double_quotes_exact() {
    assert_eq!(s(escape_double_quotes(&chars_of("say \"hi\""))), "say \\\"hi\\\"");
    assert_eq!(s(escape_double_quotes(&chars_of("plain"))), "plain");
}

#[test]
fn escape_backslashes_exact() {
    assert_eq!(s(escape_backslashes(&chars_of("a\\b"))), "a\\\\b");
}

#[test]
fn escape_backslashes_then_quotes_as_embedding_needs() {
    // The embedding escape doubles backslashes first, then escapes quotes;
    // the backslash introduced for the quote is not doubled again.
    let step1 = escape_backslashes(&chars_of("\\\""));
    let step2 = escape_double_quotes(&step1);
    assert_eq!(s(step2), "\\\\\\\"");
}

#[test]
fn escape_ps_quotes_exact() {
    assert_eq!(s(escape_ps_quotes(&chars_of("it's"))), "it''s");
}

#[test]
fn escape_posix_quotes_exact() {
    assert_eq!(s(escape_posix_quotes(&chars_of("it's"))), "it'\\''s");
}
