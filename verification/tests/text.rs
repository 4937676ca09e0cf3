use synapsed::text::{
    all_digits, chars_eq_ignore_ascii_case, chars_le, chars_of, contains_char, contains_chars, contains_str,
    find_char, i32_decimal, is_whitespace_exec, parse_digits_i32, remove_all, rfind_char, split_lines, sub_chars,
    trim_chars,
};

fn cs(s: &str) -> Vec<char> {
    s.chars().collect()
}

fn st(c: &[char]) -> String {
    c.iter().collect()
}

#[test]
fn chars_and_slices() {
    assert_eq!(chars_of("aé\u{2502}"), vec!['a', 'é', '\u{2502}']);
    assert_eq!(st(&sub_chars(&cs("hello"), 1, 4)), "ell");
    assert_eq!(sub_chars(&cs("hello"), 2, 2), Vec::<char>::new());
}

#[test]
fn trimming_follows_unicode_whitespace() {
    assert_eq!(st(&trim_chars(&cs("  a b\t\n"))), "a b");
    assert_eq!(st(&trim_chars(&cs("\u{3000}x\u{a0}"))), "x");
    assert_eq!(st(&trim_chars(&cs("   "))), "");
    assert!(is_whitespace_exec('\u{2028}'));
    assert!(!is_whitespace_exec('\u{2502}'));
    assert_eq!(st(&trim_chars(&cs(" x "))), " x ".trim());
}

#[test]
fn searching() {
    assert!(contains_chars(&cs("Sinks: 3"), &cs("Sinks:")));
    assert!(contains_chars(&cs("abc"), &cs("")));
    assert!(!contains_chars(&cs("ab"), &cs("abc")));
    assert!(contains_str(&cs("Audio/Sink"), "Audio"));
    assert!(!contains_str(&cs("audio"), "Audio"));
    assert!(contains_char(&cs("*  12."), '*'));
    assert!(!contains_char(&cs(""), '*'));
    assert_eq!(find_char(&cs("12. a.b"), '.'), Some(2));
    assert_eq!(rfind_char(&cs("12. a.b"), '.'), Some(5));
    assert_eq!(find_char(&cs("ab"), '.'), None);
    assert_eq!(rfind_char(&cs("ab"), '.'), None);
}

#[test]
fn removing_characters() {
    assert_eq!(st(&remove_all(&cs("*a*b**"), '*')), "ab");
    assert_eq!(st(&remove_all(&cs("ab"), '*')), "ab");
}

#[test]
fn digits_and_numbers() {
    assert!(all_digits(&cs("0123")));
    assert!(all_digits(&cs("")));
    assert!(!all_digits(&cs("12a")));
    assert!(!all_digits(&cs("\u{661}")));
    assert_eq!(parse_digits_i32(&cs("0048")), Some(48));
    assert_eq!(parse_digits_i32(&cs("2147483647")), Some(i32::MAX));
    assert_eq!(parse_digits_i32(&cs("2147483648")), None);
    assert_eq!(parse_digits_i32(&cs("99999999999999999999")), None);
    assert_eq!(st(&i32_decimal(0)), "0");
    assert_eq!(st(&i32_decimal(405)), "405");
    assert_eq!(st(&i32_decimal(-17)), "-17");
    assert_eq!(st(&i32_decimal(i32::MIN)), "-2147483648");
}

#[test]
fn ascii_case_insensitive_equality() {
    assert!(chars_eq_ignore_ascii_case(&cs("MP3"), &cs("mp3")));
    assert!(chars_eq_ignore_ascii_case(&cs("mP3"), &cs("Mp3")));
    assert!(!chars_eq_ignore_ascii_case(&cs("mp4"), &cs("mp3")));
    assert!(!chars_eq_ignore_ascii_case(&cs("mp"), &cs("mp3")));
    assert!(!chars_eq_ignore_ascii_case(&cs("É"), &cs("é")));
}

#[test]
fn lines_like_str_lines() {
    let text = "a\nb\r\n\nc\r";
    let got: Vec<String> = split_lines(&cs(text)).iter().map(|l| st(l)).collect();
    let want: Vec<String> = text.lines().map(|l| l.to_string()).collect();
    assert_eq!(got, want);
    assert!(split_lines(&cs("")).is_empty());
    assert_eq!(split_lines(&cs("x\n")).len(), 1);
}

#[test]
fn lexicographic_order() {
    assert!(chars_le(&cs("abc"), &cs("abd")));
    assert!(chars_le(&cs("ab"), &cs("abc")));
    assert!(chars_le(&cs("ab"), &cs("ab")));
    assert!(!chars_le(&cs("b"), &cs("abc")));
    assert!(chars_le(&cs("Z"), &cs("a")));
}
