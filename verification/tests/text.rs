use ralpher::letters::lowered;
use ralpher::number::{decimal_text, signed_text, successor_text, two_digit_text};
use ralpher::search::{index_of, lines_of, parts_by, parts_of, replaced};
use ralpher::text::{chars_of, has_content, is_whitespace, string_of, trimmed_text};
use ralpher::utf8::{char_width, index_at_byte, tail_start};

#[test]
fn whitespace_is_that_of_unicode() {
    for c in '\0'..=char::MAX {
        assert_eq!(is_whitespace(c), c.is_whitespace());
    }
}

#[test]
fn widths_are_those_of_utf8() {
    for c in '\0'..=char::MAX {
        assert_eq!(char_width(c), c.len_utf8());
    }
}

#[test]
fn only_ascii_letters_lower_to_those_of_the_key_words() {
    for c in '\u{80}'..=char::MAX {
        for l in c.to_lowercase() {
            assert!(!"user story acceptance".contains(l));
        }
    }
    let v = chars_of("ABZ az\u{c4}");
    assert_eq!(string_of(&lowered(&v)), "abz az\u{c4}");
}

#[test]
fn trimming_takes_both_ends() {
    for s in ["", " ", "a", " a b \n", "\u{3000}x\u{85}", "\t\r\n"] {
        assert_eq!(trimmed_text(s), s.trim());
        assert_eq!(has_content(s), !s.trim().is_empty());
    }
}

#[test]
fn lines_are_those_of_std() {
    for s in ["", "\n", "a", "a\n", "a\r\nb", "a\r", "\r\n", "a\n\nb\n", "a\r\r\n"] {
        let ours: Vec<String> = lines_of(&chars_of(s)).iter().map(string_of).collect();
        let theirs: Vec<&str> = s.lines().collect();
        assert_eq!(ours, theirs);
    }
}

#[test]
fn parts_are_those_of_std() {
    for s in ["", "/", "a", "a/b", "/a//b/"] {
        let ours: Vec<String> = parts_of(&chars_of(s), '/').iter().map(string_of).collect();
        let theirs: Vec<&str> = s.split('/').collect();
        assert_eq!(ours, theirs);
    }
    for s in ["", "**", "a**b", "***", "****", "a*b"] {
        let ours: Vec<String> =
            parts_by(&chars_of(s), &chars_of("**")).iter().map(string_of).collect();
        let theirs: Vec<&str> = s.split("**").collect();
        assert_eq!(ours, theirs);
    }
}

#[test]
fn searching_finds_the_first_place() {
    let v = chars_of("abcabc");
    assert_eq!(index_of(&v, &chars_of("bc")), Some(1));
    assert_eq!(index_of(&v, &chars_of("")), Some(0));
    assert_eq!(index_of(&v, &chars_of("cb")), None);
    assert_eq!(index_of(&chars_of(""), &chars_of("a")), None);
    assert_eq!(string_of(&replaced(&v, 'b', &chars_of("--"))), "a--ca--c");
}

#[test]
fn numbers_are_written_as_by_std() {
    for n in [0u64, 7, 9, 10, 99, 100, 12345, u64::MAX] {
        assert_eq!(decimal_text(n), n.to_string());
        assert_eq!(two_digit_text(n), format!("{:02}", n));
    }
    for n in [0i64, 1, -1, -10, i64::MAX, i64::MIN] {
        assert_eq!(signed_text(n), n.to_string());
    }
    for n in [0usize, 8, 9, 10, 98, 99, 109, 999] {
        assert_eq!(successor_text(n), (n + 1).to_string());
    }
    assert_eq!(successor_text(usize::MAX), (usize::MAX as u128 + 1).to_string());
}

#[test]
fn bytes_and_characters_are_told_apart() {
    let v = chars_of("a\u{e4}\u{20ac}b");
    let starts: Vec<usize> = (0..10).map(|b| index_at_byte(&v, b)).collect();
    assert_eq!(starts, vec![0, 1, 2, 2, 3, 3, 3, 4, 4, 4]);
    let tails: Vec<usize> = (0..9).map(|limit| tail_start(&v, limit)).collect();
    assert_eq!(tails, vec![4, 3, 3, 3, 2, 2, 1, 0, 0]);
}
