use aquarium::text::{
    chars_of, find_line, has_at, has_line_at, is_space_char, line_end_of, pop_char,
    pop_double_space, pop_space, push_chars, push_decimal, push_repeat, push_str, same_text,
    string_of, subrange, trim_end_of, trim_of, trim_start_of,
};
use aquarium::to_hex;

fn chars(s: &str) -> Vec<char> {
    s.chars().collect()
}

#[test]
fn white_space_is_what_std_calls_white_space() {
    for n in 0..=0x10FFFFu32 {
        if let Some(c) = char::from_u32(n) {
            assert_eq!(is_space_char(c), c.is_whitespace(), "U+{:04X}", n);
        }
    }
}

#[test]
fn chars_and_strings_convert_both_ways() {
    let text = "a\u{201C}b\u{2018} \n\u{1F600}";

    assert_eq!(chars_of(text), chars(text));
    assert_eq!(string_of(&chars(text)), text);
    assert_eq!(string_of(&Vec::new()), "");
}

#[test]
fn trimming_agrees_with_std() {
    let samples = [
        "",
        " ",
        "\n\t ",
        "a",
        " a",
        "a ",
        "  a b  ",
        "\u{a0}x\u{3000}",
        "\r\nline\r\n",
        "\u{2028}mid dle\u{85}",
        "x\u{200B}",
    ];
    for sample in samples {
        let s = chars(sample);
        assert_eq!(string_of(&trim_of(&s)), sample.trim());
        assert_eq!(string_of(&trim_start_of(&s)), sample.trim_start());
        assert_eq!(string_of(&trim_end_of(&s)), sample.trim_end());
    }
}

#[test]
fn subrange_copies_a_part() {
    let s = chars("hello world");

    assert_eq!(subrange(&s, 0, 5), chars("hello"));
    assert_eq!(subrange(&s, 6, 11), chars("world"));
    assert_eq!(subrange(&s, 3, 3), chars(""));
}

#[test]
fn patterns_are_found_where_they_stand() {
    let s = chars("abcabc");

    assert!(has_at(&s, &chars("abc"), 0));
    assert!(has_at(&s, &chars("abc"), 3));
    assert!(!has_at(&s, &chars("abc"), 1));
    assert!(!has_at(&s, &chars("abc"), 4));
    assert!(!has_at(&s, &chars("abc"), 100));
    assert!(has_at(&s, &chars(""), 6));
    assert!(!has_at(&s, &chars(""), 7));
}

#[test]
fn same_text_compares_characters() {
    assert!(same_text("dot", "dot"));
    assert!(!same_text("dot", "dots"));
    assert!(!same_text("dot", "dog"));
    assert!(same_text("", ""));
}

#[test]
fn line_ends_at_the_first_break() {
    let s = chars("ab\ncd");

    assert_eq!(line_end_of(&s, 0), 2);
    assert_eq!(line_end_of(&s, 2), 2);
    assert_eq!(line_end_of(&s, 3), 5);
    assert_eq!(line_end_of(&s, 9), 5);
}

#[test]
fn lines_that_consist_of_a_pattern() {
    let s = chars("---\na---\n---b\n ---\n---\r\nx\n---");
    let d = chars("---");

    assert!(has_line_at(&s, &d, 0));
    assert!(!has_line_at(&s, &d, 5));
    assert!(!has_line_at(&s, &d, 9));
    assert!(!has_line_at(&s, &d, 15));
    assert_eq!(find_line(&s, &d, 0), Some(0));
    assert_eq!(find_line(&s, &d, 1), Some(19));
    assert_eq!(find_line(&s, &d, 20), Some(26));
    assert_eq!(find_line(&s, &d, 27), None);
    assert_eq!(find_line(&chars("--"), &d, 0), None);
    assert!(has_line_at(&chars("---\r"), &d, 0));
    assert!(!has_line_at(&chars("---\rx"), &d, 0));
}

#[test]
fn buffers_grow_and_shrink() {
    let mut buf = chars("ab");

    push_str(&mut buf, "cd");
    push_chars(&mut buf, &chars("ef"));
    push_repeat(&mut buf, '#', 3);
    assert_eq!(string_of(&buf), "abcdef###");

    pop_char(&mut buf);
    assert_eq!(string_of(&buf), "abcdef##");
    pop_space(&mut buf);
    assert_eq!(string_of(&buf), "abcdef##");
    push_str(&mut buf, "  ");
    pop_double_space(&mut buf);
    assert_eq!(string_of(&buf), "abcdef## ");
    pop_double_space(&mut buf);
    assert_eq!(string_of(&buf), "abcdef## ");
    pop_space(&mut buf);
    assert_eq!(string_of(&buf), "abcdef##");

    let mut empty: Vec<char> = Vec::new();
    pop_char(&mut empty);
    pop_space(&mut empty);
    pop_double_space(&mut empty);
    assert!(empty.is_empty());
}

#[test]
fn decimal_numbers() {
    for n in [0u64, 1, 9, 10, 11, 99, 100, 12345, 1_000_000_007, u64::MAX] {
        let mut buf = Vec::new();
        push_decimal(&mut buf, n);
        assert_eq!(string_of(&buf), format!("{}", n));
    }
}

#[test]
fn hexadecimal_bytes() {
    assert_eq!(to_hex(&[]), "");
    assert_eq!(to_hex(&[0x00, 0x0f, 0xa0, 0xff, 0x5c]), "000fa0ff5c");
    for b in 0..=255u8 {
        assert_eq!(to_hex(&[b]), format!("{:02x}", b));
    }
}
