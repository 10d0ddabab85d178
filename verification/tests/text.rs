use language_tour::text::{
    add_item, emit, push_integer, push_joined, push_list, push_numbers, push_quoted, push_truth,
    push_unsigned, quote_each, separates, split_words,
};

fn owned(items: &[&str]) -> Vec<String> {
    items.iter().map(|item| String::from(*item)).collect()
}

fn unsigned(n: u64) -> String {
    let mut s = String::new();
    push_unsigned(&mut s, n);
    s
}

fn integer(i: i64) -> String {
    let mut s = String::new();
    push_integer(&mut s, i);
    s
}

#[test]
fn unsigned_numbers_are_written_without_leading_zeros() {
    assert_eq!(unsigned(0), "0");
    assert_eq!(unsigned(7), "7");
    assert_eq!(unsigned(10), "10");
    assert_eq!(unsigned(100_000), "100000");
    assert_eq!(unsigned(1_000_000_007), "1000000007");
    assert_eq!(unsigned(u64::MAX), "18446744073709551615");
}

#[test]
fn integers_carry_a_minus_sign_below_zero() {
    assert_eq!(integer(0), "0");
    assert_eq!(integer(-1), "-1");
    assert_eq!(integer(-123), "-123");
    assert_eq!(integer(42), "42");
    assert_eq!(integer(i64::MAX), "9223372036854775807");
    assert_eq!(integer(i64::MIN), "-9223372036854775808");
}

#[test]
fn numbers_are_appended_to_what_is_there() {
    let mut s = String::from("n = ");
    push_integer(&mut s, -5);
    push_unsigned(&mut s, 60);
    assert_eq!(s, "n = -560");
}

#[test]
fn numerals_agree_with_the_standard_library() {
    for n in [0u64, 9, 10, 99, 100, 101, 999, 1000, 65_535, 4_294_967_296] {
        assert_eq!(unsigned(n), n.to_string());
    }
    for i in [-4_294_967_296i64, -1000, -10, -9, 9, 10, 2_147_483_647] {
        assert_eq!(integer(i), i.to_string());
    }
}

#[test]
fn truth_values_are_written_in_words() {
    let mut s = String::new();
    push_truth(&mut s, true);
    s.push('/');
    push_truth(&mut s, false);
    assert_eq!(s, "true/false");
}

#[test]
fn quoting_puts_the_text_between_double_quotes() {
    let mut s = String::from("say ");
    push_quoted(&mut s, "hello");
    push_quoted(&mut s, "");
    assert_eq!(s, "say \"hello\"\"\"");
}

#[test]
fn joining_puts_the_separator_between_neighbours_only() {
    let mut s = String::from(">");
    push_joined(&mut s, &owned(&["a", "b", "c"]), "--");
    assert_eq!(s, ">a--b--c");
    let mut s = String::new();
    push_joined(&mut s, &owned(&["alone"]), ", ");
    assert_eq!(s, "alone");
    let mut s = String::from("kept");
    push_joined(&mut s, &owned(&[]), ", ");
    assert_eq!(s, "kept");
    let mut s = String::new();
    push_joined(&mut s, &owned(&["", "", ""]), "+");
    assert_eq!(s, "++");
}

#[test]
fn lists_stand_in_square_brackets() {
    let mut s = String::new();
    push_list(&mut s, &owned(&[]));
    push_list(&mut s, &owned(&["x"]));
    push_list(&mut s, &owned(&["x", "y"]));
    assert_eq!(s, "[][x][x, y]");
}

#[test]
fn number_lists_are_written_as_the_standard_library_writes_them() {
    for values in [vec![], vec![0], vec![-1, 1], vec![i32::MIN, 0, i32::MAX], vec![150, 82, 107]] {
        let mut s = String::new();
        push_numbers(&mut s, &values);
        assert_eq!(s, format!("{:?}", values));
    }
}

#[test]
fn each_item_is_quoted_by_itself() {
    assert_eq!(quote_each(&owned(&["a", "", "b c"])), owned(&["\"a\"", "\"\"", "\"b c\""]));
    assert!(quote_each(&owned(&[])).is_empty());
}

#[test]
fn words_are_the_runs_between_white_space() {
    assert_eq!(split_words("hello world"), owned(&["hello", "world"]));
    assert_eq!(split_words("  hello   world  "), owned(&["hello", "world"]));
    assert_eq!(split_words("one"), owned(&["one"]));
    assert_eq!(split_words("a\tb\nc\r\nd"), owned(&["a", "b", "c", "d"]));
    assert!(split_words("").is_empty());
    assert!(split_words(" \t\n").is_empty());
}

#[test]
fn words_are_split_as_the_standard_library_splits_them() {
    let texts = [
        "the quick  brown\tfox",
        " leading",
        "trailing ",
        "\u{a0}no-break\u{2003}em\u{3000}ideographic\u{85}next",
        "z\u{200b}w",
        "\u{2124} \u{1f63b}",
    ];
    for text in texts {
        let expected: Vec<String> = text.split_whitespace().map(String::from).collect();
        assert_eq!(split_words(text), expected, "text {:?}", text);
    }
}

#[test]
fn white_space_is_what_the_standard_library_calls_white_space() {
    for code in 0..0x3100u32 {
        if let Some(c) = char::from_u32(code) {
            assert_eq!(separates(c), c.is_whitespace(), "code {:#x}", code);
        }
    }
    assert!(!separates('\u{1f63b}'));
    assert!(!separates('\u{10ffff}'));
}

#[test]
fn items_and_lines_are_added_at_the_end() {
    let mut items = owned(&["first"]);
    add_item(&mut items, String::from("second"));
    emit(&mut items, String::from("third"));
    assert_eq!(items, owned(&["first", "second", "third"]));
}
