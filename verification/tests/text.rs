use polymarket_hft_bot::text::{
    clone_numbers, clone_strings, text_of_two, text_of_three, decimal_text, join_words, parse_index,
};

#[test]
fn decimal_text_of_small_and_large_numbers() {
    assert_eq!(decimal_text(0), "0");
    assert_eq!(decimal_text(7), "7");
    assert_eq!(decimal_text(10), "10");
    assert_eq!(decimal_text(1203), "1203");
    assert_eq!(decimal_text(u64::MAX as u128), "18446744073709551615");
    assert_eq!(decimal_text(u64::MAX as u128 + 1), "18446744073709551616");
    assert_eq!(decimal_text(u128::MAX), u128::MAX.to_string());
}

#[test]
fn parse_index_reads_unsigned_numbers() {
    assert_eq!(parse_index("3"), Some(3));
    assert_eq!(parse_index("0"), Some(0));
    assert_eq!(parse_index("007"), Some(7));
    assert_eq!(parse_index("+5"), Some(5));
    assert_eq!(parse_index(&usize::MAX.to_string()), Some(usize::MAX));
}

#[test]
fn parse_index_refuses_everything_else() {
    assert_eq!(parse_index(""), None);
    assert_eq!(parse_index("+"), None);
    assert_eq!(parse_index("-3"), None);
    assert_eq!(parse_index("3a"), None);
    assert_eq!(parse_index(" 3"), None);
    assert_eq!(parse_index("3 "), None);
    assert_eq!(parse_index("1_000"), None);
    assert_eq!(parse_index("0x1f"), None);
    assert_eq!(parse_index("++1"), None);
    assert_eq!(parse_index("99999999999999999999999999"), None);
    assert_eq!(parse_index("١٢"), None);
}

#[test]
fn parse_index_agrees_with_std() {
    for s in ["12", "+12", "-12", "", "+", "abc", "18446744073709551615", "18446744073709551616", "00", "1 2"] {
        assert_eq!(parse_index(s), s.parse::<usize>().ok(), "on {:?}", s);
    }
}

#[test]
fn join_words_uses_single_spaces() {
    let words: Vec<String> = vec!["a".into(), "bc".into(), "d".into()];
    assert_eq!(join_words(&words, 0), "a bc d");
    assert_eq!(join_words(&words, 1), "bc d");
    assert_eq!(join_words(&words, 2), "d");
    assert_eq!(join_words(&words, 3), "");
}

#[test]
fn concat_puts_texts_one_after_the_other() {
    assert_eq!(text_of_two("ab", "cd"), "abcd");
    assert_eq!(text_of_three("a", "", "c"), "ac");
}

#[test]
fn clones_hold_the_same_items() {
    let words: Vec<String> = vec!["x".into(), "y".into()];
    assert_eq!(clone_strings(&words), words);
    let numbers: Vec<u64> = vec![1, 2, 3];
    assert_eq!(clone_numbers(&numbers), numbers);
}
