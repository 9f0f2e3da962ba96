use buildtools::text::{decimal_string, split_on};

fn owned(items: &[&str]) -> Vec<String> {
    items.iter().map(|item| item.to_string()).collect()
}

#[test]
fn decimal_of_small_numbers() {
    assert_eq!(decimal_string(0), "0");
    assert_eq!(decimal_string(7), "7");
    assert_eq!(decimal_string(9), "9");
}

#[test]
fn decimal_of_numbers_with_several_digits() {
    assert_eq!(decimal_string(10), "10");
    assert_eq!(decimal_string(42), "42");
    assert_eq!(decimal_string(100), "100");
    assert_eq!(decimal_string(909), "909");
    assert_eq!(decimal_string(65535), "65535");
    assert_eq!(decimal_string(1234567890), "1234567890");
}

#[test]
fn decimal_of_the_largest_number() {
    assert_eq!(decimal_string(u64::MAX), "18446744073709551615");
    assert_eq!(decimal_string(u64::MAX), u64::MAX.to_string());
}

#[test]
fn split_at_one_space() {
    assert_eq!(split_on("--rev 1.21", ' '), owned(&["--rev", "1.21"]));
}

#[test]
fn split_without_separator_is_the_text() {
    assert_eq!(split_on("--remapped", ' '), owned(&["--remapped"]));
}

#[test]
fn split_of_the_empty_text_is_one_empty_piece() {
    assert_eq!(split_on("", ' '), owned(&[""]));
}

#[test]
fn split_keeps_empty_pieces() {
    assert_eq!(split_on("a  b", ' '), owned(&["a", "", "b"]));
    assert_eq!(split_on(" a", ' '), owned(&["", "a"]));
    assert_eq!(split_on("a ", ' '), owned(&["a", ""]));
    assert_eq!(split_on(" ", ' '), owned(&["", ""]));
    assert_eq!(split_on("   ", ' '), owned(&["", "", "", ""]));
}

#[test]
fn split_counts_characters_not_bytes() {
    assert_eq!(split_on("é ü", ' '), owned(&["é", "ü"]));
    assert_eq!(split_on("日本 語", ' '), owned(&["日本", "語"]));
    assert_eq!(split_on("a,b,,c", ','), owned(&["a", "b", "", "c"]));
}

#[test]
fn split_agrees_with_the_standard_split() {
    let samples = [
        "",
        " ",
        "a",
        "a b",
        " a b ",
        "--final-name my  server.jar",
        "--compile ",
        "x  y   z",
    ];
    for sample in samples.iter() {
        let expected: Vec<String> = sample.split(' ').map(|piece| piece.to_string()).collect();
        assert_eq!(split_on(sample, ' '), expected);
    }
}

#[test]
fn joining_the_pieces_gives_the_text_back() {
    let samples = ["", " ", "a b", " a  b ", "--rev 1.21"];
    for sample in samples.iter() {
        let pieces = split_on(sample, ' ');
        assert!(pieces.iter().all(|piece| !piece.contains(' ')));
        assert_eq!(pieces.join(" "), *sample);
    }
}
