use sql_dialects::text::{clause_string, decimal_string, flag_str, join, to_chars};

#[test]
fn decimal_string_of_small_numbers() {
    assert_eq!(decimal_string(0), "0");
    assert_eq!(decimal_string(9), "9");
    assert_eq!(decimal_string(10), "10");
    assert_eq!(decimal_string(20), "20");
    assert_eq!(decimal_string(101), "101");
}

#[test]
fn decimal_string_of_the_greatest_number() {
    assert_eq!(decimal_string(u64::MAX), "18446744073709551615");
}

#[test]
fn decimal_string_agrees_with_display() {
    for n in (0..100000u64).chain([u64::MAX / 3, 1 << 40, 999_999_999_999]) {
        assert_eq!(decimal_string(n), n.to_string());
    }
}

#[test]
fn join_puts_the_separator_between() {
    let parts = vec!["a".to_string(), "b".to_string(), "c".to_string()];
    assert_eq!(join(&parts, ", "), "a, b, c");
    assert_eq!(join(&parts, ","), "a,b,c");
    assert_eq!(join(&parts, ""), "abc");
}

#[test]
fn join_of_few_parts() {
    assert_eq!(join(&vec![], ", "), "");
    assert_eq!(join(&vec!["only".to_string()], ", "), "only");
    assert_eq!(join(&vec!["".to_string(), "".to_string()], "-"), "-");
}

#[test]
fn clause_string_writes_keyword_and_value() {
    assert_eq!(clause_string(" WHERE ", &Some("a = 1".to_string())), " WHERE a = 1");
    assert_eq!(clause_string(" WHERE ", &Some("".to_string())), " WHERE ");
    assert_eq!(clause_string(" WHERE ", &None), "");
}

#[test]
fn flag_str_writes_the_word_of_a_set_flag() {
    assert_eq!(flag_str(true, " IF EXISTS"), " IF EXISTS");
    assert_eq!(flag_str(false, " IF EXISTS"), "");
}

#[test]
fn to_chars_gives_the_characters() {
    assert_eq!(to_chars("a\u{e9}\u{4e2d}"), vec!['a', '\u{e9}', '\u{4e2d}']);
    assert_eq!(to_chars(""), Vec::<char>::new());
}
