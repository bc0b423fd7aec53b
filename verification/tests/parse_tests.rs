use vello_bench2::list_parse::{chars_of, parse_list, parse_value_u16, parse_value_usize};
use vello_bench2::sorted_set::sorted_distinct;
use vello_bench2::text::{str_equals, u64_to_decimal};

#[test]
fn parse_list_splits_on_commas_and_whitespace() {
    assert_eq!(parse_list("1,2 3\t4\n5,,  6", "counts"), Ok(vec![1, 2, 3, 4, 5, 6]));
}

#[test]
fn parse_list_of_separators_is_empty() {
    assert_eq!(parse_list("", "counts"), Ok(vec![]));
    assert_eq!(parse_list(" , \r\n", "counts"), Ok(vec![]));
}

#[test]
fn parse_list_accepts_plus_sign() {
    assert_eq!(parse_list("+5, 007", "counts"), Ok(vec![5, 7]));
}

#[test]
fn parse_list_rejects_signs_and_junk() {
    assert_eq!(parse_list("1, -1", "counts"), Err("invalid counts value: -1".to_string()));
    assert_eq!(parse_list("+", "counts"), Err("invalid counts value: +".to_string()));
    assert_eq!(parse_list("1;2", "counts"), Err("invalid counts value: 1;2".to_string()));
}

#[test]
fn parse_list_rejects_overflow() {
    let max = usize::MAX.to_string();
    assert_eq!(parse_list(&max, "n"), Ok(vec![usize::MAX]));
    let over = format!("{}0", usize::MAX);
    assert_eq!(parse_list(&over, "n"), Err(format!("invalid n value: {over}")));
}

#[test]
fn parse_value_bounds() {
    assert_eq!(parse_value_u16("65535", "size"), Ok(65535));
    assert_eq!(parse_value_u16("65536", "size"), Err("invalid size".to_string()));
    assert_eq!(parse_value_u16("", "size"), Err("invalid size".to_string()));
    assert_eq!(parse_value_usize("+12", "frames"), Ok(12));
    assert_eq!(parse_value_usize("1 2", "frames"), Err("invalid frames".to_string()));
}

#[test]
fn decimal_rendering() {
    assert_eq!(u64_to_decimal(0), "0");
    assert_eq!(u64_to_decimal(1234567890), "1234567890");
    assert_eq!(u64_to_decimal(u64::MAX), u64::MAX.to_string());
}

#[test]
fn decimal_round_trips_through_parse() {
    for n in [0usize, 9, 10, 4096, 1_000_000] {
        let text = u64_to_decimal(n as u64);
        assert_eq!(parse_value_usize(&text, "n"), Ok(n));
    }
}

#[test]
fn string_helpers() {
    assert!(str_equals("abc", "abc"));
    assert!(!str_equals("abc", "abd"));
    assert_eq!(chars_of("a×b"), vec!['a', '×', 'b']);
}

#[test]
fn sorted_distinct_sorts_and_dedups() {
    assert_eq!(sorted_distinct(&vec![5, 1, 5, 3, 1]), vec![1, 3, 5]);
    assert_eq!(sorted_distinct(&vec![]), Vec::<usize>::new());
}
