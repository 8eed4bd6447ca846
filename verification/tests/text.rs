use polygon_client::text::{join_with, pick_first, push_decimal};

fn decimal_of(n: u32) -> String {
    let mut out = String::new();
    push_decimal(&mut out, n);
    out
}

#[test]
fn decimal_numerals() {
    assert_eq!(decimal_of(0), "0");
    assert_eq!(decimal_of(1), "1");
    assert_eq!(decimal_of(9), "9");
    assert_eq!(decimal_of(10), "10");
    assert_eq!(decimal_of(11), "11");
    assert_eq!(decimal_of(99), "99");
    assert_eq!(decimal_of(100), "100");
    assert_eq!(decimal_of(101), "101");
    assert_eq!(decimal_of(1234567890), "1234567890");
    assert_eq!(decimal_of(4294967295), "4294967295");
}

#[test]
fn decimal_agrees_with_the_standard_formatting() {
    let mut n: u32 = 0;
    for _ in 0..2000 {
        assert_eq!(decimal_of(n), format!("{}", n));
        n = n.wrapping_mul(1664525).wrapping_add(1013904223);
    }
    for n in 0..1200u32 {
        assert_eq!(decimal_of(n), format!("{}", n));
    }
}

#[test]
fn decimal_is_written_at_the_end() {
    let mut out = String::from("range/");
    push_decimal(&mut out, 42);
    assert_eq!(out, "range/42");
    push_decimal(&mut out, 0);
    assert_eq!(out, "range/420");
}

#[test]
fn join_puts_the_separator_between_neighbours() {
    let none: [&str; 0] = [];
    assert_eq!(join_with(&none, ","), "");
    assert_eq!(join_with(&["a"], ","), "a");
    assert_eq!(join_with(&["a", "b"], ","), "a,b");
    assert_eq!(join_with(&["a", "b", "c"], ","), "a,b,c");
    assert_eq!(join_with(&["c", "b", "a"], ","), "c,b,a");
    assert_eq!(join_with(&["a", "", "c"], ","), "a,,c");
    assert_eq!(join_with(&["", ""], ","), ",");
    assert_eq!(join_with(&["a", "b"], ""), "ab");
    assert_eq!(join_with(&["a", "b", "c"], " - "), "a - b - c");
}

#[test]
fn join_agrees_with_the_standard_join() {
    let parts = ["T.MSFT", "Q.*", "", "A.AAPL", "x,y"];
    for end in 0..=parts.len() {
        assert_eq!(join_with(&parts[..end], ","), parts[..end].join(","));
        assert_eq!(join_with(&parts[..end], "::"), parts[..end].join("::"));
    }
}

#[test]
fn the_first_setting_that_is_present_is_picked() {
    assert_eq!(pick_first(Some("a"), Some("b")), Some(String::from("a")));
    assert_eq!(pick_first(Some("a"), None), Some(String::from("a")));
    assert_eq!(pick_first(None, Some("b")), Some(String::from("b")));
    assert_eq!(pick_first(None, None), None);
    assert_eq!(pick_first(Some(""), Some("b")), Some(String::new()));
}
