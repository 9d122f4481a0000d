use galaxy::args::{has_flag, parse_arg, parse_arg_i32, parse_arg_u32, parse_arg_u64, parse_arg_usize};

fn argv(items: &[&str]) -> Vec<String> {
    items.iter().map(|s| s.to_string()).collect()
}

#[test]
fn value_follows_its_key() {
    let a = argv(&["galaxy", "--seed", "7", "--out", "x.png"]);
    assert_eq!(parse_arg(&a, "--seed"), Some("7".to_string()));
    assert_eq!(parse_arg(&a, "--out"), Some("x.png".to_string()));
    assert_eq!(parse_arg(&a, "--min"), None);
}

#[test]
fn first_occurrence_wins_and_last_key_has_no_value() {
    let a = argv(&["galaxy", "--seed", "7", "--seed", "9", "--arms"]);
    assert_eq!(parse_arg_u64(&a, "--seed"), Some(7));
    assert_eq!(parse_arg(&a, "--arms"), None);
    assert_eq!(parse_arg_usize(&a, "--arms"), None);
}

#[test]
fn unparsable_value_gives_none() {
    let a = argv(&["galaxy", "--seed", "abc", "--seed", "5"]);
    assert_eq!(parse_arg_u64(&a, "--seed"), None);
}

#[test]
fn integer_forms() {
    let a = argv(&["p", "--a", "+12", "--b", "-3", "--c", "18446744073709551616", "--d", "4294967295", "--e", ""]);
    assert_eq!(parse_arg_u64(&a, "--a"), Some(12));
    assert_eq!(parse_arg_u64(&a, "--b"), None);
    assert_eq!(parse_arg_i32(&a, "--b"), Some(-3));
    assert_eq!(parse_arg_u64(&a, "--c"), None);
    assert_eq!(parse_arg_u32(&a, "--d"), Some(u32::MAX));
    assert_eq!(parse_arg_i32(&a, "--d"), None);
    assert_eq!(parse_arg_usize(&a, "--e"), None);
    let b = argv(&["p", "--min", "-2147483648", "--max", "+", "--x", " 5"]);
    assert_eq!(parse_arg_i32(&b, "--min"), Some(i32::MIN));
    assert_eq!(parse_arg_i32(&b, "--max"), None);
    assert_eq!(parse_arg_i32(&b, "--x"), None);
    let c = argv(&["p", "--n", "-0", "--m", "+-5", "--k", "007"]);
    assert_eq!(parse_arg_u64(&c, "--n"), None);
    assert_eq!(parse_arg_i32(&c, "--n"), Some(0));
    assert_eq!(parse_arg_i32(&c, "--m"), None);
    assert_eq!(parse_arg_u32(&c, "--k"), Some(7));
}

#[test]
fn flags_anywhere() {
    let a = argv(&["galaxy", "--seed", "1", "--export-csv"]);
    assert!(has_flag(&a, "--export-csv"));
    assert!(!has_flag(&a, "--tui"));
    assert!(has_flag(&a, "galaxy"));
}
