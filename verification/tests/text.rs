use qjs_repl::text::{format_integer, join_strings};

fn strings(parts: &[&str]) -> Vec<String> {
    parts.iter().map(|p| p.to_string()).collect()
}

#[test]
fn join_of_nothing_is_empty() {
    assert_eq!(join_strings(&strings(&[]), ", "), "");
}

#[test]
fn join_of_one_part_has_no_separator() {
    assert_eq!(join_strings(&strings(&["a"]), ", "), "a");
}

#[test]
fn join_puts_the_separator_between_neighbours_only() {
    assert_eq!(join_strings(&strings(&["a", "b", "c"]), ", "), "a, b, c");
    assert_eq!(join_strings(&strings(&["a", "b"]), " "), "a b");
}

#[test]
fn join_keeps_empty_parts() {
    assert_eq!(join_strings(&strings(&["", "", ""]), "-"), "--");
    assert_eq!(join_strings(&strings(&["", "x"]), ", "), ", x");
}

#[test]
fn join_with_empty_separator_concatenates() {
    assert_eq!(join_strings(&strings(&["ab", "cd"]), ""), "abcd");
}

#[test]
fn join_agrees_with_the_standard_join() {
    let parts = strings(&["one", "", "three", "4"]);
    assert_eq!(join_strings(&parts, ", "), parts.join(", "));
}

#[test]
fn integer_zero_is_a_single_digit() {
    assert_eq!(format_integer(0), "0");
}

#[test]
fn integer_has_no_leading_zero() {
    assert_eq!(format_integer(10), "10");
    assert_eq!(format_integer(1000), "1000");
    assert_eq!(format_integer(907), "907");
}

#[test]
fn integer_sign_is_preserved() {
    assert_eq!(format_integer(-9), "-9");
    assert_eq!(format_integer(-10), "-10");
    assert_eq!(format_integer(-2147483648), "-2147483648");
}

#[test]
fn integer_text_agrees_with_the_standard_conversion() {
    let samples: [i32; 12] =
        [0, 1, -1, 9, 10, 11, 99, 100, 12345, -98765, i32::MAX, i32::MIN];
    for n in samples {
        assert_eq!(format_integer(n), n.to_string());
    }
}

#[test]
fn integer_text_reads_back_as_the_integer() {
    let samples: [i32; 6] = [0, 5, -5, 1234567, i32::MAX, i32::MIN];
    for n in samples {
        assert_eq!(format_integer(n).parse::<i32>().unwrap(), n);
    }
}
