use lek_backend::text::{id_to_string, parse_id};

#[test]
fn ids_are_written_in_decimal() {
    assert_eq!(id_to_string(0), "0");
    assert_eq!(id_to_string(7), "7");
    assert_eq!(id_to_string(10), "10");
    assert_eq!(id_to_string(1203), "1203");
    assert_eq!(id_to_string(-1), "-1");
    assert_eq!(id_to_string(-950), "-950");
    assert_eq!(id_to_string(i32::MAX), "2147483647");
    assert_eq!(id_to_string(i32::MIN), "-2147483648");
}

#[test]
fn ids_are_written_as_the_standard_library_writes_them() {
    for id in [0, 1, 9, 10, 99, 100, 12345, -1, -10, -12345, i32::MAX, i32::MIN, i32::MIN + 1] {
        assert_eq!(id_to_string(id), id.to_string());
    }
}

#[test]
fn decimal_text_reads_back() {
    assert_eq!(parse_id("0"), Some(0));
    assert_eq!(parse_id("42"), Some(42));
    assert_eq!(parse_id("+42"), Some(42));
    assert_eq!(parse_id("-42"), Some(-42));
    assert_eq!(parse_id("-0"), Some(0));
    assert_eq!(parse_id("007"), Some(7));
    assert_eq!(parse_id("2147483647"), Some(i32::MAX));
    assert_eq!(parse_id("-2147483648"), Some(i32::MIN));
    assert_eq!(parse_id("00000000000000000002147483647"), Some(i32::MAX));
}

#[test]
fn other_text_is_no_id() {
    for text in [
        "", "-", "+", "+-1", "--1", "1-", "12a", "a12", " 12", "12 ", "1 2", "1.0", "0x10",
        "2147483648", "-2147483649", "99999999999999999999", "١٢", "12\u{0}", "é",
    ] {
        assert_eq!(parse_id(text), None, "{:?}", text);
    }
}

#[test]
fn reading_agrees_with_the_standard_library() {
    for text in [
        "", "-", "+", "0", "-0", "+0", "12", "+12", "-12", "2147483647", "2147483648",
        "-2147483648", "-2147483649", "1e3", "１２", "12\n", "0012", "--12",
    ] {
        assert_eq!(parse_id(text), text.parse::<i32>().ok(), "{:?}", text);
    }
}

#[test]
fn every_id_reads_back_from_its_text() {
    for id in [0, 1, -1, 10, -10, 123456789, -123456789, i32::MAX, i32::MIN] {
        assert_eq!(parse_id(&id_to_string(id)), Some(id));
    }
}
