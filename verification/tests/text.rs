use async_pub_sub::text::joined;
use async_pub_sub::Describe;

#[test]
fn joined_puts_the_tail_after_the_head() {
    assert_eq!(joined("Calculator", "Message"), "CalculatorMessage");
    assert_eq!(joined("", "tail"), "tail");
    assert_eq!(joined("head", ""), "head");
    assert_eq!(joined("", ""), "");
}

#[test]
fn integers_are_written_in_decimal() {
    assert_eq!(0.describe(), "0");
    assert_eq!(7.describe(), "7");
    assert_eq!(10.describe(), "10");
    assert_eq!(42.describe(), "42");
    assert_eq!((-1).describe(), "-1");
    assert_eq!((-120).describe(), "-120");
    assert_eq!(1234567890.describe(), "1234567890");
    assert_eq!(i32::MAX.describe(), "2147483647");
    assert_eq!(i32::MIN.describe(), "-2147483648");
    for value in [-1000, -99, -10, -9, 9, 99, 100, 101, 65536] {
        assert_eq!(value.describe(), value.to_string());
    }
}

#[test]
fn strings_are_their_own_text() {
    assert_eq!("hello".describe(), "hello");
    assert_eq!(String::from("Hello, World!").describe(), "Hello, World!");
    assert_eq!("".describe(), "");
}
