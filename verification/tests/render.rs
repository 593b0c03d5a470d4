use syscall_trace::render::join;
use syscall_trace::render::push_decimal;
use syscall_trace::render::push_hexadecimal;
use syscall_trace::render::push_signed_decimal;
use syscall_trace::render::render_address;
use syscall_trace::render::render_integer;

#[test]
fn integers_are_shown_in_decimal() {
    assert_eq!(render_integer(0), "0");
    assert_eq!(render_integer(5), "5");
    assert_eq!(render_integer(9), "9");
    assert_eq!(render_integer(10), "10");
    assert_eq!(render_integer(42), "42");
    assert_eq!(render_integer(1_000_000), "1000000");
    assert_eq!(render_integer(u64::MAX), "18446744073709551615");
}

#[test]
fn decimal_agrees_with_the_standard_formatting() {
    let mut value: u64 = 1;
    for _ in 0..64 {
        assert_eq!(render_integer(value), format!("{}", value));
        assert_eq!(render_integer(value - 1), format!("{}", value - 1));
        value = value.wrapping_mul(2);
    }
}

#[test]
fn addresses_are_shown_in_hexadecimal() {
    assert_eq!(render_address(0), "0x0");
    assert_eq!(render_address(9), "0x9");
    assert_eq!(render_address(10), "0xa");
    assert_eq!(render_address(15), "0xf");
    assert_eq!(render_address(16), "0x10");
    assert_eq!(render_address(255), "0xff");
    assert_eq!(render_address(0x7ffd_5a3c_1000), "0x7ffd5a3c1000");
    assert_eq!(render_address(u64::MAX), "0xffffffffffffffff");
}

#[test]
fn hexadecimal_agrees_with_the_standard_formatting() {
    let mut value: u64 = 1;
    for _ in 0..64 {
        assert_eq!(render_address(value), format!("{:#x}", value));
        assert_eq!(render_address(value - 1), format!("{:#x}", value - 1));
        value = value.wrapping_mul(2);
    }
}

#[test]
fn digits_are_appended_to_what_is_there() {
    let mut text = String::from("n=");
    push_decimal(&mut text, 120);
    text.push(' ');
    push_hexadecimal(&mut text, 0xbeef);
    assert_eq!(text, "n=120 beef");
}

#[test]
fn a_negative_number_has_its_sign() {
    let mut text = String::new();
    push_signed_decimal(&mut text, -1);
    assert_eq!(text, "-1");
    let mut text = String::new();
    push_signed_decimal(&mut text, 0);
    assert_eq!(text, "0");
    let mut text = String::new();
    push_signed_decimal(&mut text, 31337);
    assert_eq!(text, "31337");
    let mut text = String::new();
    push_signed_decimal(&mut text, i64::MAX);
    assert_eq!(text, "9223372036854775807");
    let mut text = String::new();
    push_signed_decimal(&mut text, i64::MIN);
    assert_eq!(text, "-9223372036854775808");
}

#[test]
fn an_empty_list_joins_to_nothing() {
    assert_eq!(join(&Vec::new()), "");
}

#[test]
fn a_single_item_has_no_separator() {
    assert_eq!(join(&vec![String::from("3")]), "3");
}

#[test]
fn items_are_joined_with_a_comma_and_a_space() {
    let parts = vec![String::from("3"), String::from("0x7ffd1000"), String::from("5")];
    assert_eq!(join(&parts), "3, 0x7ffd1000, 5");
}

#[test]
fn an_empty_item_keeps_its_place() {
    let parts = vec![String::from("a"), String::new(), String::from("b")];
    assert_eq!(join(&parts), "a, , b");
}
