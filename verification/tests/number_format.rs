use rustarok_client::number_format::{itoa, write_into_str, write_into_str2};

fn convert_to_str(a: ([u8; 14], usize), len_with_padding: usize) -> String {
    let mut ret = String::with_capacity(14);
    write_into_str2(a, &mut ret, len_with_padding);
    ret
}

#[test]
fn test_itoa() {
    assert_eq!(&convert_to_str(itoa(12), 0), "12");
    assert_eq!(&convert_to_str(itoa(123), 0), "123");
    assert_eq!(&convert_to_str(itoa(1234), 0), "1 234");
    assert_eq!(&convert_to_str(itoa(12345), 0), "12 345");
    assert_eq!(&convert_to_str(itoa(123456), 0), "123 456");
    assert_eq!(&convert_to_str(itoa(1234567), 0), "1 234 567");
    assert_eq!(&convert_to_str(itoa(12345678), 0), "12 345 678");
    assert_eq!(&convert_to_str(itoa(123456789), 0), "123 456 789");
}

#[test]
fn itoa_extremes() {
    assert_eq!(&convert_to_str(itoa(i32::MAX), 0), "2 147 483 647");
    assert_eq!(itoa(i32::MAX).1, 1);
    assert_eq!(itoa(0).1, 14);
    assert_eq!(&convert_to_str(itoa(0), 0), "");
    assert_eq!(&convert_to_str(itoa(-5), 3), "   ");
    assert_eq!(itoa(7).0, *b"             7");
}

#[test]
fn padding_widens() {
    let mut s = String::from(">");
    write_into_str(42, &mut s, 5);
    assert_eq!(s, ">   42");
    let mut t = String::new();
    write_into_str(1000, &mut t, 2);
    assert_eq!(t, "1 000");
}
