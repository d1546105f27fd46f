use rustarok_client::console_args::{int_param_ok, parse_i32, parse_resolution};

#[test]
fn parses_like_std() {
    let cases = [
        "0", "42", "-42", "+7", "", "-", "+", "12a", " 1", "2147483647", "2147483648",
        "-2147483648", "-2147483649", "00012", "99999999999999999999", "-0", "1-2", "٣",
    ];
    for c in cases.iter() {
        assert_eq!(parse_i32(c), c.parse::<i32>().ok(), "input {:?}", c);
    }
}

#[test]
fn resolutions() {
    assert_eq!(parse_resolution("1024x768@60"), Some((1024, 768, 60)));
    assert_eq!(parse_resolution("1024x768@60@75"), Some((1024, 768, 60)));
    assert_eq!(parse_resolution("1024x768@60x5"), Some((1024, 768, 60)));
    assert_eq!(parse_resolution("1024x768"), None);
    assert_eq!(parse_resolution("1024"), None);
    assert_eq!(parse_resolution("ax768@60"), None);
    assert_eq!(parse_resolution("800x600@"), None);
}

#[test]
fn int_parameters() {
    assert!(int_param_ok(Some("12"), true));
    assert!(!int_param_ok(Some("x"), false));
    assert!(int_param_ok(None, false));
    assert!(!int_param_ok(None, true));
}
