//! Tests of the icon-source descriptor parser.

use mute_indicator::error::IndicatorError;
use mute_indicator::icon::parse_icon_descriptor;

#[test]
fn path_and_index() {
    let src = parse_icon_descriptor(r"C:\Windows\system32\mmres.dll,3").unwrap();
    assert_eq!(src.path, r"C:\Windows\system32\mmres.dll");
    assert_eq!(src.index, 3);
}

#[test]
fn no_comma_is_malformed() {
    let r = parse_icon_descriptor(r"C:\Windows\system32\mmres.dll");
    assert_eq!(r.unwrap_err(), IndicatorError::InvalidIconDescriptor);
}

#[test]
fn empty_descriptor_is_malformed() {
    let r = parse_icon_descriptor("");
    assert_eq!(r.unwrap_err(), IndicatorError::InvalidIconDescriptor);
}

#[test]
fn empty_index_defaults_to_zero() {
    let src = parse_icon_descriptor("shell32.dll,").unwrap();
    assert_eq!(src.path, "shell32.dll");
    assert_eq!(src.index, 0);
}

#[test]
fn negative_index() {
    let src = parse_icon_descriptor("shell32.dll,-21").unwrap();
    assert_eq!(src.path, "shell32.dll");
    assert_eq!(src.index, -21);
}

#[test]
fn explicit_plus_sign() {
    let src = parse_icon_descriptor("a.dll,+7").unwrap();
    assert_eq!(src.index, 7);
}

#[test]
fn bare_sign_is_malformed() {
    assert_eq!(parse_icon_descriptor("a.dll,-").unwrap_err(), IndicatorError::InvalidIconDescriptor);
    assert_eq!(parse_icon_descriptor("a.dll,+").unwrap_err(), IndicatorError::InvalidIconDescriptor);
}

#[test]
fn non_numeric_index_is_malformed() {
    assert_eq!(
        parse_icon_descriptor("a.dll,x7").unwrap_err(),
        IndicatorError::InvalidIconDescriptor
    );
    assert_eq!(
        parse_icon_descriptor("a.dll,7x").unwrap_err(),
        IndicatorError::InvalidIconDescriptor
    );
    assert_eq!(
        parse_icon_descriptor("a.dll, 7").unwrap_err(),
        IndicatorError::InvalidIconDescriptor
    );
}

#[test]
fn empty_path_is_accepted() {
    let src = parse_icon_descriptor(",5").unwrap();
    assert_eq!(src.path, "");
    assert_eq!(src.index, 5);
}

#[test]
fn text_after_second_comma_is_ignored() {
    let src = parse_icon_descriptor("a.dll,5,junk").unwrap();
    assert_eq!(src.path, "a.dll");
    assert_eq!(src.index, 5);
}

#[test]
fn empty_index_before_second_comma_defaults_to_zero() {
    let src = parse_icon_descriptor("a.dll,,junk").unwrap();
    assert_eq!(src.path, "a.dll");
    assert_eq!(src.index, 0);
}

#[test]
fn index_extremes_fit() {
    assert_eq!(parse_icon_descriptor("a,2147483647").unwrap().index, 2147483647);
    assert_eq!(parse_icon_descriptor("a,-2147483648").unwrap().index, -2147483648);
}

#[test]
fn index_out_of_range_is_malformed() {
    assert_eq!(
        parse_icon_descriptor("a,2147483648").unwrap_err(),
        IndicatorError::InvalidIconDescriptor
    );
    assert_eq!(
        parse_icon_descriptor("a,-2147483649").unwrap_err(),
        IndicatorError::InvalidIconDescriptor
    );
    assert_eq!(
        parse_icon_descriptor("a,99999999999999999999").unwrap_err(),
        IndicatorError::InvalidIconDescriptor
    );
}

#[test]
fn leading_zeroes_are_fine() {
    assert_eq!(parse_icon_descriptor("a,000000000000000000042").unwrap().index, 42);
}

#[test]
fn non_ascii_path_is_kept() {
    let src = parse_icon_descriptor("Gerät-Symbole.dll,1").unwrap();
    assert_eq!(src.path, "Gerät-Symbole.dll");
    assert_eq!(src.index, 1);
}
