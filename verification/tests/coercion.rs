use opcodes_db::coerce::{
    bool_from_int, bool_from_int_str, opt_bool_from_opt_int, opt_bool_from_opt_int_str,
};
use opcodes_db::error::ErrorKind;

#[test]
fn required_int_zero_is_false() {
    assert_eq!(bool_from_int(0), Ok(false));
}

#[test]
fn required_int_one_is_true() {
    assert_eq!(bool_from_int(1), Ok(true));
}

#[test]
fn required_int_rejects_other_integers_naming_them() {
    assert_eq!(bool_from_int(2), Err(ErrorKind::CoercionInt { value: 2 }));
    assert_eq!(bool_from_int(-1), Err(ErrorKind::CoercionInt { value: -1 }));
    assert_eq!(bool_from_int(255), Err(ErrorKind::CoercionInt { value: 255 }));
    assert_eq!(
        bool_from_int(i64::MAX),
        Err(ErrorKind::CoercionInt { value: i64::MAX })
    );
}

#[test]
fn required_str_zero_is_false() {
    assert_eq!(bool_from_int_str("0"), Ok(false));
}

#[test]
fn required_str_one_is_true() {
    assert_eq!(bool_from_int_str("1"), Ok(true));
}

#[test]
fn required_str_rejects_other_strings_naming_them() {
    assert_eq!(
        bool_from_int_str("2"),
        Err(ErrorKind::CoercionStr { value: "2".to_string() })
    );
    assert_eq!(
        bool_from_int_str(""),
        Err(ErrorKind::CoercionStr { value: "".to_string() })
    );
    assert_eq!(
        bool_from_int_str("true"),
        Err(ErrorKind::CoercionStr { value: "true".to_string() })
    );
    assert_eq!(
        bool_from_int_str("01"),
        Err(ErrorKind::CoercionStr { value: "01".to_string() })
    );
}

#[test]
fn optional_int_absent_is_not_present() {
    assert_eq!(opt_bool_from_opt_int(None), Ok(None));
}

#[test]
fn optional_int_present_coerces() {
    assert_eq!(opt_bool_from_opt_int(Some(0)), Ok(Some(false)));
    assert_eq!(opt_bool_from_opt_int(Some(1)), Ok(Some(true)));
    assert_eq!(
        opt_bool_from_opt_int(Some(7)),
        Err(ErrorKind::CoercionInt { value: 7 })
    );
}

#[test]
fn optional_str_absent_is_not_present() {
    assert_eq!(opt_bool_from_opt_int_str(None), Ok(None));
}

#[test]
fn optional_str_present_coerces() {
    assert_eq!(opt_bool_from_opt_int_str(Some("0")), Ok(Some(false)));
    assert_eq!(opt_bool_from_opt_int_str(Some("1")), Ok(Some(true)));
    assert_eq!(
        opt_bool_from_opt_int_str(Some("no")),
        Err(ErrorKind::CoercionStr { value: "no".to_string() })
    );
}
