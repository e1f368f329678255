//! Scalar coercion layer: strict conversions from the catalogue's two
//! boolean encodings (integer `0`/`1` and string `"0"`/`"1"`) to `bool`,
//! with and without optionality.
//!
//! All four conversions are pure and total: they inspect exactly one scalar
//! and either return the boolean it denotes or reject it, naming the
//! offending value.

use vstd::prelude::*;

use crate::error::{ErrorKind, ErrorKindV};
use crate::value::{res_view, str_eq};

verus! {

/// What [`bool_from_int`] returns: `0` and `1` are the only legal
/// representations, and any other integer is rejected by name.
pub open spec fn spec_bool_from_int(v: i64) -> Result<bool, ErrorKindV> {
    if v == 0 {
        Ok(false)
    } else if v == 1 {
        Ok(true)
    } else {
        Err(ErrorKindV::CoercionInt { value: v as int })
    }
}

/// What [`opt_bool_from_opt_int`] returns: an absent scalar stays absent and
/// is never inspected; a present scalar is coerced as [`spec_bool_from_int`].
pub open spec fn spec_opt_bool_from_opt_int(v: Option<i64>) -> Result<Option<bool>, ErrorKindV> {
    match v {
        None => Ok(None),
        Some(i) => match spec_bool_from_int(i) {
            Ok(b) => Ok(Some(b)),
            Err(k) => Err(k),
        },
    }
}

/// What [`bool_from_int_str`] returns: the strings `"0"` and `"1"` are the
/// only legal representations, and any other string is rejected by name.
pub open spec fn spec_bool_from_int_str(s: Seq<char>) -> Result<bool, ErrorKindV> {
    if s == "0"@ {
        Ok(false)
    } else if s == "1"@ {
        Ok(true)
    } else {
        Err(ErrorKindV::CoercionStr { value: s })
    }
}

/// What [`opt_bool_from_opt_int_str`] returns: an absent scalar stays
/// absent; a present one is coerced as [`spec_bool_from_int_str`].
pub open spec fn spec_opt_bool_from_opt_int_str(s: Option<Seq<char>>) -> Result<
    Option<bool>,
    ErrorKindV,
> {
    match s {
        None => Ok(None),
        Some(t) => match spec_bool_from_int_str(t) {
            Ok(b) => Ok(Some(b)),
            Err(k) => Err(k),
        },
    }
}

/// Required, integer-encoded boolean: accepts exactly `0` and `1`.
pub fn bool_from_int(v: i64) -> (r: Result<bool, ErrorKind>)
    ensures
        res_view(r) == spec_bool_from_int(v),
        v == 0 || v == 1 ==> r == Ok::<bool, ErrorKind>(v == 1),
        !(v == 0 || v == 1) ==> r == Err::<bool, ErrorKind>(ErrorKind::CoercionInt { value: v }),
{
    if v == 0 {
        Ok(false)
    } else if v == 1 {
        Ok(true)
    } else {
        Err(ErrorKind::CoercionInt { value: v })
    }
}

/// Optional, integer-encoded boolean: absence yields "not present" without
/// any coercion check; a present integer is coerced as [`bool_from_int`].
pub fn opt_bool_from_opt_int(v: Option<i64>) -> (r: Result<Option<bool>, ErrorKind>)
    ensures
        res_view(r) == spec_opt_bool_from_opt_int(v),
        v is None ==> r == Ok::<Option<bool>, ErrorKind>(None),
{
    match v {
        None => Ok(None),
        Some(i) => match bool_from_int(i) {
            Ok(b) => Ok(Some(b)),
            Err(k) => Err(k),
        },
    }
}

/// Required, string-encoded boolean: accepts exactly `"0"` and `"1"`.
pub fn bool_from_int_str(s: &str) -> (r: Result<bool, ErrorKind>)
    ensures
        res_view(r) == spec_bool_from_int_str(s@),
        s@ == "0"@ || s@ == "1"@ ==> r == Ok::<bool, ErrorKind>(s@ == "1"@),
        !(s@ == "0"@ || s@ == "1"@) ==> (r matches Err(k) && k.deep_view()
            == (ErrorKindV::CoercionStr { value: s@ })),
{
    proof {
        reveal_strlit("0");
        reveal_strlit("1");
        assert("0"@.len() == 1 && "1"@.len() == 1);
        assert("0"@[0] == '0' && "1"@[0] == '1');
        assert("0"@ != "1"@);
    }
    if str_eq(s, "0") {
        Ok(false)
    } else if str_eq(s, "1") {
        Ok(true)
    } else {
        Err(ErrorKind::CoercionStr { value: s.to_owned() })
    }
}

/// Optional, string-encoded boolean: absence yields "not present" without
/// any coercion check; a present string is coerced as [`bool_from_int_str`].
pub fn opt_bool_from_opt_int_str(s: Option<&str>) -> (r: Result<Option<bool>, ErrorKind>)
    ensures
        res_view(r) == spec_opt_bool_from_opt_int_str(
            match s {
                Some(t) => Some(t@),
                None => None,
            },
        ),
        s is None ==> r == Ok::<Option<bool>, ErrorKind>(None),
{
    match s {
        None => Ok(None),
        Some(t) => match bool_from_int_str(t) {
            Ok(b) => Ok(Some(b)),
            Err(k) => Err(k),
        },
    }
}

} // verus!
