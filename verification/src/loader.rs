//! The document loader: a single structural traversal of a generic value
//! tree that either builds a complete [`OpcodesDatabase`] or fails with one
//! field-localized [`DecodeError`].

use vstd::prelude::*;

use crate::coerce::{
    bool_from_int, bool_from_int_str, opt_bool_from_opt_int, opt_bool_from_opt_int_str,
    spec_bool_from_int, spec_bool_from_int_str, spec_opt_bool_from_opt_int,
    spec_opt_bool_from_opt_int_str,
};
use crate::error::{
    DecodeError, DecodeErrorV, ErrorKind, ErrorKindV, prefix_index, prefix_key, spec_err_at_key,
    spec_err_here, spec_prefix_index, spec_prefix_key,
};
use crate::model::{
    Enum, EnumItem, EnumItemV, EnumV, OpcodesDatabase, OpcodesDatabaseV, Record, RecordAst,
    RecordAstV, RecordDiagram, RecordDiagramField, RecordDiagramFieldV, RecordDiagramV,
    RecordIflags, RecordIflagsV, RecordMetadata, RecordMetadataV, RecordTags, RecordTagsV,
    RecordTemplate, RecordTemplateBitdiffs, RecordTemplateBitdiffsField,
    RecordTemplateBitdiffsFieldV, RecordTemplateBitdiffsV, RecordTemplateMetadata,
    RecordTemplateMetadataV, RecordTemplateSyntax, RecordTemplateSyntaxV, RecordTemplateV,
    RecordV, Register, RegisterV, Table, TableV, Width, WidthV,
};
use crate::value::{Shape, Value, res_view, shape_of, str_eq};

verus! {

/// First binding of `name` among an object's fields, in document order.
pub open spec fn spec_lookup(fields: Seq<(String, Value)>, name: Seq<char>) -> Option<Value>
    decreases fields.len(),
{
    if fields.len() == 0 {
        None
    } else if fields[0].0@ == name {
        Some(fields[0].1)
    } else {
        spec_lookup(fields.drop_first(), name)
    }
}

/// Find the first binding of `name` among an object's fields.
fn lookup<'a>(fields: &'a Vec<(String, Value)>, name: &str) -> (r: Option<&'a Value>)
    ensures
        (match r {
            Some(v) => spec_lookup(fields@, name@) == Some(*v),
            None => spec_lookup(fields@, name@) is None,
        }),
{
    let n = fields.len();
    let mut i: usize = 0;
    proof {
        assert(fields@.skip(0) =~= fields@);
    }
    while i < n
        invariant
            i <= n,
            n == fields@.len(),
            spec_lookup(fields@, name@) == spec_lookup(fields@.skip(i as int), name@),
        decreases n - i,
    {
        let pair = &fields[i];
        proof {
            assert(fields@.skip(i as int)[0] == fields@[i as int]);
        }
        if str_eq(pair.0.as_str(), name) {
            return Some(&pair.1);
        }
        proof {
            assert(fields@.skip(i as int).drop_first() =~= fields@.skip(i as int + 1));
        }
        i = i + 1;
    }
    proof {
        assert(fields@.skip(n as int).len() == 0);
    }
    None
}

/// A required field: its bound value, or a missing-field error at its key.
pub open spec fn spec_req_field(fields: Seq<(String, Value)>, name: Seq<char>) -> Result<
    Value,
    DecodeErrorV,
> {
    match spec_lookup(fields, name) {
        Some(v) => Ok(v),
        None => Err(spec_err_at_key(name, ErrorKindV::MissingField)),
    }
}

/// An optional field: absent, or bound to `Null`, means "not present".
pub open spec fn spec_opt_field(fields: Seq<(String, Value)>, name: Seq<char>) -> Option<Value> {
    match spec_lookup(fields, name) {
        None => None,
        Some(v) => if v is Null {
            None
        } else {
            Some(v)
        },
    }
}

fn req_field<'a>(fields: &'a Vec<(String, Value)>, name: &str) -> (r: Result<
    &'a Value,
    DecodeError,
>)
    ensures
        (match r {
            Ok(v) => spec_req_field(fields@, name@) == Ok::<Value, DecodeErrorV>(*v),
            Err(e) => spec_req_field(fields@, name@) == Err::<Value, DecodeErrorV>(e.deep_view()),
        }),
{
    match lookup(fields, name) {
        Some(v) => Ok(v),
        None => Err(DecodeError::at_key(name, ErrorKind::MissingField)),
    }
}

fn opt_field<'a>(fields: &'a Vec<(String, Value)>, name: &str) -> (r: Option<&'a Value>)
    ensures
        (match r {
            Some(v) => spec_opt_field(fields@, name@) == Some(*v),
            None => spec_opt_field(fields@, name@) is None,
        }),
{
    match lookup(fields, name) {
        None => None,
        Some(v) => match v {
            Value::Null => None,
            _ => Some(v),
        },
    }
}

/// A required string-valued field.
pub open spec fn spec_req_str_field(fields: Seq<(String, Value)>, name: Seq<char>) -> Result<
    Seq<char>,
    DecodeErrorV,
> {
    match spec_lookup(fields, name) {
        None => Err(spec_err_at_key(name, ErrorKindV::MissingField)),
        Some(Value::Str(s)) => Ok(s@),
        Some(v) => Err(
            spec_err_at_key(
                name,
                ErrorKindV::TypeMismatch { expected: Shape::Str, actual: shape_of(v) },
            ),
        ),
    }
}

fn req_str_field(fields: &Vec<(String, Value)>, name: &str) -> (r: Result<String, DecodeError>)
    ensures
        res_view(r) == spec_req_str_field(fields@, name@),
{
    match lookup(fields, name) {
        None => Err(DecodeError::at_key(name, ErrorKind::MissingField)),
        Some(v) => match v {
            Value::Str(s) => Ok(s.clone()),
            _ => Err(
                DecodeError::at_key(
                    name,
                    ErrorKind::TypeMismatch { expected: Shape::Str, actual: v.shape() },
                ),
            ),
        },
    }
}

/// An optional string-valued field.
pub open spec fn spec_opt_str_field(fields: Seq<(String, Value)>, name: Seq<char>) -> Result<
    Option<Seq<char>>,
    DecodeErrorV,
> {
    match spec_opt_field(fields, name) {
        None => Ok(None),
        Some(Value::Str(s)) => Ok(Some(s@)),
        Some(v) => Err(
            spec_err_at_key(
                name,
                ErrorKindV::TypeMismatch { expected: Shape::Str, actual: shape_of(v) },
            ),
        ),
    }
}

fn opt_str_field(fields: &Vec<(String, Value)>, name: &str) -> (r: Result<
    Option<String>,
    DecodeError,
>)
    ensures
        res_view(r) == spec_opt_str_field(fields@, name@),
{
    match opt_field(fields, name) {
        None => Ok(None),
        Some(v) => match v {
            Value::Str(s) => Ok(Some(s.clone())),
            _ => Err(
                DecodeError::at_key(
                    name,
                    ErrorKind::TypeMismatch { expected: Shape::Str, actual: v.shape() },
                ),
            ),
        },
    }
}

/// A required integer field that must fit an unsigned 32-bit value; an
/// integer outside that range is rejected by name.
pub open spec fn spec_req_u32_field(fields: Seq<(String, Value)>, name: Seq<char>) -> Result<
    u32,
    DecodeErrorV,
> {
    match spec_lookup(fields, name) {
        None => Err(spec_err_at_key(name, ErrorKindV::MissingField)),
        Some(Value::Int(i)) => if 0 <= i && i <= 0xFFFF_FFFFi64 {
            Ok(i as u32)
        } else {
            Err(spec_err_at_key(name, ErrorKindV::CoercionInt { value: i as int }))
        },
        Some(v) => Err(
            spec_err_at_key(
                name,
                ErrorKindV::TypeMismatch { expected: Shape::Int, actual: shape_of(v) },
            ),
        ),
    }
}

fn req_u32_field(fields: &Vec<(String, Value)>, name: &str) -> (r: Result<u32, DecodeError>)
    ensures
        res_view(r) == spec_req_u32_field(fields@, name@),
{
    match lookup(fields, name) {
        None => Err(DecodeError::at_key(name, ErrorKind::MissingField)),
        Some(v) => match v {
            Value::Int(i) => if 0 <= *i && *i <= 0xFFFF_FFFFi64 {
                Ok(*i as u32)
            } else {
                Err(DecodeError::at_key(name, ErrorKind::CoercionInt { value: *i }))
            },
            _ => Err(
                DecodeError::at_key(
                    name,
                    ErrorKind::TypeMismatch { expected: Shape::Int, actual: v.shape() },
                ),
            ),
        },
    }
}

/// An optional integer field that must fit an unsigned 32-bit value when
/// present.
pub open spec fn spec_opt_u32_field(fields: Seq<(String, Value)>, name: Seq<char>) -> Result<
    Option<u32>,
    DecodeErrorV,
> {
    match spec_opt_field(fields, name) {
        None => Ok(None),
        Some(Value::Int(i)) => if 0 <= i && i <= 0xFFFF_FFFFi64 {
            Ok(Some(i as u32))
        } else {
            Err(spec_err_at_key(name, ErrorKindV::CoercionInt { value: i as int }))
        },
        Some(v) => Err(
            spec_err_at_key(
                name,
                ErrorKindV::TypeMismatch { expected: Shape::Int, actual: shape_of(v) },
            ),
        ),
    }
}

fn opt_u32_field(fields: &Vec<(String, Value)>, name: &str) -> (r: Result<Option<u32>, DecodeError>)
    ensures
        res_view(r) == spec_opt_u32_field(fields@, name@),
{
    match opt_field(fields, name) {
        None => Ok(None),
        Some(v) => match v {
            Value::Int(i) => if 0 <= *i && *i <= 0xFFFF_FFFFi64 {
                Ok(Some(*i as u32))
            } else {
                Err(DecodeError::at_key(name, ErrorKind::CoercionInt { value: *i }))
            },
            _ => Err(
                DecodeError::at_key(
                    name,
                    ErrorKind::TypeMismatch { expected: Shape::Int, actual: v.shape() },
                ),
            ),
        },
    }
}

/// A required integer-encoded boolean field.
pub open spec fn spec_req_bool_int_field(fields: Seq<(String, Value)>, name: Seq<char>) -> Result<
    bool,
    DecodeErrorV,
> {
    match spec_lookup(fields, name) {
        None => Err(spec_err_at_key(name, ErrorKindV::MissingField)),
        Some(Value::Int(i)) => match spec_bool_from_int(i) {
            Ok(b) => Ok(b),
            Err(k) => Err(spec_err_at_key(name, k)),
        },
        Some(v) => Err(
            spec_err_at_key(
                name,
                ErrorKindV::TypeMismatch { expected: Shape::Int, actual: shape_of(v) },
            ),
        ),
    }
}

fn req_bool_int_field(fields: &Vec<(String, Value)>, name: &str) -> (r: Result<bool, DecodeError>)
    ensures
        res_view(r) == spec_req_bool_int_field(fields@, name@),
{
    match lookup(fields, name) {
        None => Err(DecodeError::at_key(name, ErrorKind::MissingField)),
        Some(v) => match v {
            Value::Int(i) => match bool_from_int(*i) {
                Ok(b) => Ok(b),
                Err(k) => Err(DecodeError::at_key(name, k)),
            },
            _ => Err(
                DecodeError::at_key(
                    name,
                    ErrorKind::TypeMismatch { expected: Shape::Int, actual: v.shape() },
                ),
            ),
        },
    }
}

/// An optional integer-encoded boolean field.
pub open spec fn spec_opt_bool_int_field(fields: Seq<(String, Value)>, name: Seq<char>) -> Result<
    Option<bool>,
    DecodeErrorV,
> {
    match spec_opt_field(fields, name) {
        None => Ok(None),
        Some(Value::Int(i)) => match spec_opt_bool_from_opt_int(Some(i)) {
            Ok(o) => Ok(o),
            Err(k) => Err(spec_err_at_key(name, k)),
        },
        Some(v) => Err(
            spec_err_at_key(
                name,
                ErrorKindV::TypeMismatch { expected: Shape::Int, actual: shape_of(v) },
            ),
        ),
    }
}

fn opt_bool_int_field(fields: &Vec<(String, Value)>, name: &str) -> (r: Result<
    Option<bool>,
    DecodeError,
>)
    ensures
        res_view(r) == spec_opt_bool_int_field(fields@, name@),
{
    let oi: Option<i64> = match opt_field(fields, name) {
        None => None,
        Some(v) => match v {
            Value::Int(i) => Some(*i),
            _ => {
                return Err(
                    DecodeError::at_key(
                        name,
                        ErrorKind::TypeMismatch { expected: Shape::Int, actual: v.shape() },
                    ),
                );
            },
        },
    };
    match opt_bool_from_opt_int(oi) {
        Ok(o) => Ok(o),
        Err(k) => Err(DecodeError::at_key(name, k)),
    }
}

/// A required string-encoded boolean field.
pub open spec fn spec_req_bool_str_field(fields: Seq<(String, Value)>, name: Seq<char>) -> Result<
    bool,
    DecodeErrorV,
> {
    match spec_lookup(fields, name) {
        None => Err(spec_err_at_key(name, ErrorKindV::MissingField)),
        Some(Value::Str(s)) => match spec_bool_from_int_str(s@) {
            Ok(b) => Ok(b),
            Err(k) => Err(spec_err_at_key(name, k)),
        },
        Some(v) => Err(
            spec_err_at_key(
                name,
                ErrorKindV::TypeMismatch { expected: Shape::Str, actual: shape_of(v) },
            ),
        ),
    }
}

fn req_bool_str_field(fields: &Vec<(String, Value)>, name: &str) -> (r: Result<bool, DecodeError>)
    ensures
        res_view(r) == spec_req_bool_str_field(fields@, name@),
{
    match lookup(fields, name) {
        None => Err(DecodeError::at_key(name, ErrorKind::MissingField)),
        Some(v) => match v {
            Value::Str(s) => match bool_from_int_str(s.as_str()) {
                Ok(b) => Ok(b),
                Err(k) => Err(DecodeError::at_key(name, k)),
            },
            _ => Err(
                DecodeError::at_key(
                    name,
                    ErrorKind::TypeMismatch { expected: Shape::Str, actual: v.shape() },
                ),
            ),
        },
    }
}

/// An optional string-encoded boolean field.
pub open spec fn spec_opt_bool_str_field(fields: Seq<(String, Value)>, name: Seq<char>) -> Result<
    Option<bool>,
    DecodeErrorV,
> {
    match spec_opt_field(fields, name) {
        None => Ok(None),
        Some(Value::Str(s)) => match spec_opt_bool_from_opt_int_str(Some(s@)) {
            Ok(o) => Ok(o),
            Err(k) => Err(spec_err_at_key(name, k)),
        },
        Some(v) => Err(
            spec_err_at_key(
                name,
                ErrorKindV::TypeMismatch { expected: Shape::Str, actual: shape_of(v) },
            ),
        ),
    }
}

fn opt_bool_str_field(fields: &Vec<(String, Value)>, name: &str) -> (r: Result<
    Option<bool>,
    DecodeError,
>)
    ensures
        res_view(r) == spec_opt_bool_str_field(fields@, name@),
{
    let os: Option<&str> = match opt_field(fields, name) {
        None => None,
        Some(v) => match v {
            Value::Str(s) => Some(s.as_str()),
            _ => {
                return Err(
                    DecodeError::at_key(
                        name,
                        ErrorKind::TypeMismatch { expected: Shape::Str, actual: v.shape() },
                    ),
                );
            },
        },
    };
    match opt_bool_from_opt_int_str(os) {
        Ok(o) => Ok(o),
        Err(k) => Err(DecodeError::at_key(name, k)),
    }
}

/// The error a decoder reports when the value it was handed is not the
/// object it expects.
pub open spec fn spec_not_an_object(v: Value) -> DecodeErrorV {
    spec_err_here(ErrorKindV::TypeMismatch { expected: Shape::Object, actual: shape_of(v) })
}

/// The error a decoder reports when the value it was handed is not the list
/// it expects.
pub open spec fn spec_not_a_list(v: Value) -> DecodeErrorV {
    spec_err_here(ErrorKindV::TypeMismatch { expected: Shape::List, actual: shape_of(v) })
}

/// What decoding one enum member yields.
pub open spec fn spec_decode_enum_item(v: Value) -> Result<EnumItemV, DecodeErrorV> {
    match v {
        Value::Object(fields) => match spec_req_str_field(fields@, "name"@) {
            Ok(name) => Ok(EnumItemV { name }),
            Err(e) => Err(e),
        },
        _ => Err(spec_not_an_object(v)),
    }
}

/// Decode one enum member.
pub fn decode_enum_item(v: &Value) -> (r: Result<EnumItem, DecodeError>)
    ensures
        res_view(r) == spec_decode_enum_item(*v),
{
    let fields = match v {
        Value::Object(fields) => fields,
        _ => {
            return Err(
                DecodeError::here(
                    ErrorKind::TypeMismatch { expected: Shape::Object, actual: v.shape() },
                ),
            );
        },
    };
    let name = match req_str_field(fields, "name") {
        Ok(x) => x,
        Err(e) => return Err(e),
    };
    Ok(EnumItem { name })
}

/// What decoding a width table entry yields.
pub open spec fn spec_decode_width(v: Value) -> Result<WidthV, DecodeErrorV> {
    match v {
        Value::Object(fields) => match spec_req_str_field(fields@, "name"@) {
            Err(e) => Err(e),
            Ok(name) => match spec_req_u32_field(fields@, "width16"@) {
                Err(e) => Err(e),
                Ok(width16) => match spec_req_u32_field(fields@, "width32"@) {
                    Err(e) => Err(e),
                    Ok(width32) => match spec_req_u32_field(fields@, "width64"@) {
                        Err(e) => Err(e),
                        Ok(width64) => Ok(WidthV { name, width16, width32, width64 }),
                    },
                },
            },
        },
        _ => Err(spec_not_an_object(v)),
    }
}

/// Decode one width table entry.
pub fn decode_width(v: &Value) -> (r: Result<Width, DecodeError>)
    ensures
        res_view(r) == spec_decode_width(*v),
{
    let fields = match v {
        Value::Object(fields) => fields,
        _ => {
            return Err(
                DecodeError::here(
                    ErrorKind::TypeMismatch { expected: Shape::Object, actual: v.shape() },
                ),
            );
        },
    };
    let name = match req_str_field(fields, "name") {
        Ok(x) => x,
        Err(e) => return Err(e),
    };
    let width16 = match req_u32_field(fields, "width16") {
        Ok(x) => x,
        Err(e) => return Err(e),
    };
    let width32 = match req_u32_field(fields, "width32") {
        Ok(x) => x,
        Err(e) => return Err(e),
    };
    let width64 = match req_u32_field(fields, "width64") {
        Ok(x) => x,
        Err(e) => return Err(e),
    };
    Ok(Width { name, width16, width32, width64 })
}

/// What decoding a register description yields.
pub open spec fn spec_decode_register(v: Value) -> Result<RegisterV, DecodeErrorV> {
    match v {
        Value::Object(fields) => match spec_req_u32_field(fields@, "size"@) {
            Err(e) => Err(e),
            Ok(size) => match spec_req_bool_int_field(fields@, "is_first"@) {
                Err(e) => Err(e),
                Ok(is_first) => match spec_req_bool_int_field(fields@, "is_last"@) {
                    Err(e) => Err(e),
                    Ok(is_last) => match spec_req_bool_int_field(fields@, "is_even"@) {
                        Err(e) => Err(e),
                        Ok(is_even) => match spec_req_u32_field(fields@, "encoding"@) {
                            Err(e) => Err(e),
                            Ok(encoding) => match spec_req_str_field(fields@, "datatype"@) {
                                Err(e) => Err(e),
                                Ok(datatype) => match spec_req_str_field(fields@, "reg"@) {
                                    Err(e) => Err(e),
                                    Ok(reg) => match spec_req_str_field(fields@, "kind"@) {
                                        Err(e) => Err(e),
                                        Ok(kind) => Ok(
                                            RegisterV {
                                                size,
                                                is_first,
                                                is_last,
                                                is_even,
                                                encoding,
                                                datatype,
                                                reg,
                                                kind,
                                            },
                                        ),
                                    },
                                },
                            },
                        },
                    },
                },
            },
        },
        _ => Err(spec_not_an_object(v)),
    }
}

/// Decode one register description.
pub fn decode_register(v: &Value) -> (r: Result<Register, DecodeError>)
    ensures
        res_view(r) == spec_decode_register(*v),
{
    let fields = match v {
        Value::Object(fields) => fields,
        _ => {
            return Err(
                DecodeError::here(
                    ErrorKind::TypeMismatch { expected: Shape::Object, actual: v.shape() },
                ),
            );
        },
    };
    let size = match req_u32_field(fields, "size") {
        Ok(x) => x,
        Err(e) => return Err(e),
    };
    let is_first = match req_bool_int_field(fields, "is_first") {
        Ok(x) => x,
        Err(e) => return Err(e),
    };
    let is_last = match req_bool_int_field(fields, "is_last") {
        Ok(x) => x,
        Err(e) => return Err(e),
    };
    let is_even = match req_bool_int_field(fields, "is_even") {
        Ok(x) => x,
        Err(e) => return Err(e),
    };
    let encoding = match req_u32_field(fields, "encoding") {
        Ok(x) => x,
        Err(e) => return Err(e),
    };
    let datatype = match req_str_field(fields, "datatype") {
        Ok(x) => x,
        Err(e) => return Err(e),
    };
    let reg = match req_str_field(fields, "reg") {
        Ok(x) => x,
        Err(e) => return Err(e),
    };
    let kind = match req_str_field(fields, "kind") {
        Ok(x) => x,
        Err(e) => return Err(e),
    };
    Ok(Register { size, is_first, is_last, is_even, encoding, datatype, reg, kind })
}

/// What decoding a record's metadata yields; `deprecated` is a
/// string-encoded boolean.
pub open spec fn spec_decode_metadata(v: Value) -> Result<RecordMetadataV, DecodeErrorV> {
    match v {
        Value::Object(fields) => match spec_req_bool_str_field(fields@, "deprecated"@) {
            Err(e) => Err(e),
            Ok(deprecated) => match spec_req_str_field(fields@, "isa"@) {
                Err(e) => Err(e),
                Ok(isa) => Ok(RecordMetadataV { deprecated, isa }),
            },
        },
        _ => Err(spec_not_an_object(v)),
    }
}

/// Decode a record's metadata.
pub fn decode_metadata(v: &Value) -> (r: Result<RecordMetadata, DecodeError>)
    ensures
        res_view(r) == spec_decode_metadata(*v),
{
    let fields = match v {
        Value::Object(fields) => fields,
        _ => {
            return Err(
                DecodeError::here(
                    ErrorKind::TypeMismatch { expected: Shape::Object, actual: v.shape() },
                ),
            );
        },
    };
    let deprecated = match req_bool_str_field(fields, "deprecated") {
        Ok(x) => x,
        Err(e) => return Err(e),
    };
    let isa = match req_str_field(fields, "isa") {
        Ok(x) => x,
        Err(e) => return Err(e),
    };
    Ok(RecordMetadata { deprecated, isa })
}

/// What decoding one bit field of a diagram yields.
pub open spec fn spec_decode_diagram_field(v: Value) -> Result<RecordDiagramFieldV, DecodeErrorV> {
    match v {
        Value::Object(fields) => match spec_req_str_field(fields@, "value"@) {
            Err(e) => Err(e),
            Ok(value) => match spec_req_str_field(fields@, "name"@) {
                Err(e) => Err(e),
                Ok(name) => Ok(RecordDiagramFieldV { value, name }),
            },
        },
        _ => Err(spec_not_an_object(v)),
    }
}

/// Decode one bit field of a diagram.
pub fn decode_diagram_field(v: &Value) -> (r: Result<RecordDiagramField, DecodeError>)
    ensures
        res_view(r) == spec_decode_diagram_field(*v),
{
    let fields = match v {
        Value::Object(fields) => fields,
        _ => {
            return Err(
                DecodeError::here(
                    ErrorKind::TypeMismatch { expected: Shape::Object, actual: v.shape() },
                ),
            );
        },
    };
    let value = match req_str_field(fields, "value") {
        Ok(x) => x,
        Err(e) => return Err(e),
    };
    let name = match req_str_field(fields, "name") {
        Ok(x) => x,
        Err(e) => return Err(e),
    };
    Ok(RecordDiagramField { value, name })
}

/// What decoding a record's documentation tags yields.
pub open spec fn spec_decode_tags(v: Value) -> Result<RecordTagsV, DecodeErrorV> {
    match v {
        Value::Object(fields) => match spec_req_str_field(fields@, "page"@) {
            Ok(page) => Ok(RecordTagsV { page }),
            Err(e) => Err(e),
        },
        _ => Err(spec_not_an_object(v)),
    }
}

/// Decode a record's documentation tags.
pub fn decode_tags(v: &Value) -> (r: Result<RecordTags, DecodeError>)
    ensures
        res_view(r) == spec_decode_tags(*v),
{
    let fields = match v {
        Value::Object(fields) => fields,
        _ => {
            return Err(
                DecodeError::here(
                    ErrorKind::TypeMismatch { expected: Shape::Object, actual: v.shape() },
                ),
            );
        },
    };
    let page = match req_str_field(fields, "page") {
        Ok(x) => x,
        Err(e) => return Err(e),
    };
    Ok(RecordTags { page })
}

/// What decoding one bit-difference field yields.
pub open spec fn spec_decode_bitdiff_field(v: Value) -> Result<
    RecordTemplateBitdiffsFieldV,
    DecodeErrorV,
> {
    match v {
        Value::Object(fields) => match spec_req_str_field(fields@, "value"@) {
            Err(e) => Err(e),
            Ok(value) => match spec_req_str_field(fields@, "name"@) {
                Err(e) => Err(e),
                Ok(name) => Ok(RecordTemplateBitdiffsFieldV { value, name }),
            },
        },
        _ => Err(spec_not_an_object(v)),
    }
}

/// Decode one bit-difference field.
pub fn decode_bitdiff_field(v: &Value) -> (r: Result<RecordTemplateBitdiffsField, DecodeError>)
    ensures
        res_view(r) == spec_decode_bitdiff_field(*v),
{
    let fields = match v {
        Value::Object(fields) => fields,
        _ => {
            return Err(
                DecodeError::here(
                    ErrorKind::TypeMismatch { expected: Shape::Object, actual: v.shape() },
                ),
            );
        },
    };
    let value = match req_str_field(fields, "value") {
        Ok(x) => x,
        Err(e) => return Err(e),
    };
    let name = match req_str_field(fields, "name") {
        Ok(x) => x,
        Err(e) => return Err(e),
    };
    Ok(RecordTemplateBitdiffsField { value, name })
}

/// What decoding a template's prefix metadata yields: three optional
/// string-encoded booleans.
pub open spec fn spec_decode_template_metadata(v: Value) -> Result<
    RecordTemplateMetadataV,
    DecodeErrorV,
> {
    match v {
        Value::Object(fields) => match spec_opt_bool_str_field(fields@, "xacquire"@) {
            Err(e) => Err(e),
            Ok(xacquire) => match spec_opt_bool_str_field(fields@, "lock"@) {
                Err(e) => Err(e),
                Ok(lock) => match spec_opt_bool_str_field(fields@, "xrelease"@) {
                    Err(e) => Err(e),
                    Ok(xrelease) => Ok(RecordTemplateMetadataV { xacquire, lock, xrelease }),
                },
            },
        },
        _ => Err(spec_not_an_object(v)),
    }
}

/// Decode a template's prefix metadata.
pub fn decode_template_metadata(v: &Value) -> (r: Result<RecordTemplateMetadata, DecodeError>)
    ensures
        res_view(r) == spec_decode_template_metadata(*v),
{
    let fields = match v {
        Value::Object(fields) => fields,
        _ => {
            return Err(
                DecodeError::here(
                    ErrorKind::TypeMismatch { expected: Shape::Object, actual: v.shape() },
                ),
            );
        },
    };
    let xacquire = match opt_bool_str_field(fields, "xacquire") {
        Ok(x) => x,
        Err(e) => return Err(e),
    };
    let lock = match opt_bool_str_field(fields, "lock") {
        Ok(x) => x,
        Err(e) => return Err(e),
    };
    let xrelease = match opt_bool_str_field(fields, "xrelease") {
        Ok(x) => x,
        Err(e) => return Err(e),
    };
    Ok(RecordTemplateMetadata { xacquire, lock, xrelease })
}

/// What decoding one operand-syntax AST node yields.  The required `type`
/// tag is passed through verbatim; the seven remaining fields are optional.
pub open spec fn spec_decode_ast(v: Value) -> Result<RecordAstV, DecodeErrorV> {
    match v {
        Value::Object(fields) => match spec_req_str_field(fields@, "type"@) {
            Err(e) => Err(e),
            Ok(ast_type) => match spec_opt_str_field(fields@, "value"@) {
                Err(e) => Err(e),
                Ok(value) => match spec_opt_bool_int_field(fields@, "suppressed"@) {
                    Err(e) => Err(e),
                    Ok(suppressed) => match spec_opt_bool_int_field(fields@, "read"@) {
                        Err(e) => Err(e),
                        Ok(read) => match spec_opt_bool_int_field(fields@, "write"@) {
                            Err(e) => Err(e),
                            Ok(write) => match spec_opt_u32_field(fields@, "size"@) {
                                Err(e) => Err(e),
                                Ok(size) => match spec_opt_str_field(fields@, "datatype"@) {
                                    Err(e) => Err(e),
                                    Ok(datatype) => match spec_opt_str_field(
                                        fields@,
                                        "encodedin"@,
                                    ) {
                                        Err(e) => Err(e),
                                        Ok(encodedin) => match spec_opt_str_field(
                                            fields@,
                                            "symbol"@,
                                        ) {
                                            Err(e) => Err(e),
                                            Ok(symbol) => Ok(
                                                RecordAstV {
                                                    ast_type,
                                                    value,
                                                    suppressed,
                                                    read,
                                                    write,
                                                    size,
                                                    datatype,
                                                    encodedin,
                                                    symbol,
                                                },
                                            ),
                                        },
                                    },
                                },
                            },
                        },
                    },
                },
            },
        },
        _ => Err(spec_not_an_object(v)),
    }
}

/// Decode one operand-syntax AST node.
pub fn decode_ast(v: &Value) -> (r: Result<RecordAst, DecodeError>)
    ensures
        res_view(r) == spec_decode_ast(*v),
{
    let fields = match v {
        Value::Object(fields) => fields,
        _ => {
            return Err(
                DecodeError::here(
                    ErrorKind::TypeMismatch { expected: Shape::Object, actual: v.shape() },
                ),
            );
        },
    };
    let ast_type = match req_str_field(fields, "type") {
        Ok(x) => x,
        Err(e) => return Err(e),
    };
    let value = match opt_str_field(fields, "value") {
        Ok(x) => x,
        Err(e) => return Err(e),
    };
    let suppressed = match opt_bool_int_field(fields, "suppressed") {
        Ok(x) => x,
        Err(e) => return Err(e),
    };
    let read = match opt_bool_int_field(fields, "read") {
        Ok(x) => x,
        Err(e) => return Err(e),
    };
    let write = match opt_bool_int_field(fields, "write") {
        Ok(x) => x,
        Err(e) => return Err(e),
    };
    let size = match opt_u32_field(fields, "size") {
        Ok(x) => x,
        Err(e) => return Err(e),
    };
    let datatype = match opt_str_field(fields, "datatype") {
        Ok(x) => x,
        Err(e) => return Err(e),
    };
    let encodedin = match opt_str_field(fields, "encodedin") {
        Ok(x) => x,
        Err(e) => return Err(e),
    };
    let symbol = match opt_str_field(fields, "symbol") {
        Ok(x) => x,
        Err(e) => return Err(e),
    };
    Ok(RecordAst { ast_type, value, suppressed, read, write, size, datatype, encodedin, symbol })
}

/// What decoding a record's flag-effect block yields.
pub open spec fn spec_decode_iflags(v: Value) -> Result<RecordIflagsV, DecodeErrorV> {
    match v {
        Value::Object(fields) => match spec_req_str_field(fields@, "af"@) {
            Err(e) => Err(e),
            Ok(af) => match spec_req_str_field(fields@, "of"@) {
                Err(e) => Err(e),
                Ok(of) => match spec_req_str_field(fields@, "cf"@) {
                    Err(e) => Err(e),
                    Ok(cf) => match spec_req_str_field(fields@, "sf"@) {
                        Err(e) => Err(e),
                        Ok(sf) => match spec_req_str_field(fields@, "zf"@) {
                            Err(e) => Err(e),
                            Ok(zf) => match spec_req_str_field(fields@, "pf"@) {
                                Err(e) => Err(e),
                                Ok(pf) => Ok(RecordIflagsV { af, of, cf, sf, zf, pf }),
                            },
                        },
                    },
                },
            },
        },
        _ => Err(spec_not_an_object(v)),
    }
}

/// Decode a record's flag-effect block.
pub fn decode_iflags(v: &Value) -> (r: Result<RecordIflags, DecodeError>)
    ensures
        res_view(r) == spec_decode_iflags(*v),
{
    let fields = match v {
        Value::Object(fields) => fields,
        _ => {
            return Err(
                DecodeError::here(
                    ErrorKind::TypeMismatch { expected: Shape::Object, actual: v.shape() },
                ),
            );
        },
    };
    let af = match req_str_field(fields, "af") {
        Ok(x) => x,
        Err(e) => return Err(e),
    };
    let of = match req_str_field(fields, "of") {
        Ok(x) => x,
        Err(e) => return Err(e),
    };
    let cf = match req_str_field(fields, "cf") {
        Ok(x) => x,
        Err(e) => return Err(e),
    };
    let sf = match req_str_field(fields, "sf") {
        Ok(x) => x,
        Err(e) => return Err(e),
    };
    let zf = match req_str_field(fields, "zf") {
        Ok(x) => x,
        Err(e) => return Err(e),
    };
    let pf = match req_str_field(fields, "pf") {
        Ok(x) => x,
        Err(e) => return Err(e),
    };
    Ok(RecordIflags { af, of, cf, sf, zf, pf })
}

/// What decoding a reserved table entry yields: any object, with every
/// field ignored.
pub open spec fn spec_decode_table(v: Value) -> Result<TableV, DecodeErrorV> {
    match v {
        Value::Object(fields) => Ok(TableV {  }),
        _ => Err(spec_not_an_object(v)),
    }
}

/// Decode one reserved table entry.
pub fn decode_table(v: &Value) -> (r: Result<Table, DecodeError>)
    ensures
        res_view(r) == spec_decode_table(*v),
{
    match v {
        Value::Object(_) => Ok(Table {  }),
        _ => Err(
            DecodeError::here(
                ErrorKind::TypeMismatch { expected: Shape::Object, actual: v.shape() },
            ),
        ),
    }
}

/// What decoding a plain string element of a list yields.
pub open spec fn spec_decode_string(v: Value) -> Result<Seq<char>, DecodeErrorV> {
    match v {
        Value::Str(s) => Ok(s@),
        _ => Err(
            spec_err_here(ErrorKindV::TypeMismatch { expected: Shape::Str, actual: shape_of(v) }),
        ),
    }
}

fn decode_string(v: &Value) -> (r: Result<String, DecodeError>)
    ensures
        res_view(r) == spec_decode_string(*v),
{
    match v {
        Value::Str(s) => Ok(s.clone()),
        _ => Err(
            DecodeError::here(ErrorKind::TypeMismatch { expected: Shape::Str, actual: v.shape() }),
        ),
    }
}

/// What decoding the elements of an enum-member list yields, starting at
/// element `i`: the decoded tail, or the first element's error, located by
/// its index.
pub open spec fn spec_decode_enum_items_from(items: Seq<Value>, i: int) -> Result<
    Seq<EnumItemV>,
    DecodeErrorV,
>
    decreases items.len() - i,
{
    if i < 0 || i >= items.len() {
        Ok(Seq::empty())
    } else {
        match spec_decode_enum_item(items[i]) {
            Err(e) => Err(spec_prefix_index(i, e)),
            Ok(x) => match spec_decode_enum_items_from(items, i + 1) {
                Err(e) => Err(e),
                Ok(rest) => Ok(seq![x] + rest),
            },
        }
    }
}

/// What decoding an enum-member list yields.
pub open spec fn spec_decode_enum_items(v: Value) -> Result<Seq<EnumItemV>, DecodeErrorV> {
    match v {
        Value::List(items) => spec_decode_enum_items_from(items@, 0),
        _ => Err(spec_not_a_list(v)),
    }
}

/// Decode an enum-member list.
pub fn decode_enum_items(v: &Value) -> (r: Result<Vec<EnumItem>, DecodeError>)
    ensures
        res_view(r) == spec_decode_enum_items(*v),
{
    let items = match v {
        Value::List(items) => items,
        _ => {
            return Err(
                DecodeError::here(
                    ErrorKind::TypeMismatch { expected: Shape::List, actual: v.shape() },
                ),
            );
        },
    };
    let n = items.len();
    let mut out: Vec<EnumItem> = Vec::new();
    let mut i: usize = 0;
    proof {
        assert(out.deep_view() =~= Seq::<EnumItemV>::empty());
        if spec_decode_enum_items_from(items@, 0) is Ok {
            let whole = spec_decode_enum_items_from(items@, 0)->Ok_0;
            assert(Seq::<EnumItemV>::empty() + whole =~= whole);
        }
    }
    while i < n
        invariant
            i <= n,
            n == items@.len(),
            out.deep_view().len() == i,
            spec_decode_enum_items(*v) == spec_decode_enum_items_from(items@, 0),
            spec_decode_enum_items_from(items@, 0) == (match spec_decode_enum_items_from(
                items@,
                i as int,
            ) {
                Ok(rest) => Ok::<Seq<EnumItemV>, DecodeErrorV>(out.deep_view() + rest),
                Err(e) => Err::<Seq<EnumItemV>, DecodeErrorV>(e),
            }),
        decreases n - i,
    {
        let x = match decode_enum_item(&items[i]) {
            Ok(x) => x,
            Err(e) => {
                proof {
                    assert(spec_decode_enum_items_from(items@, i as int) == Err::<
                        Seq<EnumItemV>,
                        DecodeErrorV,
                    >(spec_prefix_index(i as int, e.deep_view())));
                }
                return Err(prefix_index(i, e));
            },
        };
        let ghost pre = out.deep_view();
        let ghost xv = x.deep_view();
        out.push(x);
        proof {
            assert(out.deep_view() =~= pre.push(xv));
            if spec_decode_enum_items_from(items@, i as int + 1) is Ok {
                let rest = spec_decode_enum_items_from(items@, i as int + 1)->Ok_0;
                assert(pre + (seq![xv] + rest) =~= pre.push(xv) + rest);
            }
        }
        i = i + 1;
    }
    proof {
        assert(out.deep_view() + Seq::<EnumItemV>::empty() =~= out.deep_view());
    }
    Ok(out)
}

/// What decoding one enumeration yields.
pub open spec fn spec_decode_enum(v: Value) -> Result<EnumV, DecodeErrorV> {
    match v {
        Value::Object(fields) => match spec_req_str_field(fields@, "id"@) {
            Err(e) => Err(e),
            Ok(id) => match spec_req_field(fields@, "items"@) {
                Err(e) => Err(e),
                Ok(items_value) => match spec_decode_enum_items(items_value) {
                    Err(e) => Err(spec_prefix_key("items"@, e)),
                    Ok(items) => match spec_req_bool_int_field(fields@, "stringify"@) {
                        Err(e) => Err(e),
                        Ok(stringify) => match spec_opt_bool_int_field(fields@, "optional"@) {
                            Err(e) => Err(e),
                            Ok(optional) => Ok(EnumV { id, items, stringify, optional }),
                        },
                    },
                },
            },
        },
        _ => Err(spec_not_an_object(v)),
    }
}

/// Decode one enumeration.
pub fn decode_enum(v: &Value) -> (r: Result<Enum, DecodeError>)
    ensures
        res_view(r) == spec_decode_enum(*v),
{
    let fields = match v {
        Value::Object(fields) => fields,
        _ => {
            return Err(
                DecodeError::here(
                    ErrorKind::TypeMismatch { expected: Shape::Object, actual: v.shape() },
                ),
            );
        },
    };
    let id = match req_str_field(fields, "id") {
        Ok(x) => x,
        Err(e) => return Err(e),
    };
    let items_value = match req_field(fields, "items") {
        Ok(x) => x,
        Err(e) => return Err(e),
    };
    let items = match decode_enum_items(items_value) {
        Ok(x) => x,
        Err(e) => return Err(prefix_key("items", e)),
    };
    let stringify = match req_bool_int_field(fields, "stringify") {
        Ok(x) => x,
        Err(e) => return Err(e),
    };
    let optional = match opt_bool_int_field(fields, "optional") {
        Ok(x) => x,
        Err(e) => return Err(e),
    };
    Ok(Enum { id, items, stringify, optional })
}


/// What decoding the elements of the width-table list yields, starting at
/// element `i`: the decoded tail, or the first element's error, located by
/// its index.
pub open spec fn spec_decode_widths_from(items: Seq<Value>, i: int) -> Result<
    Seq<WidthV>,
    DecodeErrorV,
>
    decreases items.len() - i,
{
    if i < 0 || i >= items.len() {
        Ok(Seq::empty())
    } else {
        match spec_decode_width(items[i]) {
            Err(e) => Err(spec_prefix_index(i, e)),
            Ok(x) => match spec_decode_widths_from(items, i + 1) {
                Err(e) => Err(e),
                Ok(rest) => Ok(seq![x] + rest),
            },
        }
    }
}

/// What decoding the width-table list yields.
pub open spec fn spec_decode_widths(v: Value) -> Result<Seq<WidthV>, DecodeErrorV> {
    match v {
        Value::List(items) => spec_decode_widths_from(items@, 0),
        _ => Err(spec_not_a_list(v)),
    }
}

/// Decode the width-table list.
pub fn decode_widths(v: &Value) -> (r: Result<Vec<Width>, DecodeError>)
    ensures
        res_view(r) == spec_decode_widths(*v),
{
    let items = match v {
        Value::List(items) => items,
        _ => {
            return Err(
                DecodeError::here(
                    ErrorKind::TypeMismatch { expected: Shape::List, actual: v.shape() },
                ),
            );
        },
    };
    let n = items.len();
    let mut out: Vec<Width> = Vec::new();
    let mut i: usize = 0;
    proof {
        assert(out.deep_view() =~= Seq::<WidthV>::empty());
        if spec_decode_widths_from(items@, 0) is Ok {
            let whole = spec_decode_widths_from(items@, 0)->Ok_0;
            assert(Seq::<WidthV>::empty() + whole =~= whole);
        }
    }
    while i < n
        invariant
            i <= n,
            n == items@.len(),
            out.deep_view().len() == i,
            spec_decode_widths(*v) == spec_decode_widths_from(items@, 0),
            spec_decode_widths_from(items@, 0) == (match spec_decode_widths_from(
                items@,
                i as int,
            ) {
                Ok(rest) => Ok::<Seq<WidthV>, DecodeErrorV>(out.deep_view() + rest),
                Err(e) => Err::<Seq<WidthV>, DecodeErrorV>(e),
            }),
        decreases n - i,
    {
        let x = match decode_width(&items[i]) {
            Ok(x) => x,
            Err(e) => {
                proof {
                    assert(spec_decode_widths_from(items@, i as int) == Err::<
                        Seq<WidthV>,
                        DecodeErrorV,
                    >(spec_prefix_index(i as int, e.deep_view())));
                }
                return Err(prefix_index(i, e));
            },
        };
        let ghost pre = out.deep_view();
        let ghost xv = x.deep_view();
        out.push(x);
        proof {
            assert(out.deep_view() =~= pre.push(xv));
            if spec_decode_widths_from(items@, i as int + 1) is Ok {
                let rest = spec_decode_widths_from(items@, i as int + 1)->Ok_0;
                assert(pre + (seq![xv] + rest) =~= pre.push(xv) + rest);
            }
        }
        i = i + 1;
    }
    proof {
        assert(out.deep_view() + Seq::<WidthV>::empty() =~= out.deep_view());
    }
    Ok(out)
}

/// What decoding the elements of the register list yields, starting at
/// element `i`: the decoded tail, or the first element's error, located by
/// its index.
pub open spec fn spec_decode_registers_from(items: Seq<Value>, i: int) -> Result<
    Seq<RegisterV>,
    DecodeErrorV,
>
    decreases items.len() - i,
{
    if i < 0 || i >= items.len() {
        Ok(Seq::empty())
    } else {
        match spec_decode_register(items[i]) {
            Err(e) => Err(spec_prefix_index(i, e)),
            Ok(x) => match spec_decode_registers_from(items, i + 1) {
                Err(e) => Err(e),
                Ok(rest) => Ok(seq![x] + rest),
            },
        }
    }
}

/// What decoding the register list yields.
pub open spec fn spec_decode_registers(v: Value) -> Result<Seq<RegisterV>, DecodeErrorV> {
    match v {
        Value::List(items) => spec_decode_registers_from(items@, 0),
        _ => Err(spec_not_a_list(v)),
    }
}

/// Decode the register list.
pub fn decode_registers(v: &Value) -> (r: Result<Vec<Register>, DecodeError>)
    ensures
        res_view(r) == spec_decode_registers(*v),
{
    let items = match v {
        Value::List(items) => items,
        _ => {
            return Err(
                DecodeError::here(
                    ErrorKind::TypeMismatch { expected: Shape::List, actual: v.shape() },
                ),
            );
        },
    };
    let n = items.len();
    let mut out: Vec<Register> = Vec::new();
    let mut i: usize = 0;
    proof {
        assert(out.deep_view() =~= Seq::<RegisterV>::empty());
        if spec_decode_registers_from(items@, 0) is Ok {
            let whole = spec_decode_registers_from(items@, 0)->Ok_0;
            assert(Seq::<RegisterV>::empty() + whole =~= whole);
        }
    }
    while i < n
        invariant
            i <= n,
            n == items@.len(),
            out.deep_view().len() == i,
            spec_decode_registers(*v) == spec_decode_registers_from(items@, 0),
            spec_decode_registers_from(items@, 0) == (match spec_decode_registers_from(
                items@,
                i as int,
            ) {
                Ok(rest) => Ok::<Seq<RegisterV>, DecodeErrorV>(out.deep_view() + rest),
                Err(e) => Err::<Seq<RegisterV>, DecodeErrorV>(e),
            }),
        decreases n - i,
    {
        let x = match decode_register(&items[i]) {
            Ok(x) => x,
            Err(e) => {
                proof {
                    assert(spec_decode_registers_from(items@, i as int) == Err::<
                        Seq<RegisterV>,
                        DecodeErrorV,
                    >(spec_prefix_index(i as int, e.deep_view())));
                }
                return Err(prefix_index(i, e));
            },
        };
        let ghost pre = out.deep_view();
        let ghost xv = x.deep_view();
        out.push(x);
        proof {
            assert(out.deep_view() =~= pre.push(xv));
            if spec_decode_registers_from(items@, i as int + 1) is Ok {
                let rest = spec_decode_registers_from(items@, i as int + 1)->Ok_0;
                assert(pre + (seq![xv] + rest) =~= pre.push(xv) + rest);
            }
        }
        i = i + 1;
    }
    proof {
        assert(out.deep_view() + Seq::<RegisterV>::empty() =~= out.deep_view());
    }
    Ok(out)
}

/// What decoding the elements of a diagram's bit-field list yields, starting at
/// element `i`: the decoded tail, or the first element's error, located by
/// its index.
pub open spec fn spec_decode_diagram_fields_from(items: Seq<Value>, i: int) -> Result<
    Seq<RecordDiagramFieldV>,
    DecodeErrorV,
>
    decreases items.len() - i,
{
    if i < 0 || i >= items.len() {
        Ok(Seq::empty())
    } else {
        match spec_decode_diagram_field(items[i]) {
            Err(e) => Err(spec_prefix_index(i, e)),
            Ok(x) => match spec_decode_diagram_fields_from(items, i + 1) {
                Err(e) => Err(e),
                Ok(rest) => Ok(seq![x] + rest),
            },
        }
    }
}

/// What decoding a diagram's bit-field list yields.
pub open spec fn spec_decode_diagram_fields(v: Value) -> Result<Seq<RecordDiagramFieldV>, DecodeErrorV> {
    match v {
        Value::List(items) => spec_decode_diagram_fields_from(items@, 0),
        _ => Err(spec_not_a_list(v)),
    }
}

/// Decode a diagram's bit-field list.
pub fn decode_diagram_fields(v: &Value) -> (r: Result<Vec<RecordDiagramField>, DecodeError>)
    ensures
        res_view(r) == spec_decode_diagram_fields(*v),
{
    let items = match v {
        Value::List(items) => items,
        _ => {
            return Err(
                DecodeError::here(
                    ErrorKind::TypeMismatch { expected: Shape::List, actual: v.shape() },
                ),
            );
        },
    };
    let n = items.len();
    let mut out: Vec<RecordDiagramField> = Vec::new();
    let mut i: usize = 0;
    proof {
        assert(out.deep_view() =~= Seq::<RecordDiagramFieldV>::empty());
        if spec_decode_diagram_fields_from(items@, 0) is Ok {
            let whole = spec_decode_diagram_fields_from(items@, 0)->Ok_0;
            assert(Seq::<RecordDiagramFieldV>::empty() + whole =~= whole);
        }
    }
    while i < n
        invariant
            i <= n,
            n == items@.len(),
            out.deep_view().len() == i,
            spec_decode_diagram_fields(*v) == spec_decode_diagram_fields_from(items@, 0),
            spec_decode_diagram_fields_from(items@, 0) == (match spec_decode_diagram_fields_from(
                items@,
                i as int,
            ) {
                Ok(rest) => Ok::<Seq<RecordDiagramFieldV>, DecodeErrorV>(out.deep_view() + rest),
                Err(e) => Err::<Seq<RecordDiagramFieldV>, DecodeErrorV>(e),
            }),
        decreases n - i,
    {
        let x = match decode_diagram_field(&items[i]) {
            Ok(x) => x,
            Err(e) => {
                proof {
                    assert(spec_decode_diagram_fields_from(items@, i as int) == Err::<
                        Seq<RecordDiagramFieldV>,
                        DecodeErrorV,
                    >(spec_prefix_index(i as int, e.deep_view())));
                }
                return Err(prefix_index(i, e));
            },
        };
        let ghost pre = out.deep_view();
        let ghost xv = x.deep_view();
        out.push(x);
        proof {
            assert(out.deep_view() =~= pre.push(xv));
            if spec_decode_diagram_fields_from(items@, i as int + 1) is Ok {
                let rest = spec_decode_diagram_fields_from(items@, i as int + 1)->Ok_0;
                assert(pre + (seq![xv] + rest) =~= pre.push(xv) + rest);
            }
        }
        i = i + 1;
    }
    proof {
        assert(out.deep_view() + Seq::<RecordDiagramFieldV>::empty() =~= out.deep_view());
    }
    Ok(out)
}

/// What decoding the elements of a bit-difference field list yields, starting at
/// element `i`: the decoded tail, or the first element's error, located by
/// its index.
pub open spec fn spec_decode_bitdiff_fields_from(items: Seq<Value>, i: int) -> Result<
    Seq<RecordTemplateBitdiffsFieldV>,
    DecodeErrorV,
>
    decreases items.len() - i,
{
    if i < 0 || i >= items.len() {
        Ok(Seq::empty())
    } else {
        match spec_decode_bitdiff_field(items[i]) {
            Err(e) => Err(spec_prefix_index(i, e)),
            Ok(x) => match spec_decode_bitdiff_fields_from(items, i + 1) {
                Err(e) => Err(e),
                Ok(rest) => Ok(seq![x] + rest),
            },
        }
    }
}

/// What decoding a bit-difference field list yields.
pub open spec fn spec_decode_bitdiff_fields(v: Value) -> Result<Seq<RecordTemplateBitdiffsFieldV>, DecodeErrorV> {
    match v {
        Value::List(items) => spec_decode_bitdiff_fields_from(items@, 0),
        _ => Err(spec_not_a_list(v)),
    }
}

/// Decode a bit-difference field list.
pub fn decode_bitdiff_fields(v: &Value) -> (r: Result<Vec<RecordTemplateBitdiffsField>, DecodeError>)
    ensures
        res_view(r) == spec_decode_bitdiff_fields(*v),
{
    let items = match v {
        Value::List(items) => items,
        _ => {
            return Err(
                DecodeError::here(
                    ErrorKind::TypeMismatch { expected: Shape::List, actual: v.shape() },
                ),
            );
        },
    };
    let n = items.len();
    let mut out: Vec<RecordTemplateBitdiffsField> = Vec::new();
    let mut i: usize = 0;
    proof {
        assert(out.deep_view() =~= Seq::<RecordTemplateBitdiffsFieldV>::empty());
        if spec_decode_bitdiff_fields_from(items@, 0) is Ok {
            let whole = spec_decode_bitdiff_fields_from(items@, 0)->Ok_0;
            assert(Seq::<RecordTemplateBitdiffsFieldV>::empty() + whole =~= whole);
        }
    }
    while i < n
        invariant
            i <= n,
            n == items@.len(),
            out.deep_view().len() == i,
            spec_decode_bitdiff_fields(*v) == spec_decode_bitdiff_fields_from(items@, 0),
            spec_decode_bitdiff_fields_from(items@, 0) == (match spec_decode_bitdiff_fields_from(
                items@,
                i as int,
            ) {
                Ok(rest) => Ok::<Seq<RecordTemplateBitdiffsFieldV>, DecodeErrorV>(out.deep_view() + rest),
                Err(e) => Err::<Seq<RecordTemplateBitdiffsFieldV>, DecodeErrorV>(e),
            }),
        decreases n - i,
    {
        let x = match decode_bitdiff_field(&items[i]) {
            Ok(x) => x,
            Err(e) => {
                proof {
                    assert(spec_decode_bitdiff_fields_from(items@, i as int) == Err::<
                        Seq<RecordTemplateBitdiffsFieldV>,
                        DecodeErrorV,
                    >(spec_prefix_index(i as int, e.deep_view())));
                }
                return Err(prefix_index(i, e));
            },
        };
        let ghost pre = out.deep_view();
        let ghost xv = x.deep_view();
        out.push(x);
        proof {
            assert(out.deep_view() =~= pre.push(xv));
            if spec_decode_bitdiff_fields_from(items@, i as int + 1) is Ok {
                let rest = spec_decode_bitdiff_fields_from(items@, i as int + 1)->Ok_0;
                assert(pre + (seq![xv] + rest) =~= pre.push(xv) + rest);
            }
        }
        i = i + 1;
    }
    proof {
        assert(out.deep_view() + Seq::<RecordTemplateBitdiffsFieldV>::empty() =~= out.deep_view());
    }
    Ok(out)
}

/// What decoding the elements of an operand-syntax AST list yields, starting at
/// element `i`: the decoded tail, or the first element's error, located by
/// its index.
pub open spec fn spec_decode_asts_from(items: Seq<Value>, i: int) -> Result<
    Seq<RecordAstV>,
    DecodeErrorV,
>
    decreases items.len() - i,
{
    if i < 0 || i >= items.len() {
        Ok(Seq::empty())
    } else {
        match spec_decode_ast(items[i]) {
            Err(e) => Err(spec_prefix_index(i, e)),
            Ok(x) => match spec_decode_asts_from(items, i + 1) {
                Err(e) => Err(e),
                Ok(rest) => Ok(seq![x] + rest),
            },
        }
    }
}

/// What decoding an operand-syntax AST list yields.
pub open spec fn spec_decode_asts(v: Value) -> Result<Seq<RecordAstV>, DecodeErrorV> {
    match v {
        Value::List(items) => spec_decode_asts_from(items@, 0),
        _ => Err(spec_not_a_list(v)),
    }
}

/// Decode an operand-syntax AST list.
pub fn decode_asts(v: &Value) -> (r: Result<Vec<RecordAst>, DecodeError>)
    ensures
        res_view(r) == spec_decode_asts(*v),
{
    let items = match v {
        Value::List(items) => items,
        _ => {
            return Err(
                DecodeError::here(
                    ErrorKind::TypeMismatch { expected: Shape::List, actual: v.shape() },
                ),
            );
        },
    };
    let n = items.len();
    let mut out: Vec<RecordAst> = Vec::new();
    let mut i: usize = 0;
    proof {
        assert(out.deep_view() =~= Seq::<RecordAstV>::empty());
        if spec_decode_asts_from(items@, 0) is Ok {
            let whole = spec_decode_asts_from(items@, 0)->Ok_0;
            assert(Seq::<RecordAstV>::empty() + whole =~= whole);
        }
    }
    while i < n
        invariant
            i <= n,
            n == items@.len(),
            out.deep_view().len() == i,
            spec_decode_asts(*v) == spec_decode_asts_from(items@, 0),
            spec_decode_asts_from(items@, 0) == (match spec_decode_asts_from(
                items@,
                i as int,
            ) {
                Ok(rest) => Ok::<Seq<RecordAstV>, DecodeErrorV>(out.deep_view() + rest),
                Err(e) => Err::<Seq<RecordAstV>, DecodeErrorV>(e),
            }),
        decreases n - i,
    {
        let x = match decode_ast(&items[i]) {
            Ok(x) => x,
            Err(e) => {
                proof {
                    assert(spec_decode_asts_from(items@, i as int) == Err::<
                        Seq<RecordAstV>,
                        DecodeErrorV,
                    >(spec_prefix_index(i as int, e.deep_view())));
                }
                return Err(prefix_index(i, e));
            },
        };
        let ghost pre = out.deep_view();
        let ghost xv = x.deep_view();
        out.push(x);
        proof {
            assert(out.deep_view() =~= pre.push(xv));
            if spec_decode_asts_from(items@, i as int + 1) is Ok {
                let rest = spec_decode_asts_from(items@, i as int + 1)->Ok_0;
                assert(pre + (seq![xv] + rest) =~= pre.push(xv) + rest);
            }
        }
        i = i + 1;
    }
    proof {
        assert(out.deep_view() + Seq::<RecordAstV>::empty() =~= out.deep_view());
    }
    Ok(out)
}

/// What decoding the elements of a list of plain strings yields, starting at
/// element `i`: the decoded tail, or the first element's error, located by
/// its index.
pub open spec fn spec_decode_string_list_from(items: Seq<Value>, i: int) -> Result<
    Seq<Seq<char>>,
    DecodeErrorV,
>
    decreases items.len() - i,
{
    if i < 0 || i >= items.len() {
        Ok(Seq::empty())
    } else {
        match spec_decode_string(items[i]) {
            Err(e) => Err(spec_prefix_index(i, e)),
            Ok(x) => match spec_decode_string_list_from(items, i + 1) {
                Err(e) => Err(e),
                Ok(rest) => Ok(seq![x] + rest),
            },
        }
    }
}

/// What decoding a list of plain strings yields.
pub open spec fn spec_decode_string_list(v: Value) -> Result<Seq<Seq<char>>, DecodeErrorV> {
    match v {
        Value::List(items) => spec_decode_string_list_from(items@, 0),
        _ => Err(spec_not_a_list(v)),
    }
}

/// Decode a list of plain strings.
pub fn decode_string_list(v: &Value) -> (r: Result<Vec<String>, DecodeError>)
    ensures
        res_view(r) == spec_decode_string_list(*v),
{
    let items = match v {
        Value::List(items) => items,
        _ => {
            return Err(
                DecodeError::here(
                    ErrorKind::TypeMismatch { expected: Shape::List, actual: v.shape() },
                ),
            );
        },
    };
    let n = items.len();
    let mut out: Vec<String> = Vec::new();
    let mut i: usize = 0;
    proof {
        assert(out.deep_view() =~= Seq::<Seq<char>>::empty());
        if spec_decode_string_list_from(items@, 0) is Ok {
            let whole = spec_decode_string_list_from(items@, 0)->Ok_0;
            assert(Seq::<Seq<char>>::empty() + whole =~= whole);
        }
    }
    while i < n
        invariant
            i <= n,
            n == items@.len(),
            out.deep_view().len() == i,
            spec_decode_string_list(*v) == spec_decode_string_list_from(items@, 0),
            spec_decode_string_list_from(items@, 0) == (match spec_decode_string_list_from(
                items@,
                i as int,
            ) {
                Ok(rest) => Ok::<Seq<Seq<char>>, DecodeErrorV>(out.deep_view() + rest),
                Err(e) => Err::<Seq<Seq<char>>, DecodeErrorV>(e),
            }),
        decreases n - i,
    {
        let x = match decode_string(&items[i]) {
            Ok(x) => x,
            Err(e) => {
                proof {
                    assert(spec_decode_string_list_from(items@, i as int) == Err::<
                        Seq<Seq<char>>,
                        DecodeErrorV,
                    >(spec_prefix_index(i as int, e.deep_view())));
                }
                return Err(prefix_index(i, e));
            },
        };
        let ghost pre = out.deep_view();
        let ghost xv = x.deep_view();
        out.push(x);
        proof {
            assert(out.deep_view() =~= pre.push(xv));
            if spec_decode_string_list_from(items@, i as int + 1) is Ok {
                let rest = spec_decode_string_list_from(items@, i as int + 1)->Ok_0;
                assert(pre + (seq![xv] + rest) =~= pre.push(xv) + rest);
            }
        }
        i = i + 1;
    }
    proof {
        assert(out.deep_view() + Seq::<Seq<char>>::empty() =~= out.deep_view());
    }
    Ok(out)
}

/// What decoding the elements of the reserved table list yields, starting at
/// element `i`: the decoded tail, or the first element's error, located by
/// its index.
pub open spec fn spec_decode_tables_from(items: Seq<Value>, i: int) -> Result<
    Seq<TableV>,
    DecodeErrorV,
>
    decreases items.len() - i,
{
    if i < 0 || i >= items.len() {
        Ok(Seq::empty())
    } else {
        match spec_decode_table(items[i]) {
            Err(e) => Err(spec_prefix_index(i, e)),
            Ok(x) => match spec_decode_tables_from(items, i + 1) {
                Err(e) => Err(e),
                Ok(rest) => Ok(seq![x] + rest),
            },
        }
    }
}

/// What decoding the reserved table list yields.
pub open spec fn spec_decode_tables(v: Value) -> Result<Seq<TableV>, DecodeErrorV> {
    match v {
        Value::List(items) => spec_decode_tables_from(items@, 0),
        _ => Err(spec_not_a_list(v)),
    }
}

/// Decode the reserved table list.
pub fn decode_tables(v: &Value) -> (r: Result<Vec<Table>, DecodeError>)
    ensures
        res_view(r) == spec_decode_tables(*v),
{
    let items = match v {
        Value::List(items) => items,
        _ => {
            return Err(
                DecodeError::here(
                    ErrorKind::TypeMismatch { expected: Shape::List, actual: v.shape() },
                ),
            );
        },
    };
    let n = items.len();
    let mut out: Vec<Table> = Vec::new();
    let mut i: usize = 0;
    proof {
        assert(out.deep_view() =~= Seq::<TableV>::empty());
        if spec_decode_tables_from(items@, 0) is Ok {
            let whole = spec_decode_tables_from(items@, 0)->Ok_0;
            assert(Seq::<TableV>::empty() + whole =~= whole);
        }
    }
    while i < n
        invariant
            i <= n,
            n == items@.len(),
            out.deep_view().len() == i,
            spec_decode_tables(*v) == spec_decode_tables_from(items@, 0),
            spec_decode_tables_from(items@, 0) == (match spec_decode_tables_from(
                items@,
                i as int,
            ) {
                Ok(rest) => Ok::<Seq<TableV>, DecodeErrorV>(out.deep_view() + rest),
                Err(e) => Err::<Seq<TableV>, DecodeErrorV>(e),
            }),
        decreases n - i,
    {
        let x = match decode_table(&items[i]) {
            Ok(x) => x,
            Err(e) => {
                proof {
                    assert(spec_decode_tables_from(items@, i as int) == Err::<
                        Seq<TableV>,
                        DecodeErrorV,
                    >(spec_prefix_index(i as int, e.deep_view())));
                }
                return Err(prefix_index(i, e));
            },
        };
        let ghost pre = out.deep_view();
        let ghost xv = x.deep_view();
        out.push(x);
        proof {
            assert(out.deep_view() =~= pre.push(xv));
            if spec_decode_tables_from(items@, i as int + 1) is Ok {
                let rest = spec_decode_tables_from(items@, i as int + 1)->Ok_0;
                assert(pre + (seq![xv] + rest) =~= pre.push(xv) + rest);
            }
        }
        i = i + 1;
    }
    proof {
        assert(out.deep_view() + Seq::<TableV>::empty() =~= out.deep_view());
    }
    Ok(out)
}

/// What decoding the elements of the enumeration list yields, starting at
/// element `i`: the decoded tail, or the first element's error, located by
/// its index.
pub open spec fn spec_decode_enums_from(items: Seq<Value>, i: int) -> Result<
    Seq<EnumV>,
    DecodeErrorV,
>
    decreases items.len() - i,
{
    if i < 0 || i >= items.len() {
        Ok(Seq::empty())
    } else {
        match spec_decode_enum(items[i]) {
            Err(e) => Err(spec_prefix_index(i, e)),
            Ok(x) => match spec_decode_enums_from(items, i + 1) {
                Err(e) => Err(e),
                Ok(rest) => Ok(seq![x] + rest),
            },
        }
    }
}

/// What decoding the enumeration list yields.
pub open spec fn spec_decode_enums(v: Value) -> Result<Seq<EnumV>, DecodeErrorV> {
    match v {
        Value::List(items) => spec_decode_enums_from(items@, 0),
        _ => Err(spec_not_a_list(v)),
    }
}

/// Decode the enumeration list.
pub fn decode_enums(v: &Value) -> (r: Result<Vec<Enum>, DecodeError>)
    ensures
        res_view(r) == spec_decode_enums(*v),
{
    let items = match v {
        Value::List(items) => items,
        _ => {
            return Err(
                DecodeError::here(
                    ErrorKind::TypeMismatch { expected: Shape::List, actual: v.shape() },
                ),
            );
        },
    };
    let n = items.len();
    let mut out: Vec<Enum> = Vec::new();
    let mut i: usize = 0;
    proof {
        assert(out.deep_view() =~= Seq::<EnumV>::empty());
        if spec_decode_enums_from(items@, 0) is Ok {
            let whole = spec_decode_enums_from(items@, 0)->Ok_0;
            assert(Seq::<EnumV>::empty() + whole =~= whole);
        }
    }
    while i < n
        invariant
            i <= n,
            n == items@.len(),
            out.deep_view().len() == i,
            spec_decode_enums(*v) == spec_decode_enums_from(items@, 0),
            spec_decode_enums_from(items@, 0) == (match spec_decode_enums_from(
                items@,
                i as int,
            ) {
                Ok(rest) => Ok::<Seq<EnumV>, DecodeErrorV>(out.deep_view() + rest),
                Err(e) => Err::<Seq<EnumV>, DecodeErrorV>(e),
            }),
        decreases n - i,
    {
        let x = match decode_enum(&items[i]) {
            Ok(x) => x,
            Err(e) => {
                proof {
                    assert(spec_decode_enums_from(items@, i as int) == Err::<
                        Seq<EnumV>,
                        DecodeErrorV,
                    >(spec_prefix_index(i as int, e.deep_view())));
                }
                return Err(prefix_index(i, e));
            },
        };
        let ghost pre = out.deep_view();
        let ghost xv = x.deep_view();
        out.push(x);
        proof {
            assert(out.deep_view() =~= pre.push(xv));
            if spec_decode_enums_from(items@, i as int + 1) is Ok {
                let rest = spec_decode_enums_from(items@, i as int + 1)->Ok_0;
                assert(pre + (seq![xv] + rest) =~= pre.push(xv) + rest);
            }
        }
        i = i + 1;
    }
    proof {
        assert(out.deep_view() + Seq::<EnumV>::empty() =~= out.deep_view());
    }
    Ok(out)
}

/// What decoding the elements of a record's template list yields, starting at
/// element `i`: the decoded tail, or the first element's error, located by
/// its index.
pub open spec fn spec_decode_templates_from(items: Seq<Value>, i: int) -> Result<
    Seq<RecordTemplateV>,
    DecodeErrorV,
>
    decreases items.len() - i,
{
    if i < 0 || i >= items.len() {
        Ok(Seq::empty())
    } else {
        match spec_decode_template(items[i]) {
            Err(e) => Err(spec_prefix_index(i, e)),
            Ok(x) => match spec_decode_templates_from(items, i + 1) {
                Err(e) => Err(e),
                Ok(rest) => Ok(seq![x] + rest),
            },
        }
    }
}

/// What decoding a record's template list yields.
pub open spec fn spec_decode_templates(v: Value) -> Result<Seq<RecordTemplateV>, DecodeErrorV> {
    match v {
        Value::List(items) => spec_decode_templates_from(items@, 0),
        _ => Err(spec_not_a_list(v)),
    }
}

/// Decode a record's template list.
pub fn decode_templates(v: &Value) -> (r: Result<Vec<RecordTemplate>, DecodeError>)
    ensures
        res_view(r) == spec_decode_templates(*v),
{
    let items = match v {
        Value::List(items) => items,
        _ => {
            return Err(
                DecodeError::here(
                    ErrorKind::TypeMismatch { expected: Shape::List, actual: v.shape() },
                ),
            );
        },
    };
    let n = items.len();
    let mut out: Vec<RecordTemplate> = Vec::new();
    let mut i: usize = 0;
    proof {
        assert(out.deep_view() =~= Seq::<RecordTemplateV>::empty());
        if spec_decode_templates_from(items@, 0) is Ok {
            let whole = spec_decode_templates_from(items@, 0)->Ok_0;
            assert(Seq::<RecordTemplateV>::empty() + whole =~= whole);
        }
    }
    while i < n
        invariant
            i <= n,
            n == items@.len(),
            out.deep_view().len() == i,
            spec_decode_templates(*v) == spec_decode_templates_from(items@, 0),
            spec_decode_templates_from(items@, 0) == (match spec_decode_templates_from(
                items@,
                i as int,
            ) {
                Ok(rest) => Ok::<Seq<RecordTemplateV>, DecodeErrorV>(out.deep_view() + rest),
                Err(e) => Err::<Seq<RecordTemplateV>, DecodeErrorV>(e),
            }),
        decreases n - i,
    {
        let x = match decode_template(&items[i]) {
            Ok(x) => x,
            Err(e) => {
                proof {
                    assert(spec_decode_templates_from(items@, i as int) == Err::<
                        Seq<RecordTemplateV>,
                        DecodeErrorV,
                    >(spec_prefix_index(i as int, e.deep_view())));
                }
                return Err(prefix_index(i, e));
            },
        };
        let ghost pre = out.deep_view();
        let ghost xv = x.deep_view();
        out.push(x);
        proof {
            assert(out.deep_view() =~= pre.push(xv));
            if spec_decode_templates_from(items@, i as int + 1) is Ok {
                let rest = spec_decode_templates_from(items@, i as int + 1)->Ok_0;
                assert(pre + (seq![xv] + rest) =~= pre.push(xv) + rest);
            }
        }
        i = i + 1;
    }
    proof {
        assert(out.deep_view() + Seq::<RecordTemplateV>::empty() =~= out.deep_view());
    }
    Ok(out)
}

/// What decoding the elements of the record list yields, starting at
/// element `i`: the decoded tail, or the first element's error, located by
/// its index.
pub open spec fn spec_decode_records_from(items: Seq<Value>, i: int) -> Result<
    Seq<RecordV>,
    DecodeErrorV,
>
    decreases items.len() - i,
{
    if i < 0 || i >= items.len() {
        Ok(Seq::empty())
    } else {
        match spec_decode_record(items[i]) {
            Err(e) => Err(spec_prefix_index(i, e)),
            Ok(x) => match spec_decode_records_from(items, i + 1) {
                Err(e) => Err(e),
                Ok(rest) => Ok(seq![x] + rest),
            },
        }
    }
}

/// What decoding the record list yields.
pub open spec fn spec_decode_records(v: Value) -> Result<Seq<RecordV>, DecodeErrorV> {
    match v {
        Value::List(items) => spec_decode_records_from(items@, 0),
        _ => Err(spec_not_a_list(v)),
    }
}

/// Decode the record list.
pub fn decode_records(v: &Value) -> (r: Result<Vec<Record>, DecodeError>)
    ensures
        res_view(r) == spec_decode_records(*v),
{
    let items = match v {
        Value::List(items) => items,
        _ => {
            return Err(
                DecodeError::here(
                    ErrorKind::TypeMismatch { expected: Shape::List, actual: v.shape() },
                ),
            );
        },
    };
    let n = items.len();
    let mut out: Vec<Record> = Vec::new();
    let mut i: usize = 0;
    proof {
        assert(out.deep_view() =~= Seq::<RecordV>::empty());
        if spec_decode_records_from(items@, 0) is Ok {
            let whole = spec_decode_records_from(items@, 0)->Ok_0;
            assert(Seq::<RecordV>::empty() + whole =~= whole);
        }
    }
    while i < n
        invariant
            i <= n,
            n == items@.len(),
            out.deep_view().len() == i,
            spec_decode_records(*v) == spec_decode_records_from(items@, 0),
            spec_decode_records_from(items@, 0) == (match spec_decode_records_from(
                items@,
                i as int,
            ) {
                Ok(rest) => Ok::<Seq<RecordV>, DecodeErrorV>(out.deep_view() + rest),
                Err(e) => Err::<Seq<RecordV>, DecodeErrorV>(e),
            }),
        decreases n - i,
    {
        let x = match decode_record(&items[i]) {
            Ok(x) => x,
            Err(e) => {
                proof {
                    assert(spec_decode_records_from(items@, i as int) == Err::<
                        Seq<RecordV>,
                        DecodeErrorV,
                    >(spec_prefix_index(i as int, e.deep_view())));
                }
                return Err(prefix_index(i, e));
            },
        };
        let ghost pre = out.deep_view();
        let ghost xv = x.deep_view();
        out.push(x);
        proof {
            assert(out.deep_view() =~= pre.push(xv));
            if spec_decode_records_from(items@, i as int + 1) is Ok {
                let rest = spec_decode_records_from(items@, i as int + 1)->Ok_0;
                assert(pre + (seq![xv] + rest) =~= pre.push(xv) + rest);
            }
        }
        i = i + 1;
    }
    proof {
        assert(out.deep_view() + Seq::<RecordV>::empty() =~= out.deep_view());
    }
    Ok(out)
}

/// What decoding a record's bit diagram yields.
pub open spec fn spec_decode_diagram(v: Value) -> Result<RecordDiagramV, DecodeErrorV> {
    match v {
        Value::Object(fields) => match spec_req_field(fields@, "fields"@) {
            Err(e) => Err(e),
            Ok(fields_value) => match spec_decode_diagram_fields(fields_value) {
                Err(e) => Err(spec_prefix_key("fields"@, e)),
                Ok(fs) => Ok(RecordDiagramV { fields: fs }),
            },
        },
        _ => Err(spec_not_an_object(v)),
    }
}

/// Decode a record's bit diagram.
pub fn decode_diagram(v: &Value) -> (r: Result<RecordDiagram, DecodeError>)
    ensures
        res_view(r) == spec_decode_diagram(*v),
{
    let fields = match v {
        Value::Object(fields) => fields,
        _ => {
            return Err(
                DecodeError::here(
                    ErrorKind::TypeMismatch { expected: Shape::Object, actual: v.shape() },
                ),
            );
        },
    };
    let fields_value = match req_field(fields, "fields") {
        Ok(x) => x,
        Err(e) => return Err(e),
    };
    let fs = match decode_diagram_fields(fields_value) {
        Ok(x) => x,
        Err(e) => return Err(prefix_key("fields", e)),
    };
    Ok(RecordDiagram { fields: fs })
}

/// What decoding a template's bit-difference block yields.
pub open spec fn spec_decode_bitdiffs(v: Value) -> Result<RecordTemplateBitdiffsV, DecodeErrorV> {
    match v {
        Value::Object(fields) => match spec_req_field(fields@, "fields"@) {
            Err(e) => Err(e),
            Ok(fields_value) => match spec_decode_bitdiff_fields(fields_value) {
                Err(e) => Err(spec_prefix_key("fields"@, e)),
                Ok(fs) => Ok(RecordTemplateBitdiffsV { fields: fs }),
            },
        },
        _ => Err(spec_not_an_object(v)),
    }
}

/// Decode a template's bit-difference block.
pub fn decode_bitdiffs(v: &Value) -> (r: Result<RecordTemplateBitdiffs, DecodeError>)
    ensures
        res_view(r) == spec_decode_bitdiffs(*v),
{
    let fields = match v {
        Value::Object(fields) => fields,
        _ => {
            return Err(
                DecodeError::here(
                    ErrorKind::TypeMismatch { expected: Shape::Object, actual: v.shape() },
                ),
            );
        },
    };
    let fields_value = match req_field(fields, "fields") {
        Ok(x) => x,
        Err(e) => return Err(e),
    };
    let fs = match decode_bitdiff_fields(fields_value) {
        Ok(x) => x,
        Err(e) => return Err(prefix_key("fields", e)),
    };
    Ok(RecordTemplateBitdiffs { fields: fs })
}

/// What decoding a template's operand syntax yields.
pub open spec fn spec_decode_syntax(v: Value) -> Result<RecordTemplateSyntaxV, DecodeErrorV> {
    match v {
        Value::Object(fields) => match spec_req_str_field(fields@, "mnem"@) {
            Err(e) => Err(e),
            Ok(mnem) => match spec_req_str_field(fields@, "text"@) {
                Err(e) => Err(e),
                Ok(text) => match spec_req_field(fields@, "ast"@) {
                    Err(e) => Err(e),
                    Ok(ast_value) => match spec_decode_asts(ast_value) {
                        Err(e) => Err(spec_prefix_key("ast"@, e)),
                        Ok(ast) => Ok(RecordTemplateSyntaxV { mnem, text, ast }),
                    },
                },
            },
        },
        _ => Err(spec_not_an_object(v)),
    }
}

/// Decode a template's operand syntax.
pub fn decode_syntax(v: &Value) -> (r: Result<RecordTemplateSyntax, DecodeError>)
    ensures
        res_view(r) == spec_decode_syntax(*v),
{
    let fields = match v {
        Value::Object(fields) => fields,
        _ => {
            return Err(
                DecodeError::here(
                    ErrorKind::TypeMismatch { expected: Shape::Object, actual: v.shape() },
                ),
            );
        },
    };
    let mnem = match req_str_field(fields, "mnem") {
        Ok(x) => x,
        Err(e) => return Err(e),
    };
    let text = match req_str_field(fields, "text") {
        Ok(x) => x,
        Err(e) => return Err(e),
    };
    let ast_value = match req_field(fields, "ast") {
        Ok(x) => x,
        Err(e) => return Err(e),
    };
    let ast = match decode_asts(ast_value) {
        Ok(x) => x,
        Err(e) => return Err(prefix_key("ast", e)),
    };
    Ok(RecordTemplateSyntax { mnem, text, ast })
}

/// What decoding one encoding template yields.
pub open spec fn spec_decode_template(v: Value) -> Result<RecordTemplateV, DecodeErrorV> {
    match v {
        Value::Object(fields) => match spec_req_field(fields@, "metadata"@) {
            Err(e) => Err(e),
            Ok(md_value) => match spec_decode_template_metadata(md_value) {
                Err(e) => Err(spec_prefix_key("metadata"@, e)),
                Ok(metadata) => match spec_template_bitdiffs(fields@) {
                    Err(e) => Err(e),
                    Ok(bitdiffs) => match spec_req_field(fields@, "syntax"@) {
                        Err(e) => Err(e),
                        Ok(sy_value) => match spec_decode_syntax(sy_value) {
                            Err(e) => Err(spec_prefix_key("syntax"@, e)),
                            Ok(syntax) => Ok(RecordTemplateV { metadata, bitdiffs, syntax }),
                        },
                    },
                },
            },
        },
        _ => Err(spec_not_an_object(v)),
    }
}

/// A template's optional `bitdiffs` component.
pub open spec fn spec_template_bitdiffs(fields: Seq<(String, Value)>) -> Result<
    Option<RecordTemplateBitdiffsV>,
    DecodeErrorV,
> {
    match spec_opt_field(fields, "bitdiffs"@) {
        None => Ok(None),
        Some(v) => match spec_decode_bitdiffs(v) {
            Err(e) => Err(spec_prefix_key("bitdiffs"@, e)),
            Ok(b) => Ok(Some(b)),
        },
    }
}

/// Decode one encoding template.
pub fn decode_template(v: &Value) -> (r: Result<RecordTemplate, DecodeError>)
    ensures
        res_view(r) == spec_decode_template(*v),
{
    let fields = match v {
        Value::Object(fields) => fields,
        _ => {
            return Err(
                DecodeError::here(
                    ErrorKind::TypeMismatch { expected: Shape::Object, actual: v.shape() },
                ),
            );
        },
    };
    let md_value = match req_field(fields, "metadata") {
        Ok(x) => x,
        Err(e) => return Err(e),
    };
    let metadata = match decode_template_metadata(md_value) {
        Ok(x) => x,
        Err(e) => return Err(prefix_key("metadata", e)),
    };
    let bitdiffs = match opt_field(fields, "bitdiffs") {
        None => None,
        Some(bd_value) => match decode_bitdiffs(bd_value) {
            Ok(x) => Some(x),
            Err(e) => return Err(prefix_key("bitdiffs", e)),
        },
    };
    let sy_value = match req_field(fields, "syntax") {
        Ok(x) => x,
        Err(e) => return Err(e),
    };
    let syntax = match decode_syntax(sy_value) {
        Ok(x) => x,
        Err(e) => return Err(prefix_key("syntax", e)),
    };
    Ok(RecordTemplate { metadata, bitdiffs, syntax })
}

/// What decoding one catalogue record yields: two required open string
/// tags, then eight optional components.
pub open spec fn spec_decode_record(v: Value) -> Result<RecordV, DecodeErrorV> {
    match v {
        Value::Object(fields) => match spec_req_str_field(fields@, "id"@) {
            Err(e) => Err(e),
            Ok(id) => match spec_req_str_field(fields@, "rectype"@) {
                Err(e) => Err(e),
                Ok(rectype) => match spec_opt_str_field(fields@, "title"@) {
                    Err(e) => Err(e),
                    Ok(title) => match spec_record_extensions(fields@) {
                        Err(e) => Err(e),
                        Ok(extensions) => match spec_record_metadata(fields@) {
                            Err(e) => Err(e),
                            Ok(metadata) => match spec_record_diagram(fields@) {
                                Err(e) => Err(e),
                                Ok(diagram) => match spec_record_categories(fields@) {
                                    Err(e) => Err(e),
                                    Ok(categories) => match spec_record_tags(fields@) {
                                        Err(e) => Err(e),
                                        Ok(tags) => match spec_record_templates(fields@) {
                                            Err(e) => Err(e),
                                            Ok(templates) => match spec_record_iflags(fields@) {
                                                Err(e) => Err(e),
                                                Ok(iflags) => Ok(
                                                    RecordV {
                                                        id,
                                                        rectype,
                                                        title,
                                                        extensions,
                                                        metadata,
                                                        diagram,
                                                        categories,
                                                        tags,
                                                        templates,
                                                        iflags,
                                                    },
                                                ),
                                            },
                                        },
                                    },
                                },
                            },
                        },
                    },
                },
            },
        },
        _ => Err(spec_not_an_object(v)),
    }
}

/// A record's optional `extensions` component.
pub open spec fn spec_record_extensions(fields: Seq<(String, Value)>) -> Result<
    Option<Seq<Seq<char>>>,
    DecodeErrorV,
> {
    match spec_opt_field(fields, "extensions"@) {
        None => Ok(None),
        Some(v) => match spec_decode_string_list(v) {
            Err(e) => Err(spec_prefix_key("extensions"@, e)),
            Ok(xs) => Ok(Some(xs)),
        },
    }
}

/// A record's optional `metadata` component.
pub open spec fn spec_record_metadata(fields: Seq<(String, Value)>) -> Result<
    Option<RecordMetadataV>,
    DecodeErrorV,
> {
    match spec_opt_field(fields, "metadata"@) {
        None => Ok(None),
        Some(v) => match spec_decode_metadata(v) {
            Err(e) => Err(spec_prefix_key("metadata"@, e)),
            Ok(m) => Ok(Some(m)),
        },
    }
}

/// A record's optional `diagram` component.
pub open spec fn spec_record_diagram(fields: Seq<(String, Value)>) -> Result<
    Option<RecordDiagramV>,
    DecodeErrorV,
> {
    match spec_opt_field(fields, "diagram"@) {
        None => Ok(None),
        Some(v) => match spec_decode_diagram(v) {
            Err(e) => Err(spec_prefix_key("diagram"@, e)),
            Ok(d) => Ok(Some(d)),
        },
    }
}

/// A record's optional `categories` component.
pub open spec fn spec_record_categories(fields: Seq<(String, Value)>) -> Result<
    Option<Seq<Seq<char>>>,
    DecodeErrorV,
> {
    match spec_opt_field(fields, "categories"@) {
        None => Ok(None),
        Some(v) => match spec_decode_string_list(v) {
            Err(e) => Err(spec_prefix_key("categories"@, e)),
            Ok(xs) => Ok(Some(xs)),
        },
    }
}

/// A record's optional `tags` component.
pub open spec fn spec_record_tags(fields: Seq<(String, Value)>) -> Result<
    Option<RecordTagsV>,
    DecodeErrorV,
> {
    match spec_opt_field(fields, "tags"@) {
        None => Ok(None),
        Some(v) => match spec_decode_tags(v) {
            Err(e) => Err(spec_prefix_key("tags"@, e)),
            Ok(t) => Ok(Some(t)),
        },
    }
}

/// A record's optional `templates` component.
pub open spec fn spec_record_templates(fields: Seq<(String, Value)>) -> Result<
    Option<Seq<RecordTemplateV>>,
    DecodeErrorV,
> {
    match spec_opt_field(fields, "templates"@) {
        None => Ok(None),
        Some(v) => match spec_decode_templates(v) {
            Err(e) => Err(spec_prefix_key("templates"@, e)),
            Ok(ts) => Ok(Some(ts)),
        },
    }
}

/// A record's optional `iflags` component.
pub open spec fn spec_record_iflags(fields: Seq<(String, Value)>) -> Result<
    Option<RecordIflagsV>,
    DecodeErrorV,
> {
    match spec_opt_field(fields, "iflags"@) {
        None => Ok(None),
        Some(v) => match spec_decode_iflags(v) {
            Err(e) => Err(spec_prefix_key("iflags"@, e)),
            Ok(f) => Ok(Some(f)),
        },
    }
}

/// Decode one catalogue record.
pub fn decode_record(v: &Value) -> (r: Result<Record, DecodeError>)
    ensures
        res_view(r) == spec_decode_record(*v),
{
    let fields = match v {
        Value::Object(fields) => fields,
        _ => {
            return Err(
                DecodeError::here(
                    ErrorKind::TypeMismatch { expected: Shape::Object, actual: v.shape() },
                ),
            );
        },
    };
    let id = match req_str_field(fields, "id") {
        Ok(x) => x,
        Err(e) => return Err(e),
    };
    let rectype = match req_str_field(fields, "rectype") {
        Ok(x) => x,
        Err(e) => return Err(e),
    };
    let title = match opt_str_field(fields, "title") {
        Ok(x) => x,
        Err(e) => return Err(e),
    };
    let extensions = match opt_field(fields, "extensions") {
        None => None,
        Some(xv) => match decode_string_list(xv) {
            Ok(x) => Some(x),
            Err(e) => return Err(prefix_key("extensions", e)),
        },
    };
    let metadata = match opt_field(fields, "metadata") {
        None => None,
        Some(mv) => match decode_metadata(mv) {
            Ok(x) => Some(x),
            Err(e) => return Err(prefix_key("metadata", e)),
        },
    };
    let diagram = match opt_field(fields, "diagram") {
        None => None,
        Some(dv) => match decode_diagram(dv) {
            Ok(x) => Some(x),
            Err(e) => return Err(prefix_key("diagram", e)),
        },
    };
    let categories = match opt_field(fields, "categories") {
        None => None,
        Some(cv) => match decode_string_list(cv) {
            Ok(x) => Some(x),
            Err(e) => return Err(prefix_key("categories", e)),
        },
    };
    let tags = match opt_field(fields, "tags") {
        None => None,
        Some(tv) => match decode_tags(tv) {
            Ok(x) => Some(x),
            Err(e) => return Err(prefix_key("tags", e)),
        },
    };
    let templates = match opt_field(fields, "templates") {
        None => None,
        Some(tv) => match decode_templates(tv) {
            Ok(x) => Some(x),
            Err(e) => return Err(prefix_key("templates", e)),
        },
    };
    let iflags = match opt_field(fields, "iflags") {
        None => None,
        Some(fv) => match decode_iflags(fv) {
            Ok(x) => Some(x),
            Err(e) => return Err(prefix_key("iflags", e)),
        },
    };
    Ok(
        Record {
            id,
            rectype,
            title,
            extensions,
            metadata,
            diagram,
            categories,
            tags,
            templates,
            iflags,
        },
    )
}

/// What loading a whole catalogue document yields: a fully populated
/// database, or the first field-localized failure, with no partial result.
pub open spec fn spec_load_database(v: Value) -> Result<OpcodesDatabaseV, DecodeErrorV> {
    match v {
        Value::Object(fields) => match spec_db_enums(fields@) {
            Err(e) => Err(e),
            Ok(enums) => match spec_req_str_field(fields@, "arch"@) {
                Err(e) => Err(e),
                Ok(arch) => match spec_db_widths(fields@) {
                    Err(e) => Err(e),
                    Ok(widths) => match spec_db_registers(fields@) {
                        Err(e) => Err(e),
                        Ok(registers) => match spec_req_str_field(fields@, "version"@) {
                            Err(e) => Err(e),
                            Ok(version) => match spec_db_records(fields@) {
                                Err(e) => Err(e),
                                Ok(records) => match spec_db_tables(fields@) {
                                    Err(e) => Err(e),
                                    Ok(tables) => Ok(
                                        OpcodesDatabaseV {
                                            arch,
                                            version,
                                            enums,
                                            widths,
                                            registers,
                                            records,
                                            tables,
                                        },
                                    ),
                                },
                            },
                        },
                    },
                },
            },
        },
        _ => Err(spec_not_an_object(v)),
    }
}

/// The database's required `enums` catalogue.
pub open spec fn spec_db_enums(fields: Seq<(String, Value)>) -> Result<Seq<EnumV>, DecodeErrorV> {
    match spec_req_field(fields, "enums"@) {
        Err(e) => Err(e),
        Ok(v) => match spec_decode_enums(v) {
            Err(e) => Err(spec_prefix_key("enums"@, e)),
            Ok(xs) => Ok(xs),
        },
    }
}

/// The database's required `widths` catalogue.
pub open spec fn spec_db_widths(fields: Seq<(String, Value)>) -> Result<Seq<WidthV>, DecodeErrorV> {
    match spec_req_field(fields, "widths"@) {
        Err(e) => Err(e),
        Ok(v) => match spec_decode_widths(v) {
            Err(e) => Err(spec_prefix_key("widths"@, e)),
            Ok(xs) => Ok(xs),
        },
    }
}

/// The database's required `registers` catalogue.
pub open spec fn spec_db_registers(fields: Seq<(String, Value)>) -> Result<
    Seq<RegisterV>,
    DecodeErrorV,
> {
    match spec_req_field(fields, "registers"@) {
        Err(e) => Err(e),
        Ok(v) => match spec_decode_registers(v) {
            Err(e) => Err(spec_prefix_key("registers"@, e)),
            Ok(xs) => Ok(xs),
        },
    }
}

/// The database's required `records` catalogue.
pub open spec fn spec_db_records(fields: Seq<(String, Value)>) -> Result<
    Seq<RecordV>,
    DecodeErrorV,
> {
    match spec_req_field(fields, "records"@) {
        Err(e) => Err(e),
        Ok(v) => match spec_decode_records(v) {
            Err(e) => Err(spec_prefix_key("records"@, e)),
            Ok(xs) => Ok(xs),
        },
    }
}

/// The database's required `tables` list.
pub open spec fn spec_db_tables(fields: Seq<(String, Value)>) -> Result<Seq<TableV>, DecodeErrorV> {
    match spec_req_field(fields, "tables"@) {
        Err(e) => Err(e),
        Ok(v) => match spec_decode_tables(v) {
            Err(e) => Err(spec_prefix_key("tables"@, e)),
            Ok(xs) => Ok(xs),
        },
    }
}

/// Load a whole catalogue document: one synchronous structural traversal
/// that builds a complete [`OpcodesDatabase`] or fails with the first
/// field-localized error, never returning a partial result.
pub fn load_database(v: &Value) -> (r: Result<OpcodesDatabase, DecodeError>)
    ensures
        res_view(r) == spec_load_database(*v),
{
    let fields = match v {
        Value::Object(fields) => fields,
        _ => {
            return Err(
                DecodeError::here(
                    ErrorKind::TypeMismatch { expected: Shape::Object, actual: v.shape() },
                ),
            );
        },
    };
    let enums_value = match req_field(fields, "enums") {
        Ok(x) => x,
        Err(e) => return Err(e),
    };
    let enums = match decode_enums(enums_value) {
        Ok(x) => x,
        Err(e) => return Err(prefix_key("enums", e)),
    };
    let arch = match req_str_field(fields, "arch") {
        Ok(x) => x,
        Err(e) => return Err(e),
    };
    let widths_value = match req_field(fields, "widths") {
        Ok(x) => x,
        Err(e) => return Err(e),
    };
    let widths = match decode_widths(widths_value) {
        Ok(x) => x,
        Err(e) => return Err(prefix_key("widths", e)),
    };
    let registers_value = match req_field(fields, "registers") {
        Ok(x) => x,
        Err(e) => return Err(e),
    };
    let registers = match decode_registers(registers_value) {
        Ok(x) => x,
        Err(e) => return Err(prefix_key("registers", e)),
    };
    let version = match req_str_field(fields, "version") {
        Ok(x) => x,
        Err(e) => return Err(e),
    };
    let records_value = match req_field(fields, "records") {
        Ok(x) => x,
        Err(e) => return Err(e),
    };
    let records = match decode_records(records_value) {
        Ok(x) => x,
        Err(e) => return Err(prefix_key("records", e)),
    };
    let tables_value = match req_field(fields, "tables") {
        Ok(x) => x,
        Err(e) => return Err(e),
    };
    let tables = match decode_tables(tables_value) {
        Ok(x) => x,
        Err(e) => return Err(prefix_key("tables", e)),
    };
    Ok(OpcodesDatabase { arch, version, enums, widths, registers, records, tables })
}

/// Loading is a pure function of the document: equal documents load to
/// equal results.  Together with the contract of [`load_database`], loading
/// the same document twice therefore yields structurally equal databases.
pub proof fn lemma_load_deterministic(v1: Value, v2: Value)
    requires
        v1 == v2,
    ensures
        spec_load_database(v1) == spec_load_database(v2),
{
}

/// Looking a key up is unaffected by appending a binding for a different
/// key.
pub proof fn lemma_lookup_push_other(
    fields: Seq<(String, Value)>,
    extra: (String, Value),
    name: Seq<char>,
)
    requires
        extra.0@ != name,
    ensures
        spec_lookup(fields.push(extra), name) == spec_lookup(fields, name),
    decreases fields.len(),
{
    if fields.len() == 0 {
        assert(fields.push(extra)[0] == extra);
        assert(fields.push(extra).drop_first() =~= fields);
    } else {
        assert(fields.push(extra)[0] == fields[0]);
        if fields[0].0@ != name {
            assert(fields.push(extra).drop_first() =~= fields.drop_first().push(extra));
            lemma_lookup_push_other(fields.drop_first(), extra, name);
        }
    }
}

/// Unknown extra fields are ignored: appending a binding whose key is none
/// of the keys an enumeration reads leaves its decoding unchanged.
pub proof fn lemma_enum_ignores_unknown_field(v1: Value, v2: Value, extra: (String, Value))
    requires
        v1 is Object,
        v2 is Object,
        v2->Object_0@ == v1->Object_0@.push(extra),
        extra.0@ != "id"@,
        extra.0@ != "items"@,
        extra.0@ != "stringify"@,
        extra.0@ != "optional"@,
    ensures
        spec_decode_enum(v2) == spec_decode_enum(v1),
{
    let f1 = v1->Object_0@;
    lemma_lookup_push_other(f1, extra, "id"@);
    lemma_lookup_push_other(f1, extra, "items"@);
    lemma_lookup_push_other(f1, extra, "stringify"@);
    lemma_lookup_push_other(f1, extra, "optional"@);
}

/// Unknown extra fields are ignored by a record: appending a binding whose
/// key is none of the keys a record reads leaves its decoding unchanged.
pub proof fn lemma_record_ignores_unknown_field(v1: Value, v2: Value, extra: (String, Value))
    requires
        v1 is Object,
        v2 is Object,
        v2->Object_0@ == v1->Object_0@.push(extra),
        extra.0@ != "id"@,
        extra.0@ != "rectype"@,
        extra.0@ != "title"@,
        extra.0@ != "extensions"@,
        extra.0@ != "metadata"@,
        extra.0@ != "diagram"@,
        extra.0@ != "categories"@,
        extra.0@ != "tags"@,
        extra.0@ != "templates"@,
        extra.0@ != "iflags"@,
    ensures
        spec_decode_record(v2) == spec_decode_record(v1),
{
    let f1 = v1->Object_0@;
    lemma_lookup_push_other(f1, extra, "id"@);
    lemma_lookup_push_other(f1, extra, "rectype"@);
    lemma_lookup_push_other(f1, extra, "title"@);
    lemma_lookup_push_other(f1, extra, "extensions"@);
    lemma_lookup_push_other(f1, extra, "metadata"@);
    lemma_lookup_push_other(f1, extra, "diagram"@);
    lemma_lookup_push_other(f1, extra, "categories"@);
    lemma_lookup_push_other(f1, extra, "tags"@);
    lemma_lookup_push_other(f1, extra, "templates"@);
    lemma_lookup_push_other(f1, extra, "iflags"@);
}

/// Unknown extra fields are ignored by an operand-syntax AST node:
/// appending a binding whose key is none of the keys a node reads leaves
/// its decoding unchanged.
pub proof fn lemma_ast_ignores_unknown_field(v1: Value, v2: Value, extra: (String, Value))
    requires
        v1 is Object,
        v2 is Object,
        v2->Object_0@ == v1->Object_0@.push(extra),
        extra.0@ != "type"@,
        extra.0@ != "value"@,
        extra.0@ != "suppressed"@,
        extra.0@ != "read"@,
        extra.0@ != "write"@,
        extra.0@ != "size"@,
        extra.0@ != "datatype"@,
        extra.0@ != "encodedin"@,
        extra.0@ != "symbol"@,
    ensures
        spec_decode_ast(v2) == spec_decode_ast(v1),
{
    let f1 = v1->Object_0@;
    lemma_lookup_push_other(f1, extra, "type"@);
    lemma_lookup_push_other(f1, extra, "value"@);
    lemma_lookup_push_other(f1, extra, "suppressed"@);
    lemma_lookup_push_other(f1, extra, "read"@);
    lemma_lookup_push_other(f1, extra, "write"@);
    lemma_lookup_push_other(f1, extra, "size"@);
    lemma_lookup_push_other(f1, extra, "datatype"@);
    lemma_lookup_push_other(f1, extra, "encodedin"@);
    lemma_lookup_push_other(f1, extra, "symbol"@);
}

/// Unknown extra fields are ignored at the document root as well: appending
/// a binding whose key is none of the keys the database reads leaves
/// loading unchanged.
pub proof fn lemma_load_ignores_unknown_field(v1: Value, v2: Value, extra: (String, Value))
    requires
        v1 is Object,
        v2 is Object,
        v2->Object_0@ == v1->Object_0@.push(extra),
        extra.0@ != "enums"@,
        extra.0@ != "arch"@,
        extra.0@ != "widths"@,
        extra.0@ != "registers"@,
        extra.0@ != "version"@,
        extra.0@ != "records"@,
        extra.0@ != "tables"@,
    ensures
        spec_load_database(v2) == spec_load_database(v1),
{
    let f1 = v1->Object_0@;
    lemma_lookup_push_other(f1, extra, "enums"@);
    lemma_lookup_push_other(f1, extra, "arch"@);
    lemma_lookup_push_other(f1, extra, "widths"@);
    lemma_lookup_push_other(f1, extra, "registers"@);
    lemma_lookup_push_other(f1, extra, "version"@);
    lemma_lookup_push_other(f1, extra, "records"@);
    lemma_lookup_push_other(f1, extra, "tables"@);
}

} // verus!
