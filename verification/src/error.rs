//! Field-localized decode errors.
//!
//! Every failure of the loader carries the path of the offending field from
//! the document root (object keys and list indices) and the kind of failure:
//! a scalar outside its legal range, a missing required field, or a value of
//! the wrong structural shape.

use vstd::prelude::*;

use crate::value::Shape;

verus! {

/// One step of a field path: an object key or a list index.
#[derive(Debug, Clone, PartialEq, Eq)]
pub enum PathStep {
    Key(String),
    Index(usize),
}

/// Specification-level mirror of [`PathStep`].
pub enum PathStepV {
    Key(Seq<char>),
    Index(int),
}

impl DeepView for PathStep {
    type V = PathStepV;

    open spec fn deep_view(&self) -> PathStepV {
        match self {
            PathStep::Key(s) => PathStepV::Key(s@),
            PathStep::Index(i) => PathStepV::Index(*i as int),
        }
    }
}

/// What went wrong at the field the path points to.
#[derive(Debug, Clone, PartialEq, Eq)]
pub enum ErrorKind {
    /// An integer-encoded field held an integer outside its legal range;
    /// carries the offending integer.
    CoercionInt { value: i64 },
    /// A string-encoded boolean field held a string other than `"0"`/`"1"`;
    /// carries the offending string.
    CoercionStr { value: String },
    /// A required field was absent.
    MissingField,
    /// A field was present but had the wrong structural shape.
    TypeMismatch { expected: Shape, actual: Shape },
}

/// Specification-level mirror of [`ErrorKind`].
pub enum ErrorKindV {
    CoercionInt { value: int },
    CoercionStr { value: Seq<char> },
    MissingField,
    TypeMismatch { expected: Shape, actual: Shape },
}

impl DeepView for ErrorKind {
    type V = ErrorKindV;

    open spec fn deep_view(&self) -> ErrorKindV {
        match self {
            ErrorKind::CoercionInt { value } => ErrorKindV::CoercionInt { value: *value as int },
            ErrorKind::CoercionStr { value } => ErrorKindV::CoercionStr { value: value@ },
            ErrorKind::MissingField => ErrorKindV::MissingField,
            ErrorKind::TypeMismatch { expected, actual } => ErrorKindV::TypeMismatch {
                expected: *expected,
                actual: *actual,
            },
        }
    }
}

/// A single structured decode failure: the path of the offending field from
/// the document root, and what went wrong there.
#[derive(Debug, Clone, PartialEq, Eq)]
pub struct DecodeError {
    pub path: Vec<PathStep>,
    pub kind: ErrorKind,
}

/// Specification-level mirror of [`DecodeError`].
pub struct DecodeErrorV {
    pub path: Seq<PathStepV>,
    pub kind: ErrorKindV,
}

impl DeepView for DecodeError {
    type V = DecodeErrorV;

    open spec fn deep_view(&self) -> DecodeErrorV {
        DecodeErrorV { path: self.path.deep_view(), kind: self.kind.deep_view() }
    }
}

/// An error located at the value currently being decoded (empty path).
pub open spec fn spec_err_here(kind: ErrorKindV) -> DecodeErrorV {
    DecodeErrorV { path: Seq::empty(), kind }
}

/// An error located at field `name` of the object currently being decoded.
pub open spec fn spec_err_at_key(name: Seq<char>, kind: ErrorKindV) -> DecodeErrorV {
    DecodeErrorV { path: seq![PathStepV::Key(name)], kind }
}

/// Relocate an error one object level deeper: the error arose inside the
/// value bound to key `name`.
pub open spec fn spec_prefix_key(name: Seq<char>, e: DecodeErrorV) -> DecodeErrorV {
    DecodeErrorV { path: seq![PathStepV::Key(name)] + e.path, kind: e.kind }
}

/// Relocate an error one list level deeper: the error arose inside element
/// `i` of the list currently being decoded.
pub open spec fn spec_prefix_index(i: int, e: DecodeErrorV) -> DecodeErrorV {
    DecodeErrorV { path: seq![PathStepV::Index(i)] + e.path, kind: e.kind }
}

impl DecodeError {
    /// An error located at the value currently being decoded (empty path).
    pub fn here(kind: ErrorKind) -> (r: DecodeError)
        ensures
            r.deep_view() == spec_err_here(kind.deep_view()),
    {
        let path: Vec<PathStep> = Vec::new();
        let r = DecodeError { path, kind };
        proof {
            assert(r.deep_view().path =~= Seq::<PathStepV>::empty());
        }
        r
    }

    /// An error located at field `name` of the object currently being
    /// decoded.
    pub fn at_key(name: &str, kind: ErrorKind) -> (r: DecodeError)
        ensures
            r.deep_view() == spec_err_at_key(name@, kind.deep_view()),
    {
        let mut path: Vec<PathStep> = Vec::new();
        path.push(PathStep::Key(name.to_owned()));
        let r = DecodeError { path, kind };
        proof {
            assert(r.deep_view().path =~= seq![PathStepV::Key(name@)]);
        }
        r
    }
}

/// Relocate an error one object level deeper (executable form of
/// [`spec_prefix_key`]).
pub fn prefix_key(name: &str, e: DecodeError) -> (r: DecodeError)
    ensures
        r.deep_view() == spec_prefix_key(name@, e.deep_view()),
{
    let mut e = e;
    let ghost pre = e.path.deep_view();
    e.path.insert(0, PathStep::Key(name.to_owned()));
    proof {
        assert(e.path.deep_view() =~= seq![PathStepV::Key(name@)] + pre);
    }
    e
}

/// Relocate an error one list level deeper (executable form of
/// [`spec_prefix_index`]).
pub fn prefix_index(i: usize, e: DecodeError) -> (r: DecodeError)
    ensures
        r.deep_view() == spec_prefix_index(i as int, e.deep_view()),
{
    let mut e = e;
    let ghost pre = e.path.deep_view();
    e.path.insert(0, PathStep::Index(i));
    proof {
        assert(e.path.deep_view() =~= seq![PathStepV::Index(i as int)] + pre);
    }
    e
}

} // verus!
