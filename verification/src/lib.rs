//! Loader for a structured CPU opcode catalogue.
//!
//! The catalogue arrives as a generic structured value tree (conventionally
//! parsed from JSON by an external parser).  This crate walks that tree and
//! builds a strongly typed, immutable [`model::OpcodesDatabase`], validating
//! every field on the way.  Boolean fields of the catalogue are encoded
//! inconsistently — as integers `0`/`1` or as strings `"0"`/`"1"`, sometimes
//! optional — and the [`coerce`] module holds the strict conversions for all
//! four combinations.  Any failure is reported as a single
//! [`error::DecodeError`] naming the exact path of the offending field.

pub mod coerce;
pub mod error;
pub mod loader;
pub mod model;
pub mod value;
