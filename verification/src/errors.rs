//! The two error categories of the typed-decode protocol.
//!
//! `type_check` can only fail with a [`TypeCheckError`]; `decode` can only
//! fail with a [`DeserializationError`]. Each carries the name of the Rust
//! target type, the column type it was decoded from, and a discriminated
//! kind, so a caller can branch on the failure programmatically.

use vstd::prelude::*;

use crate::coltype::ColumnType;

verus! {

/// The name under which a target type appears in error diagnostics.
pub trait RustName {
    /// The name, as the contracts speak of it.
    spec fn spec_rust_name() -> Seq<char>;

    fn rust_name() -> (r: &'static str)
        ensures
            r@ == Self::spec_rust_name(),
    ;
}

/// Describes why type checking some of the built-in types failed.
#[derive(Debug, Clone)]
#[non_exhaustive]
pub enum BuiltinTypeCheckErrorKind {
    /// Expected one from a list of particular types.
    MismatchedType {
        /// The list of types that the Rust type can deserialize from.
        expected: Vec<ColumnType>,
    },
}

/// Type checking of one of the built-in types failed.
#[derive(Debug, Clone)]
pub struct BuiltinTypeCheckError {
    /// Name of the Rust type being deserialized.
    pub rust_name: &'static str,
    /// The CQL type that the Rust type was being deserialized from.
    pub cql_type: ColumnType,
    /// Detailed information about the failure.
    pub kind: BuiltinTypeCheckErrorKind,
}

/// An error raised by `type_check` and by nothing else.
#[derive(Debug, Clone)]
pub struct TypeCheckError(pub BuiltinTypeCheckError);

impl TypeCheckError {
    pub fn new(err: BuiltinTypeCheckError) -> (r: TypeCheckError)
        ensures
            r.0 == err,
    {
        TypeCheckError(err)
    }
}

/// Describes why deserialization of some of the built-in types failed.
#[derive(Debug, Clone, Copy, PartialEq, Eq, Structural)]
#[non_exhaustive]
pub enum BuiltinDeserializationErrorKind {
    /// A low-level parse failure inside the cell, such as a decimal cell too
    /// short to carry its scale.
    GenericParseError,
    /// Expected non-null value, got null.
    ExpectedNonNull,
    /// The length of read value in bytes is different than expected for the Rust type.
    ByteLengthMismatch { expected: usize, got: usize },
    /// Expected valid ASCII string.
    ExpectedAscii,
    /// Invalid UTF-8 string.
    InvalidUtf8,
}

/// Deserialization of one of the built-in types failed.
#[derive(Debug, Clone)]
pub struct BuiltinDeserializationError {
    /// Name of the Rust type being deserialized.
    pub rust_name: &'static str,
    /// The CQL type that the Rust type was being deserialized from.
    pub cql_type: ColumnType,
    /// Detailed information about the failure.
    pub kind: BuiltinDeserializationErrorKind,
}

/// An error raised by `decode` and by nothing else.
#[derive(Debug, Clone)]
pub struct DeserializationError(pub BuiltinDeserializationError);

impl DeserializationError {
    pub fn new(err: BuiltinDeserializationError) -> (r: DeserializationError)
        ensures
            r.0 == err,
    {
        DeserializationError(err)
    }
}

/// Builds a type-check error named after the target type `T`.
pub fn mk_typck_err<T: RustName>(cql_type: &ColumnType, kind: BuiltinTypeCheckErrorKind) -> (r:
    TypeCheckError)
    ensures
        r.0.rust_name@ == T::spec_rust_name(),
        r.0.cql_type == *cql_type,
        r.0.kind == kind,
{
    mk_typck_err_named(T::rust_name(), cql_type, kind)
}

/// Builds a type-check error for an explicitly named target type.
pub fn mk_typck_err_named(
    name: &'static str,
    cql_type: &ColumnType,
    kind: BuiltinTypeCheckErrorKind,
) -> (r: TypeCheckError)
    ensures
        r.0.rust_name == name,
        r.0.cql_type == *cql_type,
        r.0.kind == kind,
{
    TypeCheckError::new(
        BuiltinTypeCheckError { rust_name: name, cql_type: *cql_type, kind },
    )
}

/// Builds a deserialization error named after the target type `T`.
pub fn mk_deser_err<T: RustName>(cql_type: &ColumnType, kind: BuiltinDeserializationErrorKind) -> (
    r: DeserializationError)
    ensures
        r.0.rust_name@ == T::spec_rust_name(),
        r.0.cql_type == *cql_type,
        r.0.kind == kind,
{
    mk_deser_err_named(T::rust_name(), cql_type, kind)
}

/// Builds a deserialization error for an explicitly named target type.
pub fn mk_deser_err_named(
    name: &'static str,
    cql_type: &ColumnType,
    kind: BuiltinDeserializationErrorKind,
) -> (r: DeserializationError)
    ensures
        r.0.rust_name == name,
        r.0.cql_type == *cql_type,
        r.0.kind == kind,
{
    DeserializationError::new(
        BuiltinDeserializationError { rust_name: name, cql_type: *cql_type, kind },
    )
}

} // verus!
