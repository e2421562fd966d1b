//! The typed-decode contract and its built-in bindings.
//!
//! Every target type implements [`DeserializeValue`]: `type_check` accepts
//! exactly the type's declared tag set, and `deserialize` turns an optional
//! cell slot into a value or a discriminated error. The spec functions
//! `accepted_tags`, `decode_err` and `decode_ok` pin both operations down:
//! `decode_err` names the error kind a slot is rejected with (`None` meaning
//! success is owed), and `decode_ok` relates a successful value to the slot.

use vstd::prelude::*;

use crate::coltype::ColumnType;
use crate::encoding::{
    be_read_sint, be_read_uint, be_sint, be_uint, lemma_be_sint_bounds, lemma_pow256_words,
};
use crate::bridge::{
    bigdecimal_from_bigint_and_scale, bigdecimal_scale, bigdecimal_unscaled,
    bigint_from_signed_bytes_be, bigint_value, bytes_content, try_str_from_utf8,
};
use crate::errors::{
    mk_deser_err, mk_typck_err, BuiltinDeserializationErrorKind, BuiltinTypeCheckErrorKind,
    DeserializationError, RustName, TypeCheckError,
};
use crate::slots::{ensure_exact_length, ensure_not_null_owned, ensure_not_null_slice, FrameSlice};
use vstd::string::StringSliceAdditionalSpecFns;
use vstd::utf8::{encode_utf8, valid_utf8};

verus! {

/// The optional slot's bytes, as the contracts speak of them.
pub open spec fn slot_bytes(v: Option<FrameSlice<'_>>) -> Option<Seq<u8>> {
    match v {
        None => None,
        Some(fs) => Some(fs@),
    }
}

/// A type that can be deserialized from a column value inside a row that was
/// returned from a query.
///
/// `type_check` is pure and looks only at the column type descriptor;
/// `deserialize` consumes one cell. `deserialize` must behave correctly for
/// every descriptor and slot, whether or not `type_check` was ever invoked:
/// a mismatch degrades to an error, never to anything unchecked.
pub trait DeserializeValue<'frame>: Sized + RustName {
    /// The exact set of column types this target type accepts.
    spec fn accepted_tags() -> Seq<ColumnType>;

    /// The kind of error `deserialize` rejects this descriptor and slot
    /// with; `None` when it owes a success.
    spec fn decode_err(typ: ColumnType, v: Option<Seq<u8>>) -> Option<
        BuiltinDeserializationErrorKind,
    >;

    /// What a successfully decoded value is, relative to descriptor and slot.
    spec fn decode_ok(typ: ColumnType, v: Option<Seq<u8>>, r: Self) -> bool;

    /// The target-type name a type-check failure is reported under. The
    /// adapters delegate type checking verbatim, so they report the wrapped
    /// type's name.
    spec fn type_check_name() -> Seq<char>;

    /// Checks that the column type matches what this type expects: it
    /// succeeds exactly on the accepted tag set, and a failure names the
    /// target type, the descriptor and that set.
    fn type_check(typ: &ColumnType) -> (r: Result<(), TypeCheckError>)
        ensures
            r is Ok <==> Self::accepted_tags().contains(*typ),
            r matches Err(e) ==> e.0.rust_name@ == Self::type_check_name() && e.0.cql_type == *typ
                && (e.0.kind matches BuiltinTypeCheckErrorKind::MismatchedType { expected }
                && expected@ == Self::accepted_tags()),
    ;

    /// Deserialize a column value from given serialized representation.
    fn deserialize(typ: &'frame ColumnType, v: Option<FrameSlice<'frame>>) -> (r: Result<
        Self,
        DeserializationError,
    >)
        ensures
            match r {
                Ok(val) => Self::decode_err(*typ, slot_bytes(v)) is None && Self::decode_ok(
                    *typ,
                    slot_bytes(v),
                    val,
                ),
                Err(e) => Self::decode_err(*typ, slot_bytes(v)) == Some(e.0.kind) && e.0.cql_type
                    == *typ,
            },
    ;
}

/// Succeeds exactly when the descriptor is `expected`; the error names the
/// one-element accepted set.
pub fn exact_type_check_one<T: RustName>(typ: &ColumnType, expected: ColumnType) -> (r: Result<
    (),
    TypeCheckError,
>)
    ensures
        r is Ok <==> *typ == expected,
        r matches Err(e) ==> e.0.rust_name@ == T::spec_rust_name() && e.0.cql_type == *typ && (
        e.0.kind matches BuiltinTypeCheckErrorKind::MismatchedType { expected: ex } && ex@
            == seq![expected]),
{
    if *typ == expected {
        Ok(())
    } else {
        let ex: Vec<ColumnType> = vec![expected];
        assert(ex@ =~= seq![expected]);
        Err(
            mk_typck_err::<T>(typ, BuiltinTypeCheckErrorKind::MismatchedType { expected: ex }),
        )
    }
}

/// Succeeds exactly when the descriptor is `first` or `second`; the error
/// names the two-element accepted set.
pub fn exact_type_check_two<T: RustName>(
    typ: &ColumnType,
    first: ColumnType,
    second: ColumnType,
) -> (r: Result<(), TypeCheckError>)
    ensures
        r is Ok <==> (*typ == first || *typ == second),
        r matches Err(e) ==> e.0.rust_name@ == T::spec_rust_name() && e.0.cql_type == *typ && (
        e.0.kind matches BuiltinTypeCheckErrorKind::MismatchedType { expected: ex } && ex@
            == seq![first, second]),
{
    if *typ == first || *typ == second {
        Ok(())
    } else {
        let ex: Vec<ColumnType> = vec![first, second];
        assert(ex@ =~= seq![first, second]);
        Err(
            mk_typck_err::<T>(typ, BuiltinTypeCheckErrorKind::MismatchedType { expected: ex }),
        )
    }
}

/// Membership in a one-tag accepted set is equality with the tag.
pub proof fn lemma_tags_one(a: ColumnType, t: ColumnType)
    ensures
        seq![a].contains(t) <==> t == a,
{
    if t == a {
        assert(seq![a][0] == t);
    }
}

/// Membership in a two-tag accepted set is equality with either tag.
pub proof fn lemma_tags_two(a: ColumnType, b: ColumnType, t: ColumnType)
    ensures
        seq![a, b].contains(t) <==> (t == a || t == b),
{
    if t == a {
        assert(seq![a, b][0] == t);
    } else if t == b {
        assert(seq![a, b][1] == t);
    }
}

/// The slot discipline every fixed-width binding shares: an absent slot is
/// `ExpectedNonNull`, a present slot of any other length than `width` is
/// `ByteLengthMismatch`.
pub open spec fn fixed_width_decode_err(width: usize, v: Option<Seq<u8>>) -> Option<
    BuiltinDeserializationErrorKind,
> {
    match v {
        None => Some(BuiltinDeserializationErrorKind::ExpectedNonNull),
        Some(s) => if s.len() != width {
            Some(
                (BuiltinDeserializationErrorKind::ByteLengthMismatch {
                    expected: width,
                    got: s.len() as usize,
                }),
            )
        } else {
            None
        },
    }
}

/// Values that may be empty or not.
///
/// Some column types can hold a special value of "empty", serialized as a
/// present cell of length 0 and distinct from NULL. Target types that cannot
/// represent that extra value (the fixed-width numerics among others) carry
/// this marker and are decoded through [`MaybeEmpty`] when the empty value
/// must be observable.
pub trait Emptiable {

}

/// A value that may be empty or not: the adapter for [`Emptiable`] targets.
#[derive(Debug, PartialEq, Eq, PartialOrd, Ord, Hash, Clone, Copy)]
pub enum MaybeEmpty<T: Emptiable> {
    Empty,
    Value(T),
}

impl RustName for bool {
    open spec fn spec_rust_name() -> Seq<char> {
        "bool"@
    }

    fn rust_name() -> (r: &'static str) {
        "bool"
    }
}

impl Emptiable for bool {

}

impl<'frame> DeserializeValue<'frame> for bool {
    open spec fn accepted_tags() -> Seq<ColumnType> {
        seq![ColumnType::Boolean]
    }

    open spec fn type_check_name() -> Seq<char> {
        Self::spec_rust_name()
    }

    open spec fn decode_err(typ: ColumnType, v: Option<Seq<u8>>) -> Option<
        BuiltinDeserializationErrorKind,
    > {
        fixed_width_decode_err(1, v)
    }

    open spec fn decode_ok(typ: ColumnType, v: Option<Seq<u8>>, r: bool) -> bool {
        v matches Some(s) && r == (s[0] != 0)
    }

    fn type_check(typ: &ColumnType) -> (r: Result<(), TypeCheckError>) {
        proof {
            lemma_tags_one(ColumnType::Boolean, *typ);
        }
        exact_type_check_one::<Self>(typ, ColumnType::Boolean)
    }

    fn deserialize(typ: &'frame ColumnType, v: Option<FrameSlice<'frame>>) -> (r: Result<
        Self,
        DeserializationError,
    >) {
        let val = match ensure_not_null_slice::<Self>(typ, v) {
            Ok(s) => s,
            Err(e) => { return Err(e) },
        };
        let arr = match ensure_exact_length::<Self, 1>(typ, val) {
            Ok(s) => s,
            Err(e) => { return Err(e) },
        };
        Ok(arr[0] != 0x00)
    }
}

impl RustName for i8 {
    open spec fn spec_rust_name() -> Seq<char> {
        "i8"@
    }

    fn rust_name() -> (r: &'static str) {
        "i8"
    }
}

impl Emptiable for i8 {

}

impl<'frame> DeserializeValue<'frame> for i8 {
    open spec fn accepted_tags() -> Seq<ColumnType> {
        seq![ColumnType::TinyInt]
    }

    open spec fn type_check_name() -> Seq<char> {
        Self::spec_rust_name()
    }

    open spec fn decode_err(typ: ColumnType, v: Option<Seq<u8>>) -> Option<
        BuiltinDeserializationErrorKind,
    > {
        fixed_width_decode_err(1, v)
    }

    open spec fn decode_ok(typ: ColumnType, v: Option<Seq<u8>>, r: i8) -> bool {
        v matches Some(s) && r == be_sint(s)
    }

    fn type_check(typ: &ColumnType) -> (r: Result<(), TypeCheckError>) {
        proof {
            lemma_tags_one(ColumnType::TinyInt, *typ);
        }
        exact_type_check_one::<Self>(typ, ColumnType::TinyInt)
    }

    fn deserialize(typ: &'frame ColumnType, v: Option<FrameSlice<'frame>>) -> (r: Result<
        Self,
        DeserializationError,
    >) {
        let val = match ensure_not_null_slice::<Self>(typ, v) {
            Ok(s) => s,
            Err(e) => { return Err(e) },
        };
        let arr = match ensure_exact_length::<Self, 1>(typ, val) {
            Ok(s) => s,
            Err(e) => { return Err(e) },
        };
        let x = be_read_sint(arr);
        proof {
            lemma_be_sint_bounds(arr@);
            lemma_pow256_words();
        }
        Ok(x as i8)
    }
}

impl RustName for i16 {
    open spec fn spec_rust_name() -> Seq<char> {
        "i16"@
    }

    fn rust_name() -> (r: &'static str) {
        "i16"
    }
}

impl Emptiable for i16 {

}

impl<'frame> DeserializeValue<'frame> for i16 {
    open spec fn accepted_tags() -> Seq<ColumnType> {
        seq![ColumnType::SmallInt]
    }

    open spec fn type_check_name() -> Seq<char> {
        Self::spec_rust_name()
    }

    open spec fn decode_err(typ: ColumnType, v: Option<Seq<u8>>) -> Option<
        BuiltinDeserializationErrorKind,
    > {
        fixed_width_decode_err(2, v)
    }

    open spec fn decode_ok(typ: ColumnType, v: Option<Seq<u8>>, r: i16) -> bool {
        v matches Some(s) && r == be_sint(s)
    }

    fn type_check(typ: &ColumnType) -> (r: Result<(), TypeCheckError>) {
        proof {
            lemma_tags_one(ColumnType::SmallInt, *typ);
        }
        exact_type_check_one::<Self>(typ, ColumnType::SmallInt)
    }

    fn deserialize(typ: &'frame ColumnType, v: Option<FrameSlice<'frame>>) -> (r: Result<
        Self,
        DeserializationError,
    >) {
        let val = match ensure_not_null_slice::<Self>(typ, v) {
            Ok(s) => s,
            Err(e) => { return Err(e) },
        };
        let arr = match ensure_exact_length::<Self, 2>(typ, val) {
            Ok(s) => s,
            Err(e) => { return Err(e) },
        };
        let x = be_read_sint(arr);
        proof {
            lemma_be_sint_bounds(arr@);
            lemma_pow256_words();
        }
        Ok(x as i16)
    }
}

impl RustName for i32 {
    open spec fn spec_rust_name() -> Seq<char> {
        "i32"@
    }

    fn rust_name() -> (r: &'static str) {
        "i32"
    }
}

impl Emptiable for i32 {

}

impl<'frame> DeserializeValue<'frame> for i32 {
    open spec fn accepted_tags() -> Seq<ColumnType> {
        seq![ColumnType::Int]
    }

    open spec fn type_check_name() -> Seq<char> {
        Self::spec_rust_name()
    }

    open spec fn decode_err(typ: ColumnType, v: Option<Seq<u8>>) -> Option<
        BuiltinDeserializationErrorKind,
    > {
        fixed_width_decode_err(4, v)
    }

    open spec fn decode_ok(typ: ColumnType, v: Option<Seq<u8>>, r: i32) -> bool {
        v matches Some(s) && r == be_sint(s)
    }

    fn type_check(typ: &ColumnType) -> (r: Result<(), TypeCheckError>) {
        proof {
            lemma_tags_one(ColumnType::Int, *typ);
        }
        exact_type_check_one::<Self>(typ, ColumnType::Int)
    }

    fn deserialize(typ: &'frame ColumnType, v: Option<FrameSlice<'frame>>) -> (r: Result<
        Self,
        DeserializationError,
    >) {
        let val = match ensure_not_null_slice::<Self>(typ, v) {
            Ok(s) => s,
            Err(e) => { return Err(e) },
        };
        let arr = match ensure_exact_length::<Self, 4>(typ, val) {
            Ok(s) => s,
            Err(e) => { return Err(e) },
        };
        let x = be_read_sint(arr);
        proof {
            lemma_be_sint_bounds(arr@);
            lemma_pow256_words();
        }
        Ok(x as i32)
    }
}

impl RustName for i64 {
    open spec fn spec_rust_name() -> Seq<char> {
        "i64"@
    }

    fn rust_name() -> (r: &'static str) {
        "i64"
    }
}

impl Emptiable for i64 {

}

impl<'frame> DeserializeValue<'frame> for i64 {
    open spec fn accepted_tags() -> Seq<ColumnType> {
        seq![ColumnType::BigInt, ColumnType::Counter]
    }

    open spec fn type_check_name() -> Seq<char> {
        Self::spec_rust_name()
    }

    open spec fn decode_err(typ: ColumnType, v: Option<Seq<u8>>) -> Option<
        BuiltinDeserializationErrorKind,
    > {
        fixed_width_decode_err(8, v)
    }

    open spec fn decode_ok(typ: ColumnType, v: Option<Seq<u8>>, r: i64) -> bool {
        v matches Some(s) && r == be_sint(s)
    }

    fn type_check(typ: &ColumnType) -> (r: Result<(), TypeCheckError>) {
        proof {
            lemma_tags_two(ColumnType::BigInt, ColumnType::Counter, *typ);
        }
        exact_type_check_two::<Self>(typ, ColumnType::BigInt, ColumnType::Counter)
    }

    fn deserialize(typ: &'frame ColumnType, v: Option<FrameSlice<'frame>>) -> (r: Result<
        Self,
        DeserializationError,
    >) {
        let val = match ensure_not_null_slice::<Self>(typ, v) {
            Ok(s) => s,
            Err(e) => { return Err(e) },
        };
        let arr = match ensure_exact_length::<Self, 8>(typ, val) {
            Ok(s) => s,
            Err(e) => { return Err(e) },
        };
        let x = be_read_sint(arr);
        proof {
            lemma_be_sint_bounds(arr@);
            lemma_pow256_words();
        }
        Ok(x as i64)
    }
}

impl<T: RustName> RustName for Option<T> {
    open spec fn spec_rust_name() -> Seq<char> {
        "Option"@
    }

    fn rust_name() -> (r: &'static str) {
        "Option"
    }
}

// Option represents nullability of CQL values: a `None` result is a protocol
// NULL, `Some(val)` a present value. Absence is never an error here.
impl<'frame, T: DeserializeValue<'frame>> DeserializeValue<'frame> for Option<T> {
    open spec fn accepted_tags() -> Seq<ColumnType> {
        T::accepted_tags()
    }

    open spec fn type_check_name() -> Seq<char> {
        T::type_check_name()
    }

    open spec fn decode_err(typ: ColumnType, v: Option<Seq<u8>>) -> Option<
        BuiltinDeserializationErrorKind,
    > {
        match v {
            None => None,
            Some(_) => T::decode_err(typ, v),
        }
    }

    open spec fn decode_ok(typ: ColumnType, v: Option<Seq<u8>>, r: Option<T>) -> bool {
        match v {
            None => r is None,
            Some(_) => r matches Some(x) && T::decode_ok(typ, v, x),
        }
    }

    fn type_check(typ: &ColumnType) -> (r: Result<(), TypeCheckError>) {
        T::type_check(typ)
    }

    fn deserialize(typ: &'frame ColumnType, v: Option<FrameSlice<'frame>>) -> (r: Result<
        Self,
        DeserializationError,
    >) {
        match v {
            None => Ok(None),
            Some(_) => match T::deserialize(typ, v) {
                Ok(x) => Ok(Some(x)),
                Err(e) => Err(e),
            },
        }
    }
}

impl<T: Emptiable + RustName> RustName for MaybeEmpty<T> {
    open spec fn spec_rust_name() -> Seq<char> {
        "MaybeEmpty"@
    }

    fn rust_name() -> (r: &'static str) {
        "MaybeEmpty"
    }
}

// The emptiness adapter: it requires a present slot, maps a zero-length slot
// to `Empty` without invoking the inner decode, and wraps any other result.
impl<'frame, T: DeserializeValue<'frame> + Emptiable> DeserializeValue<'frame> for MaybeEmpty<T> {
    open spec fn accepted_tags() -> Seq<ColumnType> {
        T::accepted_tags()
    }

    open spec fn type_check_name() -> Seq<char> {
        T::type_check_name()
    }

    open spec fn decode_err(typ: ColumnType, v: Option<Seq<u8>>) -> Option<
        BuiltinDeserializationErrorKind,
    > {
        match v {
            None => Some(BuiltinDeserializationErrorKind::ExpectedNonNull),
            Some(s) => if s.len() == 0 {
                None
            } else {
                T::decode_err(typ, v)
            },
        }
    }

    open spec fn decode_ok(typ: ColumnType, v: Option<Seq<u8>>, r: MaybeEmpty<T>) -> bool {
        match v {
            None => false,
            Some(s) => if s.len() == 0 {
                r is Empty
            } else {
                r matches MaybeEmpty::Value(x) && T::decode_ok(typ, v, x)
            },
        }
    }

    fn type_check(typ: &ColumnType) -> (r: Result<(), TypeCheckError>) {
        T::type_check(typ)
    }

    fn deserialize(typ: &'frame ColumnType, v: Option<FrameSlice<'frame>>) -> (r: Result<
        Self,
        DeserializationError,
    >) {
        let val = match ensure_not_null_slice::<Self>(typ, v) {
            Ok(s) => s,
            Err(e) => { return Err(e) },
        };
        if val.len() == 0 {
            Ok(MaybeEmpty::Empty)
        } else {
            match T::deserialize(typ, v) {
                Ok(x) => Ok(MaybeEmpty::Value(x)),
                Err(e) => Err(e),
            }
        }
    }
}

/// The raw IEEE-754 bits of a 4-byte float cell, big-endian on the wire.
/// This crate holds no floating-point values; a caller reinterprets the bits.
#[derive(Debug, PartialEq, Eq, Structural, Clone, Copy, Hash)]
pub struct FloatBits {
    pub bits: u32,
}

impl RustName for FloatBits {
    open spec fn spec_rust_name() -> Seq<char> {
        "FloatBits"@
    }

    fn rust_name() -> (r: &'static str) {
        "FloatBits"
    }
}

impl Emptiable for FloatBits {

}

impl<'frame> DeserializeValue<'frame> for FloatBits {
    open spec fn accepted_tags() -> Seq<ColumnType> {
        seq![ColumnType::Float]
    }

    open spec fn type_check_name() -> Seq<char> {
        Self::spec_rust_name()
    }

    open spec fn decode_err(typ: ColumnType, v: Option<Seq<u8>>) -> Option<
        BuiltinDeserializationErrorKind,
    > {
        fixed_width_decode_err(4, v)
    }

    open spec fn decode_ok(typ: ColumnType, v: Option<Seq<u8>>, r: FloatBits) -> bool {
        v matches Some(s) && r.bits == be_uint(s)
    }

    fn type_check(typ: &ColumnType) -> (r: Result<(), TypeCheckError>) {
        proof {
            lemma_tags_one(ColumnType::Float, *typ);
        }
        exact_type_check_one::<Self>(typ, ColumnType::Float)
    }

    fn deserialize(typ: &'frame ColumnType, v: Option<FrameSlice<'frame>>) -> (r: Result<
        Self,
        DeserializationError,
    >) {
        let val = match ensure_not_null_slice::<Self>(typ, v) {
            Ok(s) => s,
            Err(e) => { return Err(e) },
        };
        let arr = match ensure_exact_length::<Self, 4>(typ, val) {
            Ok(s) => s,
            Err(e) => { return Err(e) },
        };
        let x = be_read_uint(arr);
        proof {
            crate::encoding::lemma_be_uint_bound(arr@);
            lemma_pow256_words();
        }
        Ok(FloatBits { bits: x as u32 })
    }
}

/// The raw IEEE-754 bits of an 8-byte float cell, big-endian on the wire.
/// This crate holds no floating-point values; a caller reinterprets the bits.
#[derive(Debug, PartialEq, Eq, Structural, Clone, Copy, Hash)]
pub struct DoubleBits {
    pub bits: u64,
}

impl RustName for DoubleBits {
    open spec fn spec_rust_name() -> Seq<char> {
        "DoubleBits"@
    }

    fn rust_name() -> (r: &'static str) {
        "DoubleBits"
    }
}

impl Emptiable for DoubleBits {

}

impl<'frame> DeserializeValue<'frame> for DoubleBits {
    open spec fn accepted_tags() -> Seq<ColumnType> {
        seq![ColumnType::Double]
    }

    open spec fn type_check_name() -> Seq<char> {
        Self::spec_rust_name()
    }

    open spec fn decode_err(typ: ColumnType, v: Option<Seq<u8>>) -> Option<
        BuiltinDeserializationErrorKind,
    > {
        fixed_width_decode_err(8, v)
    }

    open spec fn decode_ok(typ: ColumnType, v: Option<Seq<u8>>, r: DoubleBits) -> bool {
        v matches Some(s) && r.bits == be_uint(s)
    }

    fn type_check(typ: &ColumnType) -> (r: Result<(), TypeCheckError>) {
        proof {
            lemma_tags_one(ColumnType::Double, *typ);
        }
        exact_type_check_one::<Self>(typ, ColumnType::Double)
    }

    fn deserialize(typ: &'frame ColumnType, v: Option<FrameSlice<'frame>>) -> (r: Result<
        Self,
        DeserializationError,
    >) {
        let val = match ensure_not_null_slice::<Self>(typ, v) {
            Ok(s) => s,
            Err(e) => { return Err(e) },
        };
        let arr = match ensure_exact_length::<Self, 8>(typ, val) {
            Ok(s) => s,
            Err(e) => { return Err(e) },
        };
        let x = be_read_uint(arr);
        Ok(DoubleBits { bits: x })
    }
}

/// A 64-bit incrementable counter column value, tagged as distinct from a
/// plain big integer.
#[derive(Debug, PartialEq, Eq, Structural, Clone, Copy, Hash)]
pub struct Counter(pub i64);

impl RustName for Counter {
    open spec fn spec_rust_name() -> Seq<char> {
        "Counter"@
    }

    fn rust_name() -> (r: &'static str) {
        "Counter"
    }
}

impl<'frame> DeserializeValue<'frame> for Counter {
    open spec fn accepted_tags() -> Seq<ColumnType> {
        seq![ColumnType::Counter]
    }

    open spec fn type_check_name() -> Seq<char> {
        Self::spec_rust_name()
    }

    open spec fn decode_err(typ: ColumnType, v: Option<Seq<u8>>) -> Option<
        BuiltinDeserializationErrorKind,
    > {
        fixed_width_decode_err(8, v)
    }

    open spec fn decode_ok(typ: ColumnType, v: Option<Seq<u8>>, r: Counter) -> bool {
        v matches Some(s) && r.0 == be_sint(s)
    }

    fn type_check(typ: &ColumnType) -> (r: Result<(), TypeCheckError>) {
        proof {
            lemma_tags_one(ColumnType::Counter, *typ);
        }
        exact_type_check_one::<Self>(typ, ColumnType::Counter)
    }

    fn deserialize(typ: &'frame ColumnType, v: Option<FrameSlice<'frame>>) -> (r: Result<
        Self,
        DeserializationError,
    >) {
        let val = match ensure_not_null_slice::<Self>(typ, v) {
            Ok(s) => s,
            Err(e) => { return Err(e) },
        };
        let arr = match ensure_exact_length::<Self, 8>(typ, val) {
            Ok(s) => s,
            Err(e) => { return Err(e) },
        };
        let x = be_read_sint(arr);
        proof {
            lemma_be_sint_bounds(arr@);
            lemma_pow256_words();
        }
        Ok(Counter(x as i64))
    }
}

/// Whether some byte of the sequence is outside the ASCII range.
pub open spec fn has_non_ascii_byte(s: Seq<u8>) -> bool {
    exists|i: int| 0 <= i < s.len() && s[i] >= 0x80
}

/// Under the `Ascii` tag, rejects any byte outside the ASCII range with
/// `ExpectedAscii`; under every other tag it accepts all bytes.
pub fn check_ascii<T: RustName>(typ: &ColumnType, s: &[u8]) -> (r: Result<
    (),
    DeserializationError,
>)
    ensures
        r is Ok <==> !(*typ == ColumnType::Ascii && has_non_ascii_byte(s@)),
        r matches Err(e) ==> e.0.cql_type == *typ && e.0.kind
            == BuiltinDeserializationErrorKind::ExpectedAscii,
{
    if !(*typ == ColumnType::Ascii) {
        return Ok(());
    }
    let n = s.len();
    let mut i: usize = 0;
    while i < n
        invariant
            *typ == ColumnType::Ascii,
            i <= n == s@.len(),
            forall|j: int| 0 <= j < i ==> s@[j] < 0x80,
        decreases n - i,
    {
        if s[i] >= 0x80 {
            assert(s@[i as int] >= 0x80);
            assert(has_non_ascii_byte(s@));
            return Err(
                mk_deser_err::<T>(typ, BuiltinDeserializationErrorKind::ExpectedAscii),
            );
        }
        i = i + 1;
    }
    Ok(())
}

/// The error discipline the text bindings share: NULL is rejected, then
/// anything that is not UTF-8, regardless of tag; additionally, under the
/// `Ascii` tag, any byte outside the ASCII range.
pub open spec fn text_decode_err(typ: ColumnType, v: Option<Seq<u8>>) -> Option<
    BuiltinDeserializationErrorKind,
> {
    match v {
        None => Some(BuiltinDeserializationErrorKind::ExpectedNonNull),
        Some(s) => if !valid_utf8(s) {
            Some(BuiltinDeserializationErrorKind::InvalidUtf8)
        } else if typ == ColumnType::Ascii && has_non_ascii_byte(s) {
            Some(BuiltinDeserializationErrorKind::ExpectedAscii)
        } else {
            None
        },
    }
}

/// The error discipline of the blob bindings: only NULL is rejected.
pub open spec fn blob_decode_err(v: Option<Seq<u8>>) -> Option<
    BuiltinDeserializationErrorKind,
> {
    match v {
        None => Some(BuiltinDeserializationErrorKind::ExpectedNonNull),
        Some(_) => None,
    }
}

impl<'a> RustName for &'a [u8] {
    open spec fn spec_rust_name() -> Seq<char> {
        "slice"@
    }

    fn rust_name() -> (r: &'static str) {
        "slice"
    }
}

impl<'frame> DeserializeValue<'frame> for &'frame [u8] {
    open spec fn accepted_tags() -> Seq<ColumnType> {
        seq![ColumnType::Blob]
    }

    open spec fn type_check_name() -> Seq<char> {
        Self::spec_rust_name()
    }

    open spec fn decode_err(typ: ColumnType, v: Option<Seq<u8>>) -> Option<
        BuiltinDeserializationErrorKind,
    > {
        blob_decode_err(v)
    }

    open spec fn decode_ok(typ: ColumnType, v: Option<Seq<u8>>, r: &'frame [u8]) -> bool {
        v matches Some(s) && r@ == s
    }

    fn type_check(typ: &ColumnType) -> (r: Result<(), TypeCheckError>) {
        proof {
            lemma_tags_one(ColumnType::Blob, *typ);
        }
        exact_type_check_one::<Self>(typ, ColumnType::Blob)
    }

    fn deserialize(typ: &'frame ColumnType, v: Option<FrameSlice<'frame>>) -> (r: Result<
        Self,
        DeserializationError,
    >) {
        match ensure_not_null_slice::<Self>(typ, v) {
            Ok(s) => Ok(s),
            Err(e) => Err(e),
        }
    }
}

impl RustName for Vec<u8> {
    open spec fn spec_rust_name() -> Seq<char> {
        "Vec"@
    }

    fn rust_name() -> (r: &'static str) {
        "Vec"
    }
}

impl<'frame> DeserializeValue<'frame> for Vec<u8> {
    open spec fn accepted_tags() -> Seq<ColumnType> {
        seq![ColumnType::Blob]
    }

    open spec fn type_check_name() -> Seq<char> {
        Self::spec_rust_name()
    }

    open spec fn decode_err(typ: ColumnType, v: Option<Seq<u8>>) -> Option<
        BuiltinDeserializationErrorKind,
    > {
        blob_decode_err(v)
    }

    open spec fn decode_ok(typ: ColumnType, v: Option<Seq<u8>>, r: Vec<u8>) -> bool {
        v matches Some(s) && r@ == s
    }

    fn type_check(typ: &ColumnType) -> (r: Result<(), TypeCheckError>) {
        proof {
            lemma_tags_one(ColumnType::Blob, *typ);
        }
        exact_type_check_one::<Self>(typ, ColumnType::Blob)
    }

    fn deserialize(typ: &'frame ColumnType, v: Option<FrameSlice<'frame>>) -> (r: Result<
        Self,
        DeserializationError,
    >) {
        match ensure_not_null_slice::<Self>(typ, v) {
            Ok(s) => Ok(vstd::slice::slice_to_vec(s)),
            Err(e) => Err(e),
        }
    }
}

impl RustName for bytes::Bytes {
    open spec fn spec_rust_name() -> Seq<char> {
        "Bytes"@
    }

    fn rust_name() -> (r: &'static str) {
        "Bytes"
    }
}

impl<'frame> DeserializeValue<'frame> for bytes::Bytes {
    open spec fn accepted_tags() -> Seq<ColumnType> {
        seq![ColumnType::Blob]
    }

    open spec fn type_check_name() -> Seq<char> {
        Self::spec_rust_name()
    }

    open spec fn decode_err(typ: ColumnType, v: Option<Seq<u8>>) -> Option<
        BuiltinDeserializationErrorKind,
    > {
        blob_decode_err(v)
    }

    open spec fn decode_ok(typ: ColumnType, v: Option<Seq<u8>>, r: bytes::Bytes) -> bool {
        v matches Some(s) && bytes_content(r) == s
    }

    fn type_check(typ: &ColumnType) -> (r: Result<(), TypeCheckError>) {
        proof {
            lemma_tags_one(ColumnType::Blob, *typ);
        }
        exact_type_check_one::<Self>(typ, ColumnType::Blob)
    }

    fn deserialize(typ: &'frame ColumnType, v: Option<FrameSlice<'frame>>) -> (r: Result<
        Self,
        DeserializationError,
    >) {
        match ensure_not_null_owned::<Self>(typ, v) {
            Ok(b) => Ok(b),
            Err(e) => Err(e),
        }
    }
}

impl<'a> RustName for &'a str {
    open spec fn spec_rust_name() -> Seq<char> {
        "str"@
    }

    fn rust_name() -> (r: &'static str) {
        "str"
    }
}

impl<'frame> DeserializeValue<'frame> for &'frame str {
    open spec fn accepted_tags() -> Seq<ColumnType> {
        seq![ColumnType::Ascii, ColumnType::Text]
    }

    open spec fn type_check_name() -> Seq<char> {
        Self::spec_rust_name()
    }

    open spec fn decode_err(typ: ColumnType, v: Option<Seq<u8>>) -> Option<
        BuiltinDeserializationErrorKind,
    > {
        text_decode_err(typ, v)
    }

    open spec fn decode_ok(typ: ColumnType, v: Option<Seq<u8>>, r: &'frame str) -> bool {
        v matches Some(s) && r.spec_bytes() == s
    }

    fn type_check(typ: &ColumnType) -> (r: Result<(), TypeCheckError>) {
        proof {
            lemma_tags_two(ColumnType::Ascii, ColumnType::Text, *typ);
        }
        exact_type_check_two::<Self>(typ, ColumnType::Ascii, ColumnType::Text)
    }

    fn deserialize(typ: &'frame ColumnType, v: Option<FrameSlice<'frame>>) -> (r: Result<
        Self,
        DeserializationError,
    >) {
        let val = match ensure_not_null_slice::<Self>(typ, v) {
            Ok(s) => s,
            Err(e) => { return Err(e) },
        };
        let s = match try_str_from_utf8(val) {
            Some(s) => s,
            None => {
                return Err(
                    mk_deser_err::<Self>(typ, BuiltinDeserializationErrorKind::InvalidUtf8),
                )
            },
        };
        match check_ascii::<Self>(typ, val) {
            Ok(_) => {},
            Err(e) => { return Err(e) },
        };
        Ok(s)
    }
}

impl RustName for String {
    open spec fn spec_rust_name() -> Seq<char> {
        "String"@
    }

    fn rust_name() -> (r: &'static str) {
        "String"
    }
}

impl<'frame> DeserializeValue<'frame> for String {
    open spec fn accepted_tags() -> Seq<ColumnType> {
        seq![ColumnType::Ascii, ColumnType::Text]
    }

    open spec fn type_check_name() -> Seq<char> {
        Self::spec_rust_name()
    }

    open spec fn decode_err(typ: ColumnType, v: Option<Seq<u8>>) -> Option<
        BuiltinDeserializationErrorKind,
    > {
        text_decode_err(typ, v)
    }

    open spec fn decode_ok(typ: ColumnType, v: Option<Seq<u8>>, r: String) -> bool {
        v matches Some(s) && encode_utf8(r@) == s
    }

    fn type_check(typ: &ColumnType) -> (r: Result<(), TypeCheckError>) {
        proof {
            lemma_tags_two(ColumnType::Ascii, ColumnType::Text, *typ);
        }
        exact_type_check_two::<Self>(typ, ColumnType::Ascii, ColumnType::Text)
    }

    fn deserialize(typ: &'frame ColumnType, v: Option<FrameSlice<'frame>>) -> (r: Result<
        Self,
        DeserializationError,
    >) {
        let val = match ensure_not_null_slice::<Self>(typ, v) {
            Ok(s) => s,
            Err(e) => { return Err(e) },
        };
        let s = match try_str_from_utf8(val) {
            Some(s) => s,
            None => {
                return Err(
                    mk_deser_err::<Self>(typ, BuiltinDeserializationErrorKind::InvalidUtf8),
                )
            },
        };
        match check_ascii::<Self>(typ, val) {
            Ok(_) => {},
            Err(e) => { return Err(e) },
        };
        Ok(s.to_owned())
    }
}

/// A CQL varint: an arbitrary-precision integer stored verbatim as the
/// sign-extended big-endian bytes of the wire. The denoted integer is the
/// signed reading of those bytes.
#[derive(Debug, Clone, PartialEq, Eq, Hash)]
pub struct CqlVarint(Vec<u8>);

impl View for CqlVarint {
    type V = Seq<u8>;

    closed spec fn view(&self) -> Seq<u8> {
        self.0@
    }
}

impl CqlVarint {
    /// The integer this varint denotes.
    pub open spec fn spec_value(self) -> int {
        be_sint(self@)
    }

    pub fn from_signed_bytes_be(digits: Vec<u8>) -> (r: CqlVarint)
        ensures
            r@ == digits@,
    {
        CqlVarint(digits)
    }

    pub fn from_signed_bytes_be_slice(digits: &[u8]) -> (r: CqlVarint)
        ensures
            r@ == digits@,
    {
        CqlVarint(vstd::slice::slice_to_vec(digits))
    }

    pub fn as_signed_bytes_be_slice(&self) -> (r: &[u8])
        ensures
            r@ == self@,
    {
        self.0.as_slice()
    }

    pub fn into_signed_bytes_be(self) -> (r: Vec<u8>)
        ensures
            r@ == self@,
    {
        self.0
    }
}

impl RustName for CqlVarint {
    open spec fn spec_rust_name() -> Seq<char> {
        "CqlVarint"@
    }

    fn rust_name() -> (r: &'static str) {
        "CqlVarint"
    }
}

impl Emptiable for CqlVarint {

}

impl<'frame> DeserializeValue<'frame> for CqlVarint {
    open spec fn accepted_tags() -> Seq<ColumnType> {
        seq![ColumnType::Varint]
    }

    open spec fn type_check_name() -> Seq<char> {
        Self::spec_rust_name()
    }

    open spec fn decode_err(typ: ColumnType, v: Option<Seq<u8>>) -> Option<
        BuiltinDeserializationErrorKind,
    > {
        blob_decode_err(v)
    }

    open spec fn decode_ok(typ: ColumnType, v: Option<Seq<u8>>, r: CqlVarint) -> bool {
        v matches Some(s) && r@ == s
    }

    fn type_check(typ: &ColumnType) -> (r: Result<(), TypeCheckError>) {
        proof {
            lemma_tags_one(ColumnType::Varint, *typ);
        }
        exact_type_check_one::<Self>(typ, ColumnType::Varint)
    }

    fn deserialize(typ: &'frame ColumnType, v: Option<FrameSlice<'frame>>) -> (r: Result<
        Self,
        DeserializationError,
    >) {
        let val = match ensure_not_null_slice::<Self>(typ, v) {
            Ok(s) => s,
            Err(e) => { return Err(e) },
        };
        Ok(CqlVarint::from_signed_bytes_be_slice(val))
    }
}

impl RustName for num_bigint::BigInt {
    open spec fn spec_rust_name() -> Seq<char> {
        "BigInt"@
    }

    fn rust_name() -> (r: &'static str) {
        "BigInt"
    }
}

impl Emptiable for num_bigint::BigInt {

}

impl<'frame> DeserializeValue<'frame> for num_bigint::BigInt {
    open spec fn accepted_tags() -> Seq<ColumnType> {
        seq![ColumnType::Varint]
    }

    open spec fn type_check_name() -> Seq<char> {
        Self::spec_rust_name()
    }

    open spec fn decode_err(typ: ColumnType, v: Option<Seq<u8>>) -> Option<
        BuiltinDeserializationErrorKind,
    > {
        blob_decode_err(v)
    }

    open spec fn decode_ok(typ: ColumnType, v: Option<Seq<u8>>, r: num_bigint::BigInt) -> bool {
        v matches Some(s) && bigint_value(r) == be_sint(s)
    }

    fn type_check(typ: &ColumnType) -> (r: Result<(), TypeCheckError>) {
        proof {
            lemma_tags_one(ColumnType::Varint, *typ);
        }
        exact_type_check_one::<Self>(typ, ColumnType::Varint)
    }

    fn deserialize(typ: &'frame ColumnType, v: Option<FrameSlice<'frame>>) -> (r: Result<
        Self,
        DeserializationError,
    >) {
        let val = match ensure_not_null_slice::<Self>(typ, v) {
            Ok(s) => s,
            Err(e) => { return Err(e) },
        };
        Ok(bigint_from_signed_bytes_be(val))
    }
}

/// A CQL decimal: a big-endian signed 32-bit scale followed by the
/// sign-extended big-endian bytes of the unscaled integer, denoting
/// `unscaled * 10^(-scale)`.
#[derive(Debug, Clone, PartialEq, Eq, Hash)]
pub struct CqlDecimal {
    int_val: Vec<u8>,
    scale: i32,
}

impl View for CqlDecimal {
    type V = (Seq<u8>, int);

    closed spec fn view(&self) -> (Seq<u8>, int) {
        (self.int_val@, self.scale as int)
    }
}

impl CqlDecimal {
    /// The unscaled integer this decimal denotes.
    pub open spec fn spec_unscaled(self) -> int {
        be_sint(self@.0)
    }

    pub fn from_signed_be_bytes_and_exponent(bytes: Vec<u8>, exponent: i32) -> (r: CqlDecimal)
        ensures
            r@.0 == bytes@,
            r@.1 == exponent,
    {
        CqlDecimal { int_val: bytes, scale: exponent }
    }

    pub fn from_signed_be_bytes_slice_and_exponent(bytes: &[u8], exponent: i32) -> (r: CqlDecimal)
        ensures
            r@.0 == bytes@,
            r@.1 == exponent,
    {
        CqlDecimal { int_val: vstd::slice::slice_to_vec(bytes), scale: exponent }
    }

    pub fn as_signed_be_bytes_slice_and_exponent(&self) -> (r: (&[u8], i32))
        ensures
            r.0@ == self@.0,
            r.1 == self@.1,
    {
        (self.int_val.as_slice(), self.scale)
    }
}

/// The error discipline of the decimal bindings: NULL is rejected, and a
/// present cell too short to carry its 4-byte scale is a low-level parse
/// failure.
pub open spec fn decimal_decode_err(v: Option<Seq<u8>>) -> Option<
    BuiltinDeserializationErrorKind,
> {
    match v {
        None => Some(BuiltinDeserializationErrorKind::ExpectedNonNull),
        Some(s) => if s.len() < 4 {
            Some(BuiltinDeserializationErrorKind::GenericParseError)
        } else {
            None
        },
    }
}

impl RustName for CqlDecimal {
    open spec fn spec_rust_name() -> Seq<char> {
        "CqlDecimal"@
    }

    fn rust_name() -> (r: &'static str) {
        "CqlDecimal"
    }
}

impl Emptiable for CqlDecimal {

}

impl<'frame> DeserializeValue<'frame> for CqlDecimal {
    open spec fn accepted_tags() -> Seq<ColumnType> {
        seq![ColumnType::Decimal]
    }

    open spec fn type_check_name() -> Seq<char> {
        Self::spec_rust_name()
    }

    open spec fn decode_err(typ: ColumnType, v: Option<Seq<u8>>) -> Option<
        BuiltinDeserializationErrorKind,
    > {
        decimal_decode_err(v)
    }

    open spec fn decode_ok(typ: ColumnType, v: Option<Seq<u8>>, r: CqlDecimal) -> bool {
        v matches Some(s) && r@.0 == s.skip(4) && r@.1 == be_sint(s.subrange(0, 4))
    }

    fn type_check(typ: &ColumnType) -> (r: Result<(), TypeCheckError>) {
        proof {
            lemma_tags_one(ColumnType::Decimal, *typ);
        }
        exact_type_check_one::<Self>(typ, ColumnType::Decimal)
    }

    fn deserialize(typ: &'frame ColumnType, v: Option<FrameSlice<'frame>>) -> (r: Result<
        Self,
        DeserializationError,
    >) {
        let val = match ensure_not_null_slice::<Self>(typ, v) {
            Ok(s) => s,
            Err(e) => { return Err(e) },
        };
        if val.len() < 4 {
            return Err(
                mk_deser_err::<Self>(typ, BuiltinDeserializationErrorKind::GenericParseError),
            );
        }
        let scale_bytes = vstd::slice::slice_subrange(val, 0, 4);
        let scale128 = be_read_sint(scale_bytes);
        proof {
            lemma_be_sint_bounds(scale_bytes@);
            lemma_pow256_words();
        }
        let scale = scale128 as i32;
        let rest = vstd::slice::slice_subrange(val, 4, val.len());
        proof {
            assert(rest@ =~= val@.skip(4));
        }
        Ok(CqlDecimal::from_signed_be_bytes_slice_and_exponent(rest, scale))
    }
}

impl RustName for bigdecimal::BigDecimal {
    open spec fn spec_rust_name() -> Seq<char> {
        "BigDecimal"@
    }

    fn rust_name() -> (r: &'static str) {
        "BigDecimal"
    }
}

impl Emptiable for bigdecimal::BigDecimal {

}

impl<'frame> DeserializeValue<'frame> for bigdecimal::BigDecimal {
    open spec fn accepted_tags() -> Seq<ColumnType> {
        seq![ColumnType::Decimal]
    }

    open spec fn type_check_name() -> Seq<char> {
        Self::spec_rust_name()
    }

    open spec fn decode_err(typ: ColumnType, v: Option<Seq<u8>>) -> Option<
        BuiltinDeserializationErrorKind,
    > {
        decimal_decode_err(v)
    }

    open spec fn decode_ok(typ: ColumnType, v: Option<Seq<u8>>, r: bigdecimal::BigDecimal) -> bool {
        v matches Some(s) && bigdecimal_unscaled(r) == be_sint(s.skip(4)) && bigdecimal_scale(r)
            == be_sint(s.subrange(0, 4))
    }

    fn type_check(typ: &ColumnType) -> (r: Result<(), TypeCheckError>) {
        proof {
            lemma_tags_one(ColumnType::Decimal, *typ);
        }
        exact_type_check_one::<Self>(typ, ColumnType::Decimal)
    }

    fn deserialize(typ: &'frame ColumnType, v: Option<FrameSlice<'frame>>) -> (r: Result<
        Self,
        DeserializationError,
    >) {
        let val = match ensure_not_null_slice::<Self>(typ, v) {
            Ok(s) => s,
            Err(e) => { return Err(e) },
        };
        if val.len() < 4 {
            return Err(
                mk_deser_err::<Self>(typ, BuiltinDeserializationErrorKind::GenericParseError),
            );
        }
        let scale_bytes = vstd::slice::slice_subrange(val, 0, 4);
        let scale128 = be_read_sint(scale_bytes);
        proof {
            lemma_be_sint_bounds(scale_bytes@);
            lemma_pow256_words();
        }
        let scale = scale128 as i64;
        let rest = vstd::slice::slice_subrange(val, 4, val.len());
        proof {
            assert(rest@ =~= val@.skip(4));
        }
        let int_value = bigint_from_signed_bytes_be(rest);
        Ok(bigdecimal_from_bigint_and_scale(int_value, scale))
    }
}

/// A dynamically-tagged column value: the target for callers that do not
/// know the cell's Rust type at compile time.
#[derive(Debug, Clone, PartialEq)]
pub enum CqlValue {
    Ascii(String),
    Boolean(bool),
    Blob(Vec<u8>),
    Counter(Counter),
    Decimal(CqlDecimal),
    Double(DoubleBits),
    Empty,
    Float(FloatBits),
    Int(i32),
    BigInt(i64),
    Text(String),
    SmallInt(i16),
    TinyInt(i8),
    Varint(CqlVarint),
}

/// Every column type, the dynamic fallback's accepted set.
pub open spec fn all_tags() -> Seq<ColumnType> {
    seq![
        ColumnType::Ascii,
        ColumnType::Boolean,
        ColumnType::Blob,
        ColumnType::Counter,
        ColumnType::Decimal,
        ColumnType::Double,
        ColumnType::Float,
        ColumnType::Int,
        ColumnType::BigInt,
        ColumnType::Text,
        ColumnType::SmallInt,
        ColumnType::TinyInt,
        ColumnType::Varint,
    ]
}

pub proof fn lemma_all_tags(t: ColumnType)
    ensures
        all_tags().contains(t),
{
    match t {
        ColumnType::Ascii => assert(all_tags()[0] == t),
        ColumnType::Boolean => assert(all_tags()[1] == t),
        ColumnType::Blob => assert(all_tags()[2] == t),
        ColumnType::Counter => assert(all_tags()[3] == t),
        ColumnType::Decimal => assert(all_tags()[4] == t),
        ColumnType::Double => assert(all_tags()[5] == t),
        ColumnType::Float => assert(all_tags()[6] == t),
        ColumnType::Int => assert(all_tags()[7] == t),
        ColumnType::BigInt => assert(all_tags()[8] == t),
        ColumnType::Text => assert(all_tags()[9] == t),
        ColumnType::SmallInt => assert(all_tags()[10] == t),
        ColumnType::TinyInt => assert(all_tags()[11] == t),
        ColumnType::Varint => assert(all_tags()[12] == t),
    }
}

/// Whether cells of this column type can hold the protocol's special empty
/// value: all of them except the types whose values may themselves be empty
/// byte strings.
pub open spec fn cql_type_is_emptiable(typ: ColumnType) -> bool {
    !(typ == ColumnType::Ascii || typ == ColumnType::Blob || typ == ColumnType::Text)
}

/// Exec mirror of [`cql_type_is_emptiable`].
pub fn is_emptiable_tag(typ: &ColumnType) -> (r: bool)
    ensures
        r == cql_type_is_emptiable(*typ),
{
    match typ {
        ColumnType::Ascii | ColumnType::Blob | ColumnType::Text => false,
        _ => true,
    }
}

/// The per-tag slot discipline the dynamic parser applies once a cell is
/// present and not the special empty value.
pub open spec fn dyn_inner_decode_err(typ: ColumnType, s: Seq<u8>) -> Option<
    BuiltinDeserializationErrorKind,
> {
    match typ {
        ColumnType::Ascii => text_decode_err(typ, Some(s)),
        ColumnType::Text => text_decode_err(typ, Some(s)),
        ColumnType::Boolean => fixed_width_decode_err(1, Some(s)),
        ColumnType::Blob => None,
        ColumnType::Counter => fixed_width_decode_err(8, Some(s)),
        ColumnType::Decimal => decimal_decode_err(Some(s)),
        ColumnType::Double => fixed_width_decode_err(8, Some(s)),
        ColumnType::Float => fixed_width_decode_err(4, Some(s)),
        ColumnType::Int => fixed_width_decode_err(4, Some(s)),
        ColumnType::BigInt => fixed_width_decode_err(8, Some(s)),
        ColumnType::SmallInt => fixed_width_decode_err(2, Some(s)),
        ColumnType::TinyInt => fixed_width_decode_err(1, Some(s)),
        ColumnType::Varint => None,
    }
}

/// What a dynamic decode returns for a present, non-empty cell of each tag.
pub open spec fn dyn_inner_decode_ok(typ: ColumnType, s: Seq<u8>, r: CqlValue) -> bool {
    match typ {
        ColumnType::Ascii => r matches CqlValue::Ascii(x) && encode_utf8(x@) == s,
        ColumnType::Text => r matches CqlValue::Text(x) && encode_utf8(x@) == s,
        ColumnType::Boolean => r matches CqlValue::Boolean(b) && b == (s[0] != 0),
        ColumnType::Blob => r matches CqlValue::Blob(b) && b@ == s,
        ColumnType::Counter => r matches CqlValue::Counter(c) && c.0 == be_sint(s),
        ColumnType::Decimal => r matches CqlValue::Decimal(d) && d@.0 == s.skip(4) && d@.1
            == be_sint(s.subrange(0, 4)),
        ColumnType::Double => r matches CqlValue::Double(d) && d.bits == be_uint(s),
        ColumnType::Float => r matches CqlValue::Float(f) && f.bits == be_uint(s),
        ColumnType::Int => r matches CqlValue::Int(x) && x == be_sint(s),
        ColumnType::BigInt => r matches CqlValue::BigInt(x) && x == be_sint(s),
        ColumnType::SmallInt => r matches CqlValue::SmallInt(x) && x == be_sint(s),
        ColumnType::TinyInt => r matches CqlValue::TinyInt(x) && x == be_sint(s),
        ColumnType::Varint => r matches CqlValue::Varint(w) && w@ == s,
    }
}

impl RustName for CqlValue {
    open spec fn spec_rust_name() -> Seq<char> {
        "CqlValue"@
    }

    fn rust_name() -> (r: &'static str) {
        "CqlValue"
    }
}

// The dynamic-value fallback: `type_check` accepts every descriptor, and
// `decode` dispatches on it. Any failure of the inner per-tag parse surfaces
// as the delegated low-level kind, `GenericParseError`; only the top-level
// null check keeps its own kind.
impl<'frame> DeserializeValue<'frame> for CqlValue {
    open spec fn accepted_tags() -> Seq<ColumnType> {
        all_tags()
    }

    open spec fn type_check_name() -> Seq<char> {
        Self::spec_rust_name()
    }

    open spec fn decode_err(typ: ColumnType, v: Option<Seq<u8>>) -> Option<
        BuiltinDeserializationErrorKind,
    > {
        match v {
            None => Some(BuiltinDeserializationErrorKind::ExpectedNonNull),
            Some(s) => if cql_type_is_emptiable(typ) && s.len() == 0 {
                None
            } else if dyn_inner_decode_err(typ, s) is Some {
                Some(BuiltinDeserializationErrorKind::GenericParseError)
            } else {
                None
            },
        }
    }

    open spec fn decode_ok(typ: ColumnType, v: Option<Seq<u8>>, r: CqlValue) -> bool {
        match v {
            None => false,
            Some(s) => if cql_type_is_emptiable(typ) && s.len() == 0 {
                r is Empty
            } else {
                dyn_inner_decode_ok(typ, s, r)
            },
        }
    }

    fn type_check(typ: &ColumnType) -> (r: Result<(), TypeCheckError>) {
        proof {
            lemma_all_tags(*typ);
        }
        Ok(())
    }

    fn deserialize(typ: &'frame ColumnType, v: Option<FrameSlice<'frame>>) -> (r: Result<
        Self,
        DeserializationError,
    >) {
        let val = match ensure_not_null_slice::<Self>(typ, v) {
            Ok(s) => s,
            Err(e) => { return Err(e) },
        };
        if is_emptiable_tag(typ) && val.len() == 0 {
            return Ok(CqlValue::Empty);
        }
        match typ {
            ColumnType::Ascii => match <String as DeserializeValue<'frame>>::deserialize(typ, v) {
                Ok(x) => Ok(CqlValue::Ascii(x)),
                Err(_) => Err(
                    mk_deser_err::<Self>(typ, BuiltinDeserializationErrorKind::GenericParseError),
                ),
            },
            ColumnType::Text => match <String as DeserializeValue<'frame>>::deserialize(typ, v) {
                Ok(x) => Ok(CqlValue::Text(x)),
                Err(_) => Err(
                    mk_deser_err::<Self>(typ, BuiltinDeserializationErrorKind::GenericParseError),
                ),
            },
            ColumnType::Boolean => match <bool as DeserializeValue<'frame>>::deserialize(typ, v) {
                Ok(x) => Ok(CqlValue::Boolean(x)),
                Err(_) => Err(
                    mk_deser_err::<Self>(typ, BuiltinDeserializationErrorKind::GenericParseError),
                ),
            },
            ColumnType::Blob => match <Vec<u8> as DeserializeValue<'frame>>::deserialize(typ, v) {
                Ok(x) => Ok(CqlValue::Blob(x)),
                Err(_) => Err(
                    mk_deser_err::<Self>(typ, BuiltinDeserializationErrorKind::GenericParseError),
                ),
            },
            ColumnType::Counter => match <Counter as DeserializeValue<'frame>>::deserialize(
                typ,
                v,
            ) {
                Ok(x) => Ok(CqlValue::Counter(x)),
                Err(_) => Err(
                    mk_deser_err::<Self>(typ, BuiltinDeserializationErrorKind::GenericParseError),
                ),
            },
            ColumnType::Decimal => match <CqlDecimal as DeserializeValue<'frame>>::deserialize(
                typ,
                v,
            ) {
                Ok(x) => Ok(CqlValue::Decimal(x)),
                Err(_) => Err(
                    mk_deser_err::<Self>(typ, BuiltinDeserializationErrorKind::GenericParseError),
                ),
            },
            ColumnType::Double => match <DoubleBits as DeserializeValue<'frame>>::deserialize(
                typ,
                v,
            ) {
                Ok(x) => Ok(CqlValue::Double(x)),
                Err(_) => Err(
                    mk_deser_err::<Self>(typ, BuiltinDeserializationErrorKind::GenericParseError),
                ),
            },
            ColumnType::Float => match <FloatBits as DeserializeValue<'frame>>::deserialize(
                typ,
                v,
            ) {
                Ok(x) => Ok(CqlValue::Float(x)),
                Err(_) => Err(
                    mk_deser_err::<Self>(typ, BuiltinDeserializationErrorKind::GenericParseError),
                ),
            },
            ColumnType::Int => match <i32 as DeserializeValue<'frame>>::deserialize(typ, v) {
                Ok(x) => Ok(CqlValue::Int(x)),
                Err(_) => Err(
                    mk_deser_err::<Self>(typ, BuiltinDeserializationErrorKind::GenericParseError),
                ),
            },
            ColumnType::BigInt => match <i64 as DeserializeValue<'frame>>::deserialize(typ, v) {
                Ok(x) => Ok(CqlValue::BigInt(x)),
                Err(_) => Err(
                    mk_deser_err::<Self>(typ, BuiltinDeserializationErrorKind::GenericParseError),
                ),
            },
            ColumnType::SmallInt => match <i16 as DeserializeValue<'frame>>::deserialize(typ, v) {
                Ok(x) => Ok(CqlValue::SmallInt(x)),
                Err(_) => Err(
                    mk_deser_err::<Self>(typ, BuiltinDeserializationErrorKind::GenericParseError),
                ),
            },
            ColumnType::TinyInt => match <i8 as DeserializeValue<'frame>>::deserialize(typ, v) {
                Ok(x) => Ok(CqlValue::TinyInt(x)),
                Err(_) => Err(
                    mk_deser_err::<Self>(typ, BuiltinDeserializationErrorKind::GenericParseError),
                ),
            },
            ColumnType::Varint => match <CqlVarint as DeserializeValue<'frame>>::deserialize(
                typ,
                v,
            ) {
                Ok(x) => Ok(CqlValue::Varint(x)),
                Err(_) => Err(
                    mk_deser_err::<Self>(typ, BuiltinDeserializationErrorKind::GenericParseError),
                ),
            },
        }
    }
}

} // verus!
