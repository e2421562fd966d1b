//! Cell slots and the guards that turn an optional slot into bytes or an error.
//!
//! A cell of a query response row is either absent (protocol NULL) or a
//! zero-copy view into the caller-owned frame buffer; a present view may
//! still be empty, which is a value of its own and never conflated with NULL.

use vstd::prelude::*;

use crate::bridge::bytes_content;
use crate::coltype::ColumnType;
use crate::errors::{
    mk_deser_err, BuiltinDeserializationErrorKind, DeserializationError, RustName,
};

verus! {

/// A zero-copy view of one cell's bytes inside a caller-owned frame buffer.
/// It borrows from that buffer and shares its lifetime.
#[derive(Debug, Clone, Copy)]
pub struct FrameSlice<'frame> {
    slice: &'frame [u8],
}

impl<'frame> View for FrameSlice<'frame> {
    type V = Seq<u8>;

    closed spec fn view(&self) -> Seq<u8> {
        self.slice@
    }
}

impl<'frame> FrameSlice<'frame> {
    /// Wraps a borrowed byte view of one cell.
    pub fn new(slice: &'frame [u8]) -> (r: FrameSlice<'frame>)
        ensures
            r@ == slice@,
    {
        FrameSlice { slice }
    }

    /// The borrowed bytes, with the frame buffer's lifetime.
    pub fn as_slice(&self) -> (r: &'frame [u8])
        ensures
            r@ == self@,
    {
        self.slice
    }

    /// An owned copy of the cell's bytes, decoupled from the frame buffer.
    pub fn to_bytes(&self) -> (r: bytes::Bytes)
        ensures
            bytes_content(r) == self@,
    {
        crate::bridge::bytes_copy_from_slice(self.slice)
    }

    pub fn len(&self) -> (r: usize)
        ensures
            r == self@.len(),
    {
        self.slice.len()
    }

    pub fn is_empty(&self) -> (r: bool)
        ensures
            r == (self@.len() == 0),
    {
        self.slice.len() == 0
    }
}

/// Turns an absent slot into `ExpectedNonNull`, else hands the slot through.
pub fn ensure_not_null_frame_slice<'frame, T: RustName>(
    typ: &ColumnType,
    v: Option<FrameSlice<'frame>>,
) -> (r: Result<FrameSlice<'frame>, DeserializationError>)
    ensures
        match r {
            Ok(s) => v matches Some(fs) && s == fs,
            Err(e) => v is None && e.0.cql_type == *typ && e.0.kind
                == BuiltinDeserializationErrorKind::ExpectedNonNull,
        },
{
    match v {
        Some(s) => Ok(s),
        None => Err(
            mk_deser_err::<T>(typ, BuiltinDeserializationErrorKind::ExpectedNonNull),
        ),
    }
}

/// Turns an absent slot into `ExpectedNonNull`, else projects to the bytes.
pub fn ensure_not_null_slice<'frame, T: RustName>(
    typ: &ColumnType,
    v: Option<FrameSlice<'frame>>,
) -> (r: Result<&'frame [u8], DeserializationError>)
    ensures
        match r {
            Ok(s) => v matches Some(fs) && s@ == fs@,
            Err(e) => v is None && e.0.cql_type == *typ && e.0.kind
                == BuiltinDeserializationErrorKind::ExpectedNonNull,
        },
{
    match ensure_not_null_frame_slice::<T>(typ, v) {
        Ok(s) => Ok(s.as_slice()),
        Err(e) => Err(e),
    }
}

/// Turns an absent slot into `ExpectedNonNull`, else copies out an owned buffer.
pub fn ensure_not_null_owned<'frame, T: RustName>(
    typ: &ColumnType,
    v: Option<FrameSlice<'frame>>,
) -> (r: Result<bytes::Bytes, DeserializationError>)
    ensures
        match r {
            Ok(b) => v matches Some(fs) && bytes_content(b) == fs@,
            Err(e) => v is None && e.0.cql_type == *typ && e.0.kind
                == BuiltinDeserializationErrorKind::ExpectedNonNull,
        },
{
    match ensure_not_null_frame_slice::<T>(typ, v) {
        Ok(s) => Ok(s.to_bytes()),
        Err(e) => Err(e),
    }
}

/// Rejects any byte view whose length is not exactly `SIZE` with
/// `ByteLengthMismatch`, else hands the view through.
pub fn ensure_exact_length<'frame, T: RustName, const SIZE: usize>(
    typ: &ColumnType,
    v: &'frame [u8],
) -> (r: Result<&'frame [u8], DeserializationError>)
    ensures
        match r {
            Ok(s) => v@.len() == SIZE && s@ == v@,
            Err(e) => v@.len() != SIZE && e.0.cql_type == *typ && e.0.kind == (
            BuiltinDeserializationErrorKind::ByteLengthMismatch {
                expected: SIZE,
                got: v@.len() as usize,
            }),
        },
{
    if v.len() == SIZE {
        Ok(v)
    } else {
        Err(
            mk_deser_err::<T>(
                typ,
                BuiltinDeserializationErrorKind::ByteLengthMismatch {
                    expected: SIZE,
                    got: v.len(),
                },
            ),
        )
    }
}

} // verus!
