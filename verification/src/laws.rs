//! The crate-level laws of the typed-decode protocol, proved once over the
//! spec functions that the bindings' own contracts are stated with.

use vstd::prelude::*;

use crate::coltype::ColumnType;
use crate::encoding::{
    be_bytes_of_int, be_bytes_of_uint, be_sint, be_uint, lemma_be_bytes_of_uint_len,
    lemma_be_sint_of_bytes, lemma_be_sint_sign_extend, lemma_be_uint_of_bytes, pow256,
};
use crate::errors::BuiltinDeserializationErrorKind;
use crate::value::{
    blob_decode_err, decimal_decode_err, fixed_width_decode_err, has_non_ascii_byte,
    text_decode_err, CqlVarint, DeserializeValue, Emptiable, MaybeEmpty,
};
use vstd::utf8::{
    is_leading_byte_width_1, pop_first_scalar, valid_first_scalar, valid_utf8,
};

verus! {

/// Round trip for the fixed-width signed integer bindings: the `width`-byte
/// two's-complement encoding of any representable value decodes back to that
/// value, and to nothing else, and is never rejected.
pub proof fn lemma_fixed_int_round_trip(x: int, width: usize)
    requires
        1 <= width,
        -128 * pow256((width - 1) as nat) <= x < 128 * pow256((width - 1) as nat),
    ensures
        fixed_width_decode_err(width, Some(be_bytes_of_int(x, width as nat))) is None,
        be_sint(be_bytes_of_int(x, width as nat)) == x,
{
    lemma_be_sint_of_bytes(x, width as nat);
}

/// Round trip for the float-bits bindings: the `width`-byte big-endian
/// encoding of any bit pattern in range decodes back to those bits, and is
/// never rejected.
pub proof fn lemma_float_bits_round_trip(bits: nat, width: usize)
    requires
        1 <= width,
        bits < pow256(width as nat),
    ensures
        fixed_width_decode_err(width, Some(be_bytes_of_uint(bits, width as nat))) is None,
        be_uint(be_bytes_of_uint(bits, width as nat)) == bits,
{
    lemma_be_bytes_of_uint_len(bits, width as nat);
    lemma_be_uint_of_bytes(bits, width as nat);
}

/// Round trip for the boolean binding: the canonical one-byte encoding of a
/// boolean decodes back to it.
pub proof fn lemma_bool_round_trip(b: bool)
    ensures
        fixed_width_decode_err(
            1,
            Some(seq![if b { 1u8 } else { 0u8 }]),
        ) is None,
        <bool as DeserializeValue>::decode_ok(
            ColumnType::Boolean,
            Some(seq![if b { 1u8 } else { 0u8 }]),
            b,
        ),
        !<bool as DeserializeValue>::decode_ok(
            ColumnType::Boolean,
            Some(seq![if b { 1u8 } else { 0u8 }]),
            !b,
        ),
{
}

/// An absent cell is `ExpectedNonNull` for every direct binding: the
/// fixed-width ones of any width, the blobs and texts, and the decimals.
pub proof fn lemma_absent_is_rejected(typ: ColumnType, width: usize)
    ensures
        fixed_width_decode_err(width, None) == Some(
            BuiltinDeserializationErrorKind::ExpectedNonNull,
        ),
        blob_decode_err(None) == Some(BuiltinDeserializationErrorKind::ExpectedNonNull),
        text_decode_err(typ, None) == Some(BuiltinDeserializationErrorKind::ExpectedNonNull),
        decimal_decode_err(None) == Some(BuiltinDeserializationErrorKind::ExpectedNonNull),
{
}

/// The nullability adapter turns the same absent cell into "no value", with
/// no error, whatever the wrapped binding would have done; a present cell it
/// hands to the wrapped binding untouched.
pub proof fn lemma_nullable_adapter<'frame, T: DeserializeValue<'frame>>(
    typ: ColumnType,
    s: Seq<u8>,
)
    ensures
        <Option<T> as DeserializeValue<'frame>>::decode_err(typ, None) is None,
        forall|r: Option<T>|
            <Option<T> as DeserializeValue<'frame>>::decode_ok(typ, None, r) <==> r is None,
        <Option<T> as DeserializeValue<'frame>>::decode_err(typ, Some(s)) == T::decode_err(
            typ,
            Some(s),
        ),
        forall|x: T|
            <Option<T> as DeserializeValue<'frame>>::decode_ok(typ, Some(s), Some(x))
                == T::decode_ok(typ, Some(s), x),
{
}

/// The emptiness adapter: an absent cell is `ExpectedNonNull`; a present
/// zero-length cell is `Empty`, with the wrapped binding never invoked; any
/// other cell decodes through the wrapped binding into `Value`.
pub proof fn lemma_emptiness_adapter<'frame, T: DeserializeValue<'frame> + Emptiable>(
    typ: ColumnType,
    s: Seq<u8>,
)
    ensures
        <MaybeEmpty<T> as DeserializeValue<'frame>>::decode_err(typ, None) == Some(
            BuiltinDeserializationErrorKind::ExpectedNonNull,
        ),
        s.len() == 0 ==> <MaybeEmpty<T> as DeserializeValue<'frame>>::decode_err(
            typ,
            Some(s),
        ) is None,
        s.len() == 0 ==> forall|r: MaybeEmpty<T>|
            <MaybeEmpty<T> as DeserializeValue<'frame>>::decode_ok(typ, Some(s), r) <==> r
                is Empty,
        s.len() > 0 ==> <MaybeEmpty<T> as DeserializeValue<'frame>>::decode_err(typ, Some(s))
            == T::decode_err(typ, Some(s)),
        s.len() > 0 ==> forall|x: T|
            <MaybeEmpty<T> as DeserializeValue<'frame>>::decode_ok(
                typ,
                Some(s),
                MaybeEmpty::Value(x),
            ) == T::decode_ok(typ, Some(s), x),
{
}

/// A byte string whose bytes all lie in the ASCII range is valid UTF-8.
pub proof fn lemma_ascii_is_valid_utf8(s: Seq<u8>)
    requires
        !has_non_ascii_byte(s),
    ensures
        valid_utf8(s),
    decreases s.len(),
{
    if s.len() > 0 {
        assert(s[0] < 0x80);
        assert(is_leading_byte_width_1(s[0]));
        assert(valid_first_scalar(s));
        let rest = pop_first_scalar(s);
        assert(rest =~= s.subrange(1, s.len() as int));
        assert(forall|i: int| 0 <= i < rest.len() ==> rest[i] == s[i + 1]);
        assert(!has_non_ascii_byte(rest));
        lemma_ascii_is_valid_utf8(rest);
    }
}

/// The text rules. Bytes that are not UTF-8 are `InvalidUtf8` under every
/// tag. Valid UTF-8 always decodes under the `Text` tag, whether or not it
/// leaves the ASCII range; under the `Ascii` tag it additionally needs every
/// byte in the ASCII range, else it is `ExpectedAscii`.
pub proof fn lemma_text_rules(typ: ColumnType, s: Seq<u8>)
    ensures
        !valid_utf8(s) ==> text_decode_err(typ, Some(s)) == Some(
            BuiltinDeserializationErrorKind::InvalidUtf8,
        ),
        typ == ColumnType::Text && valid_utf8(s) ==> text_decode_err(typ, Some(s)) is None,
        typ == ColumnType::Ascii && valid_utf8(s) && has_non_ascii_byte(s) ==> text_decode_err(
            typ,
            Some(s),
        ) == Some(BuiltinDeserializationErrorKind::ExpectedAscii),
        typ == ColumnType::Ascii && !has_non_ascii_byte(s) ==> text_decode_err(
            typ,
            Some(s),
        ) is None,
{
    if !has_non_ascii_byte(s) {
        lemma_ascii_is_valid_utf8(s);
    }
}

/// The varint binding accepts a present cell of every length, zero included,
/// and denotes its signed big-endian reading; prepending the sign's fill
/// byte leaves that reading unchanged, so all sign-extended spellings of one
/// integer decode alike.
pub proof fn lemma_varint_rules(s: Seq<u8>, fill: u8)
    ensures
        blob_decode_err(Some(s)) is None,
        forall|r: CqlVarint|
            <CqlVarint as DeserializeValue>::decode_ok(ColumnType::Varint, Some(s), r) <==> r@
                == s,
        be_sint(Seq::<u8>::empty()) == 0,
        s.len() >= 1 && fill == (if s[0] >= 0x80 {
            0xffu8
        } else {
            0u8
        }) ==> be_sint(seq![fill] + s) == be_sint(s),
{
    assert(be_sint(Seq::<u8>::empty()) == 0);
    if s.len() >= 1 && fill == (if s[0] >= 0x80 {
        0xffu8
    } else {
        0u8
    }) {
        lemma_be_sint_sign_extend(s, fill);
    }
}

} // verus!
