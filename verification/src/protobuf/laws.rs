//! What single values are written as and read as: the entries of a tuple
//! are the fields numbered by their place, and each number type is read
//! from the wire value it is written as.
use super::WireType;
use super::decode::{DecodeError, DecodeMessage, KindModel, Fixed, ZigZag};
use super::encode::{EncodeMessage, FieldOpt, tag_bytes};
use crate::varint::varint_bytes;

use vstd::prelude::*;
use vstd::utf8::encode_utf8;

verus! {

/// How entry `a` of a message appears in it as field `num`: written with
/// that number, or left out when it is its default value.
pub open spec fn entry_as_field<A: EncodeMessage>(a: A, num: u64) -> Seq<u8> {
    if a.spec_is_default() {
        Seq::empty()
    } else {
        a.spec_encoding(Some(FieldOpt { num, is_nested: false }))
    }
}

/// The bytes of a message body `body`: the body itself, or, written as
/// field `f`, its tag, its length and the body.
pub open spec fn message_as(field: Option<FieldOpt>, body: Seq<u8>) -> Seq<u8> {
    match field {
        None => body,
        Some(f) => tag_bytes(f.num, WireType::Len) + varint_bytes(body.len()) + body,
    }
}

/// A pair is the message whose field 0 is its first entry and field 1 its
/// second, in that order.
pub proof fn law_pair_fields<A: EncodeMessage, B: EncodeMessage>(t: (A, B), field: Option<FieldOpt>)
    ensures
        t.spec_encoding(field) == message_as(field, entry_as_field(t.0, 0) + entry_as_field(t.1, 1)),
{
}

/// A triple is the message whose fields 0, 1 and 2 are its entries, in
/// that order.
pub proof fn law_triple_fields<A: EncodeMessage, B: EncodeMessage, C: EncodeMessage>(
    t: (A, B, C),
    field: Option<FieldOpt>,
)
    ensures
        t.spec_encoding(field) == message_as(
            field,
            entry_as_field(t.0, 0) + entry_as_field(t.1, 1) + entry_as_field(t.2, 2),
        ),
{
}

/// A tuple of four is the message whose fields 0 to 3 are its entries, in
/// that order.
pub proof fn law_tuple4_fields<A: EncodeMessage, B: EncodeMessage, C: EncodeMessage, D: EncodeMessage>(
    t: (A, B, C, D),
    field: Option<FieldOpt>,
)
    ensures
        t.spec_encoding(field) == message_as(
            field,
            entry_as_field(t.0, 0) + entry_as_field(t.1, 1) + entry_as_field(t.2, 2)
                + entry_as_field(t.3, 3),
        ),
{
}

/// A tuple of five is the message whose fields 0 to 4 are its entries, in
/// that order.
pub proof fn law_tuple5_fields<
    A: EncodeMessage,
    B: EncodeMessage,
    C: EncodeMessage,
    D: EncodeMessage,
    E: EncodeMessage,
>(t: (A, B, C, D, E), field: Option<FieldOpt>)
    ensures
        t.spec_encoding(field) == message_as(
            field,
            entry_as_field(t.0, 0) + entry_as_field(t.1, 1) + entry_as_field(t.2, 2)
                + entry_as_field(t.3, 3) + entry_as_field(t.4, 4),
        ),
{
}

/// A tuple of six is the message whose fields 0 to 5 are its entries, in
/// that order.
pub proof fn law_tuple6_fields<
    A: EncodeMessage,
    B: EncodeMessage,
    C: EncodeMessage,
    D: EncodeMessage,
    E: EncodeMessage,
    F: EncodeMessage,
>(t: (A, B, C, D, E, F), field: Option<FieldOpt>)
    ensures
        t.spec_encoding(field) == message_as(
            field,
            entry_as_field(t.0, 0) + entry_as_field(t.1, 1) + entry_as_field(t.2, 2)
                + entry_as_field(t.3, 3) + entry_as_field(t.4, 4) + entry_as_field(t.5, 5),
        ),
{
}

/// Varint numbers are read from a varint `n`, whatever they held before:
/// a `u64` as `n`, a `u32` as its low 32 bits, an `i64` and an `i32` as the
/// two's complement number of those bits, a `bool` as whether `n` is not
/// zero. Any other wire value is refused and the number kept.
pub proof fn law_varint_numbers_read<'m>(n: u64, v64: u64, v32: u32, s64: i64, s32: i32, b: bool, is_field: bool, other: KindModel)
    requires
        !(other is Varint),
    ensures
        <u64 as DecodeMessage<'m>>::spec_merge(v64, KindModel::Varint(n), is_field) == (n, Ok::<(), DecodeError>(())),
        ({
            let (r, ok) = <u32 as DecodeMessage<'m>>::spec_merge(v32, KindModel::Varint(n), is_field);
            r == n % 0x1_0000_0000 && ok is Ok
        }),
        ({
            let (r, ok) = <i64 as DecodeMessage<'m>>::spec_merge(s64, KindModel::Varint(n), is_field);
            r as u64 == n && ok is Ok
        }),
        ({
            let (r, ok) = <i32 as DecodeMessage<'m>>::spec_merge(s32, KindModel::Varint(n), is_field);
            (r as u32) as int == n % 0x1_0000_0000 && ok is Ok
        }),
        <bool as DecodeMessage<'m>>::spec_merge(b, KindModel::Varint(n), is_field) == (n != 0, Ok::<(), DecodeError>(())),
        <u64 as DecodeMessage<'m>>::spec_merge(v64, other, is_field) == (v64, Err::<(), DecodeError>(DecodeError::ExpectedVarintWireType)),
        <u32 as DecodeMessage<'m>>::spec_merge(v32, other, is_field) == (v32, Err::<(), DecodeError>(DecodeError::ExpectedVarintWireType)),
        <i64 as DecodeMessage<'m>>::spec_merge(s64, other, is_field) == (s64, Err::<(), DecodeError>(DecodeError::ExpectedVarintWireType)),
        <i32 as DecodeMessage<'m>>::spec_merge(s32, other, is_field) == (s32, Err::<(), DecodeError>(DecodeError::ExpectedVarintWireType)),
        <bool as DecodeMessage<'m>>::spec_merge(b, other, is_field) == (b, Err::<(), DecodeError>(DecodeError::ExpectedVarintWireType)),
{
    assert((n as u32) as int == n % 0x1_0000_0000) by (bit_vector);
    assert((n as i64) as u64 == n) by (bit_vector);
    assert(((n as i32) as u32) as int == n % 0x1_0000_0000) by (bit_vector);
}

/// Fixed width numbers are read whole from a fixed width value of their
/// width, whatever they held before: a fixed32 from the 32 bits `n`, a
/// fixed64 from the 64 bits `m`, the signed ones as the two's complement
/// number of those bits. Any other wire value is refused and the number
/// kept.
pub proof fn law_fixed_numbers_read<'m>(
    n: u32,
    m: u64,
    u: u32,
    i: i32,
    w: u64,
    j: i64,
    is_field: bool,
    other: KindModel,
)
    ensures
        <Fixed<u32> as DecodeMessage<'m>>::spec_merge(u, KindModel::I32(n), is_field) == (n, Ok::<(), DecodeError>(())),
        ({
            let (r, ok) = <Fixed<i32> as DecodeMessage<'m>>::spec_merge(i, KindModel::I32(n), is_field);
            r as u32 == n && ok is Ok
        }),
        <Fixed<u64> as DecodeMessage<'m>>::spec_merge(w, KindModel::I64(m), is_field) == (m, Ok::<(), DecodeError>(())),
        ({
            let (r, ok) = <Fixed<i64> as DecodeMessage<'m>>::spec_merge(j, KindModel::I64(m), is_field);
            r as u64 == m && ok is Ok
        }),
        !(other is I32) ==> <Fixed<u32> as DecodeMessage<'m>>::spec_merge(u, other, is_field) == (u, Err::<(), DecodeError>(DecodeError::ExpectedI32WireType)),
        !(other is I32) ==> <Fixed<i32> as DecodeMessage<'m>>::spec_merge(i, other, is_field) == (i, Err::<(), DecodeError>(DecodeError::ExpectedI32WireType)),
        !(other is I64) ==> <Fixed<u64> as DecodeMessage<'m>>::spec_merge(w, other, is_field) == (w, Err::<(), DecodeError>(DecodeError::ExpectedI64WireType)),
        !(other is I64) ==> <Fixed<i64> as DecodeMessage<'m>>::spec_merge(j, other, is_field) == (j, Err::<(), DecodeError>(DecodeError::ExpectedI64WireType)),
{
    assert((n as i32) as u32 == n) by (bit_vector);
    assert((m as i64) as u64 == m) by (bit_vector);
}

/// A zigzag number is read from a varint `n` by halving the two's
/// complement number `x` of its bits: an even `x` gives `x / 2`, an odd `x`
/// the number `r` with `2 * r + 1 == -x`; for `ZigZag<i32>` `x` is the low 32
/// bits.
pub proof fn law_zigzag_read<'m>(n: u64, v32: i32, v64: i64, is_field: bool)
    ensures
        ({
            let x = (n as i32) as int;
            let (r, ok) = <ZigZag<i32> as DecodeMessage<'m>>::spec_merge(v32, KindModel::Varint(n), is_field);
            &&& ok is Ok
            &&& x % 2 == 0 ==> 2 * r == x
            &&& x % 2 != 0 ==> 2 * r + 1 == -x
        }),
        ({
            let x = (n as i64) as int;
            let (r, ok) = <ZigZag<i64> as DecodeMessage<'m>>::spec_merge(v64, KindModel::Varint(n), is_field);
            &&& ok is Ok
            &&& x % 2 == 0 ==> 2 * r == x
            &&& x % 2 != 0 ==> 2 * r + 1 == -x
        }),
{
    let m = n as u32;
    assert((n as u32) < 0x8000_0000 ==> (n as i32) as int == (n as u32) as int) by (bit_vector);
    assert((n as u32) >= 0x8000_0000 ==> (n as i32) as int == (n as u32) as int - 0x1_0000_0000) by (bit_vector);
    assert(n < 0x8000_0000_0000_0000 ==> (n as i64) as int == n as int) by (bit_vector);
    assert(n >= 0x8000_0000_0000_0000 ==> (n as i64) as int == n as int - 0x1_0000_0000_0000_0000) by (bit_vector);
}

/// The bytes of a scalar `n`: its varint, after the tag of the field it is
/// written as, if any.
pub open spec fn scalar_as(field: Option<FieldOpt>, n: nat) -> Seq<u8> {
    match field {
        None => varint_bytes(n),
        Some(f) => tag_bytes(f.num, WireType::Varint) + varint_bytes(n),
    }
}

/// Number types are written as the varint of their value (signed ones as
/// their two's complement bits, sign extended to 64), a `bool` as 1 or 0;
/// each is its default exactly when it is 0 (or `false`), and is written
/// as a varint.
pub proof fn law_scalars_written<'m>(v: u64, u: u32, s: i64, t: i32, b: bool, field: Option<FieldOpt>)
    ensures
        v.spec_encoding(field) == scalar_as(field, v as nat),
        u.spec_encoding(field) == scalar_as(field, u as nat),
        s.spec_encoding(field) == scalar_as(field, (s as u64) as nat),
        t.spec_encoding(field) == scalar_as(field, (t as u64) as nat),
        b.spec_encoding(field) == scalar_as(field, if b { 1 } else { 0 }),
        v.spec_is_default() == (v == 0),
        u.spec_is_default() == (u == 0),
        s.spec_is_default() == (s == 0),
        t.spec_is_default() == (t == 0),
        b.spec_is_default() == !b,
        <u64 as EncodeMessage>::spec_wire_type() == WireType::Varint,
        <u32 as EncodeMessage>::spec_wire_type() == WireType::Varint,
        <i64 as EncodeMessage>::spec_wire_type() == WireType::Varint,
        <i32 as EncodeMessage>::spec_wire_type() == WireType::Varint,
        <bool as EncodeMessage>::spec_wire_type() == WireType::Varint,
        v.spec_encodable() && u.spec_encodable() && s.spec_encodable() && t.spec_encodable()
            && b.spec_encodable(),
{
}

/// Byte strings, strings and byte arrays are written as their bytes (the
/// UTF-8 bytes of a string), as a length delimited field when written as
/// one; each is its default exactly when it is empty.
pub proof fn law_byte_strings_written<const S: usize>(
    bytes: Vec<u8>,
    text: String,
    array: [u8; S],
    field: Option<FieldOpt>,
)
    ensures
        bytes.spec_encoding(field) == message_as(field, bytes@),
        text.spec_encoding(field) == message_as(field, encode_utf8(text@)),
        array.spec_encoding(field) == message_as(field, array@),
        bytes.spec_is_default() == (bytes@.len() == 0),
        text.spec_is_default() == (text@.len() == 0),
        array.spec_is_default() == (S == 0),
        bytes.spec_encodable() && text.spec_encodable() && array.spec_encodable(),
{
    assert(text@.len() == 0 <==> encode_utf8(text@).len() == 0) by {
        if text@.len() != 0 {
            vstd::utf8::encode_utf8_decode_utf8(text@);
            vstd::utf8::encode_utf8_valid_utf8(text@);
        }
    }
}

/// An option is its default exactly when it holds nothing, and then it is
/// written as nothing, also as a field; a sequence is its default exactly
/// when it is empty.
pub proof fn law_containers_default<V: EncodeMessage>(o: Option<V>, t: Vec<V>)
    ensures
        o.spec_is_default() == (o is None),
        o is None ==> o.spec_encoding(None) == Seq::<u8>::empty(),
        t.spec_is_default() == (t@.len() == 0),
{
}

/// An option is a message whose field 1 holds its value, if any: written
/// on its own or as a field that is not nested, the value is written as
/// that field (with the given number); written as a nested field, the
/// message is one length delimited field.
pub proof fn law_option_written<V: EncodeMessage>(o: Option<V>, num: u64)
    ensures
        o.spec_encoding(None) == match o {
            Some(v) => v.spec_encoding(Some(FieldOpt { num: 1, is_nested: true })),
            None => Seq::<u8>::empty(),
        },
        o.spec_encoding(Some(FieldOpt { num, is_nested: false })) == match o {
            Some(v) => v.spec_encoding(Some(FieldOpt { num, is_nested: true })),
            None => Seq::<u8>::empty(),
        },
        o.spec_encoding(Some(FieldOpt { num, is_nested: true })) == message_as(
            Some(FieldOpt { num, is_nested: true }),
            o.spec_encoding(None),
        ),
{
}

} // verus!
