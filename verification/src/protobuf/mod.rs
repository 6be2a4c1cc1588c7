//! The protobuf wire format: field tags, varints, fixed width numbers and
//! length delimited bytes.
pub mod decode;
pub mod encode;
pub mod roundtrip;
pub mod laws;

use vstd::prelude::*;

use self::decode::{DecodeError, DecodeMessage, KindModel};
use self::encode::{EncodeError, EncodeMessage, MessageEncoder};

verus! {

/// The kind of value that follows a field tag on the wire.
#[derive(Debug, Clone, Copy, PartialEq, Eq)]
pub enum WireType {
    Varint,
    I32,
    I64,
    Len,
}

/// The number that stands for a wire type in the low three bits of a tag.
pub open spec fn wire_type_num(w: WireType) -> u8 {
    match w {
        WireType::Varint => 0,
        WireType::I64 => 1,
        WireType::Len => 2,
        WireType::I32 => 5,
    }
}

/// The wire type that the low three bits of `tag` name.
pub open spec fn spec_wire_type_from_tag(tag: u64) -> Result<WireType, DecodeError> {
    let b = (tag % 8) as u8;
    if b == 0 {
        Ok(WireType::Varint)
    } else if b == 1 {
        Ok(WireType::I64)
    } else if b == 2 {
        Ok(WireType::Len)
    } else if b == 5 {
        Ok(WireType::I32)
    } else {
        Err(DecodeError::InvalidWireType(b))
    }
}

impl WireType {
    pub fn from_tag(tag: u64) -> (r: Result<Self, DecodeError>)
        ensures
            r == spec_wire_type_from_tag(tag),
    {
        let b = (tag % 8) as u8;
        match b {
            0 => Ok(WireType::Varint),
            1 => Ok(WireType::I64),
            2 => Ok(WireType::Len),
            5 => Ok(WireType::I32),
            b => Err(DecodeError::InvalidWireType(b)),
        }
    }

    pub fn as_num(&self) -> (r: u8)
        ensures
            r == wire_type_num(*self),
    {
        match self {
            WireType::Varint => 0,
            WireType::I64 => 1,
            WireType::Len => 2,
            WireType::I32 => 5,
        }
    }

    pub open spec fn spec_can_be_packed(self) -> bool {
        !(self is Len)
    }

    /// Scalars (varints and fixed width numbers) can be packed into one
    /// length delimited field.
    pub fn can_be_packed(&self) -> (r: bool)
        ensures
            r == self.spec_can_be_packed(),
    {
        matches!(self, WireType::Varint | WireType::I32 | WireType::I64)
    }

    pub fn is_len(&self) -> (r: bool)
        ensures
            r == (*self is Len),
    {
        matches!(self, WireType::Len)
    }
}

/// The number of a wire type is read back as the same wire type, whatever
/// field number stands in the other bits of the tag.
pub proof fn lemma_wire_type_roundtrip(w: WireType, number: u64)
    requires
        number < 0x2000_0000_0000_0000,
    ensures
        spec_wire_type_from_tag((number * 8 + wire_type_num(w)) as u64) == Ok::<
            WireType,
            DecodeError,
        >(w),
{
}

} // verus!

verus! {

/// The bytes that `MessageEncoder` writes for a value of a field, after
/// its tag.
pub open spec fn kind_bytes(k: decode::KindModel) -> Seq<u8> {
    match k {
        decode::KindModel::Varint(v) => crate::varint::varint_bytes(v as nat),
        decode::KindModel::I32(v) => crate::fixed_bytes::le_bytes(v as nat, 4),
        decode::KindModel::I64(v) => crate::fixed_bytes::le_bytes(v as nat, 8),
        decode::KindModel::Len(b) => crate::varint::varint_bytes(b.len()) + b,
    }
}

/// A value written with `MessageEncoder` after its tag is read back as the
/// same value by reading its wire type, whatever bytes follow it; length
/// delimited values need a length that fits in a `u64`.
pub proof fn law_kind_roundtrip(k: decode::KindModel, rest: Seq<u8>)
    requires
        k matches decode::KindModel::Len(b) ==> b.len() <= u64::MAX,
    ensures
        decode::spec_read_kind(kind_bytes(k) + rest, decode::spec_kind_wire_type(k)) == (Ok::<
            decode::KindModel,
            DecodeError,
        >(k), kind_bytes(k).len()),
        kind_bytes(k).len() > 0,
{
    let body = kind_bytes(k) + rest;
    match k {
        decode::KindModel::Varint(v) => {
            crate::varint::law_varint_roundtrip(v, rest);
            crate::varint::lemma_varint_len(v as nat);
        },
        decode::KindModel::I32(v) => {
            crate::fixed_bytes::lemma_le_bytes_len(v as nat, 4);
            crate::fixed_bytes::lemma_pow256_values();
            crate::fixed_bytes::lemma_le_roundtrip(v as nat, 4);
            assert(body.take(4) =~= crate::fixed_bytes::le_bytes(v as nat, 4));
        },
        decode::KindModel::I64(v) => {
            crate::fixed_bytes::lemma_le_bytes_len(v as nat, 8);
            crate::fixed_bytes::lemma_pow256_values();
            crate::fixed_bytes::lemma_le_roundtrip(v as nat, 8);
            assert(body.take(8) =~= crate::fixed_bytes::le_bytes(v as nat, 8));
        },
        decode::KindModel::Len(b) => {
            let lb = crate::varint::varint_bytes(b.len());
            crate::varint::law_varint_roundtrip(b.len() as u64, b + rest);
            crate::varint::lemma_varint_len(b.len());
            assert(body =~= lb + (b + rest));
            assert(body.subrange(lb.len() as int, (lb.len() + b.len()) as int) =~= b);
        },
    }
}

/// A field written with `MessageEncoder` (its tag, then its value) is read
/// back by `MessageDecoder::next` with the same number and value, whatever
/// bytes follow it; field numbers need to fit in 61 bits (the bits of a tag
/// that are left after the wire type) and length delimited values need a
/// length that fits in a `u64`.
pub proof fn law_field_roundtrip(number: u64, k: decode::KindModel, rest: Seq<u8>)
    requires
        number < 0x2000_0000_0000_0000,
        k matches decode::KindModel::Len(b) ==> b.len() <= u64::MAX,
    ensures
        decode::spec_read_field(
            encode::tag_bytes(number, decode::spec_kind_wire_type(k)) + kind_bytes(k) + rest,
        ) == (Ok::<Option<(u64, decode::KindModel)>, DecodeError>(Some((number, k))), (
        encode::tag_bytes(number, decode::spec_kind_wire_type(k)) + kind_bytes(k)).len()),
{
    let w = decode::spec_kind_wire_type(k);
    let tag = encode::tag_bytes(number, w);
    let s = tag + kind_bytes(k) + rest;
    let tv = encode::tag_value(number, w);
    encode::lemma_tag_size(number, w);
    crate::varint::law_varint_roundtrip(tv as u64, kind_bytes(k) + rest);
    assert(s =~= tag + (kind_bytes(k) + rest));
    assert(tv as u64 / 8 == number);
    lemma_wire_type_roundtrip(w, number);
    assert(s.skip(tag.len() as int) =~= kind_bytes(k) + rest);
    law_kind_roundtrip(k, rest);
}

/// The bytes of fields written one after the other, each its tag and then
/// its value.
pub open spec fn fields_bytes(fs: Seq<(u64, decode::KindModel)>) -> Seq<u8>
    decreases fs.len(),
{
    if fs.len() == 0 {
        Seq::empty()
    } else {
        encode::tag_bytes(fs[0].0, decode::spec_kind_wire_type(fs[0].1)) + kind_bytes(fs[0].1)
            + fields_bytes(fs.drop_first())
    }
}

/// The fields that `MessageDecoder::next` reads from `s` one after the
/// other, until the bytes end or reading fails.
pub open spec fn spec_read_fields(s: Seq<u8>) -> (Seq<(u64, decode::KindModel)>, Result<(), DecodeError>)
    decreases s.len(),
{
    let (res, n) = decode::spec_read_field(s);
    match res {
        Err(e) => (Seq::empty(), Err(e)),
        Ok(None) => (Seq::empty(), Ok(())),
        Ok(Some(f)) => if 0 < n <= s.len() {
            let (rest, r) = spec_read_fields(s.skip(n as int));
            (seq![f] + rest, r)
        } else {
            (Seq::empty(), Ok(()))
        },
    }
}

/// A message written field by field is read back as the same fields, in
/// the same order: what a struct's fields are read from is what they were
/// written as. Field numbers need to fit in 61 bits and length delimited
/// values need a length that fits in a `u64`.
pub proof fn law_fields_roundtrip(fs: Seq<(u64, decode::KindModel)>)
    requires
        forall|i: int|
            0 <= i < fs.len() ==> {
                &&& (#[trigger] fs[i]).0 < 0x2000_0000_0000_0000
                &&& fs[i].1 matches decode::KindModel::Len(b) ==> b.len() <= u64::MAX
            },
    ensures
        spec_read_fields(fields_bytes(fs)) == (fs, Ok::<(), DecodeError>(())),
    decreases fs.len(),
{
    let bytes = fields_bytes(fs);
    if fs.len() == 0 {
        assert(bytes =~= Seq::<u8>::empty());
        assert(fs =~= Seq::<(u64, decode::KindModel)>::empty());
    } else {
        let (num, k) = fs[0];
        let first = encode::tag_bytes(num, decode::spec_kind_wire_type(k)) + kind_bytes(k);
        let rest = fields_bytes(fs.drop_first());
        assert(fs[0].0 < 0x2000_0000_0000_0000);
        law_field_roundtrip(num, k, rest);
        law_kind_roundtrip(k, rest);
        assert(bytes == first + rest);
        assert(bytes.skip(first.len() as int) =~= rest);
        assert forall|i: int| 0 <= i < fs.drop_first().len() implies {
            &&& (#[trigger] fs.drop_first()[i]).0 < 0x2000_0000_0000_0000
            &&& fs.drop_first()[i].1 matches decode::KindModel::Len(b) ==> b.len() <= u64::MAX
        } by {
            assert(fs.drop_first()[i] == fs[i + 1]);
        }
        law_fields_roundtrip(fs.drop_first());
        assert(seq![(num, k)] + fs.drop_first() =~= fs);
    }
}

/// Reads a message from `slice`.
pub fn from_slice<'a, T>(slice: &'a [u8]) -> (r: Result<T, DecodeError>) where T: DecodeMessage<'a>
    ensures
        match T::spec_merge(T::spec_decode_default(), KindModel::Len(slice@), false) {
            (v, Ok(())) => r matches Ok(x) && x.deep_view() == v,
            (_, Err(e)) => r == Err::<T, DecodeError>(e),
        },
{
    T::parse_from_bytes(slice)
}

/// Writes a message to a new byte vector.
pub fn to_vec<T>(msg: &T) -> (r: Result<Vec<u8>, EncodeError>) where T: EncodeMessage
    requires
        msg.spec_encoding(None).len() <= u64::MAX,
    ensures
        r is Ok <==> msg.spec_encodable(),
        r matches Ok(v) ==> v@ == msg.spec_encoding(None),
{
    msg.write_to_bytes()
}

/// Writes a message after the bytes that `w` holds.
pub fn to_bytes_writer<T>(msg: &T, w: &mut Vec<u8>) -> (r: Result<(), EncodeError>) where
    T: EncodeMessage,

    requires
        msg.spec_encoding(None).len() <= u64::MAX,
    ensures
        r is Ok <==> msg.spec_encodable(),
        r is Ok ==> final(w)@ == old(w)@ + msg.spec_encoding(None),
{
    let mut buf: Vec<u8> = Vec::new();
    std::mem::swap(&mut buf, w);
    let mut encoder = MessageEncoder::new(buf);
    let r = msg.encode(None, &mut encoder);
    let mut out = encoder.finish();
    std::mem::swap(&mut out, w);
    r
}

} // verus!
