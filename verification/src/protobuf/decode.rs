//! Reading fields of a protobuf message.
use super::{WireType, spec_wire_type_from_tag};
use crate::varint::{read_varint, spec_read_varint, lemma_parse_varint_bounds};
use crate::fixed_bytes::{read_le, le_value, lemma_le_value_bound, lemma_pow256_values};

use vstd::prelude::*;
use vstd::slice::slice_subrange;
use vstd::utf8::{valid_utf8, decode_utf8};
use vstd::string::StringSliceAdditionalSpecFns;

verus! {

#[derive(Debug, Clone, PartialEq, Eq)]
#[non_exhaustive]
pub enum DecodeError {
    UnexpectedEof,
    ExpectedEof,
    InvalidVarint,
    InvalidWireType(u8),
    WireTypeMismatch,
    ExpectedVarintWireType,
    ExpectedI32WireType,
    ExpectedI64WireType,
    ExpectedLenWireType,
    ExpectedUtf8,
    ExpectedArrayLen(usize),
    Other(String),
}

/// The value of a field as a mathematical object.
pub enum KindModel {
    Varint(u64),
    I32(u32),
    I64(u64),
    Len(Seq<u8>),
}

#[derive(Debug, Clone, Copy, PartialEq, Eq, Hash)]
pub enum FieldKind<'a> {
    // backwards compatible:
    // - int32, uint32, int64, uint64, bool
    // - sint32, sint64
    Varint(u64),
    // backwards compatible:
    // - fixed32, sfixed32
    I32(u32),
    // backwards compatible:
    // - fixed64, sfixed64
    I64(u64),
    Len(&'a [u8]),
}

impl<'a> View for FieldKind<'a> {
    type V = KindModel;

    open spec fn view(&self) -> KindModel {
        match *self {
            FieldKind::Varint(n) => KindModel::Varint(n),
            FieldKind::I32(n) => KindModel::I32(n),
            FieldKind::I64(n) => KindModel::I64(n),
            FieldKind::Len(b) => KindModel::Len(b@),
        }
    }
}

#[derive(Debug, Clone, Copy, PartialEq, Eq, Hash)]
pub struct Field<'a> {
    pub number: u64,
    pub kind: FieldKind<'a>,
}

pub open spec fn spec_kind_wire_type(k: KindModel) -> WireType {
    match k {
        KindModel::Varint(_) => WireType::Varint,
        KindModel::I32(_) => WireType::I32,
        KindModel::I64(_) => WireType::I64,
        KindModel::Len(_) => WireType::Len,
    }
}

/// Reads a value of wire type `ty` from the front of `s`: what is read and
/// how many bytes were consumed (also when reading fails).
pub open spec fn spec_read_kind(s: Seq<u8>, ty: WireType) -> (Result<KindModel, DecodeError>, nat) {
    match ty {
        WireType::Varint => match spec_read_varint(s) {
            Some((v, n)) => (Ok(KindModel::Varint(v)), n),
            None => (Err(DecodeError::InvalidVarint), 0),
        },
        WireType::I64 => if s.len() >= 8 {
            (Ok(KindModel::I64(le_value(s.take(8)) as u64)), 8)
        } else {
            (Err(DecodeError::UnexpectedEof), 0)
        },
        WireType::I32 => if s.len() >= 4 {
            (Ok(KindModel::I32(le_value(s.take(4)) as u32)), 4)
        } else {
            (Err(DecodeError::UnexpectedEof), 0)
        },
        WireType::Len => match spec_read_varint(s) {
            Some((l, n)) => if n + l <= s.len() {
                (Ok(KindModel::Len(s.subrange(n as int, n + l))), (n + l) as nat)
            } else {
                (Err(DecodeError::UnexpectedEof), n)
            },
            None => (Err(DecodeError::InvalidVarint), 0),
        },
    }
}

/// Reads the next field (a tag followed by a value) from the front of `s`:
/// `None` when `s` is empty, else the field's number and value, and how
/// many bytes were consumed (also when reading fails).
pub open spec fn spec_read_field(s: Seq<u8>) -> (Result<Option<(u64, KindModel)>, DecodeError>, nat) {
    if s.len() == 0 {
        (Ok(None), 0)
    } else {
        match spec_read_varint(s) {
            None => (Err(DecodeError::InvalidVarint), 0),
            Some((tag, n)) => match spec_wire_type_from_tag(tag) {
                Err(e) => (Err(e), n),
                Ok(w) => {
                    let (k, m) = spec_read_kind(s.skip(n as int), w);
                    match k {
                        Ok(k) => (Ok(Some((tag / 8, k))), n + m),
                        Err(e) => (Err(e), n + m),
                    }
                },
            },
        }
    }
}

/// Reading never consumes more bytes than there are.
pub proof fn lemma_read_consumed(s: Seq<u8>, ty: WireType)
    ensures
        spec_read_varint(s) matches Some((_, n)) ==> 1 <= n <= s.len(),
        spec_read_kind(s, ty).1 <= s.len(),
        spec_read_kind(s, ty).0 is Ok ==> spec_read_kind(s, ty).1 >= 1,
        spec_read_field(s).1 <= s.len(),
        spec_read_field(s).0 matches Ok(Some(_)) ==> spec_read_field(s).1 >= 1,
{
    lemma_parse_varint_bounds(s, 10);
    if let Some((tag, n)) = spec_read_varint(s) {
        lemma_parse_varint_bounds(s.skip(n as int), 10);
        let w = spec_wire_type_from_tag(tag);
        if let Ok(w) = w {
            lemma_read_kind_consumed(s.skip(n as int), w);
        }
    }
    lemma_read_kind_consumed(s, ty);
}

proof fn lemma_read_kind_consumed(s: Seq<u8>, ty: WireType)
    ensures
        spec_read_kind(s, ty).1 <= s.len(),
        spec_read_kind(s, ty).0 is Ok ==> spec_read_kind(s, ty).1 >= 1,
{
    lemma_parse_varint_bounds(s, 10);
}

pub open spec fn kind_result_view<'a>(r: Result<FieldKind<'a>, DecodeError>) -> Result<
    KindModel,
    DecodeError,
> {
    match r {
        Ok(k) => Ok(k@),
        Err(e) => Err(e),
    }
}

pub open spec fn opt_kind_result_view<'a>(r: Result<Option<FieldKind<'a>>, DecodeError>) -> Result<
    Option<KindModel>,
    DecodeError,
> {
    match r {
        Ok(Some(k)) => Ok(Some(k@)),
        Ok(None) => Ok(None),
        Err(e) => Err(e),
    }
}

pub open spec fn field_result_view<'a>(r: Result<Option<Field<'a>>, DecodeError>) -> Result<
    Option<(u64, KindModel)>,
    DecodeError,
> {
    match r {
        Ok(Some(f)) => Ok(Some((f.number, f.kind@))),
        Ok(None) => Ok(None),
        Err(e) => Err(e),
    }
}

/// Reads the fields of a message one after the other.
#[derive(Debug)]
pub struct MessageDecoder<'a> {
    inner: &'a [u8],
    pos: usize,
}

impl<'a> MessageDecoder<'a> {
    #[verifier::type_invariant]
    spec fn inv(self) -> bool {
        self.pos <= self.inner@.len()
    }

    /// The bytes that are still to be read.
    pub closed spec fn remaining(&self) -> Seq<u8> {
        self.inner@.skip(self.pos as int)
    }

    pub fn new(bytes: &'a [u8]) -> (r: Self)
        ensures
            r.remaining() == bytes@,
    {
        let r = MessageDecoder { inner: bytes, pos: 0 };
        assert(r.remaining() =~= bytes@);
        r
    }

    pub fn try_from_kind(kind: FieldKind<'a>) -> (r: Result<Self, DecodeError>)
        ensures
            match kind@ {
                KindModel::Len(b) => r matches Ok(d) && d.remaining() == b,
                _ => r matches Err(e) && e == DecodeError::ExpectedLenWireType,
            },
    {
        match kind.try_unwrap_len() {
            Ok(b) => Ok(Self::new(b)),
            Err(e) => Err(e),
        }
    }

    /// Reads a varint (a packed value or a length).
    pub fn next_varint(&mut self) -> (r: Result<u64, DecodeError>)
        ensures
            match spec_read_varint(old(self).remaining()) {
                Some((v, n)) => r == Ok::<u64, DecodeError>(v) && final(self).remaining()
                    == old(self).remaining().skip(n as int),
                None => r == Err::<u64, DecodeError>(DecodeError::InvalidVarint) && final(self).remaining() == old(self).remaining(),
            },
    {
        proof {
            use_type_invariant(&*self);
        }
        let _len = self.inner.len();
        match read_varint(self.inner, self.pos) {
            Some((v, n)) => {
                let ghost before = self.inner@.skip(self.pos as int);
                self.pos = self.pos + n;
                assert(self.inner@.skip(self.pos as int) =~= before.skip(n as int));
                Ok(v)
            },
            None => Err(DecodeError::InvalidVarint),
        }
    }

    fn next_kind(&mut self, ty: WireType) -> (r: Result<FieldKind<'a>, DecodeError>)
        ensures
            kind_result_view(r) == spec_read_kind(old(self).remaining(), ty).0,
            final(self).remaining() == old(self).remaining().skip(
                spec_read_kind(old(self).remaining(), ty).1 as int,
            ),
    {
        proof {
            use_type_invariant(&*self);
        }
        let ghost s = self.remaining();
        assert(s.skip(0) =~= s);
        let _len = self.inner.len();
        match ty {
            WireType::Varint => {
                let v = self.next_varint()?;
                Ok(FieldKind::Varint(v))
            },
            WireType::I64 => {
                if self.inner.len() - self.pos >= 8 {
                    let v = read_le(self.inner, self.pos, 8);
                    assert(s.take(8) =~= self.inner@.subrange(self.pos as int, self.pos + 8));
                    self.pos = self.pos + 8;
                    assert(self.remaining() =~= s.skip(8));
                    Ok(FieldKind::I64(v))
                } else {
                    Err(DecodeError::UnexpectedEof)
                }
            },
            WireType::I32 => {
                if self.inner.len() - self.pos >= 4 {
                    let v = read_le(self.inner, self.pos, 4);
                    assert(s.take(4) =~= self.inner@.subrange(self.pos as int, self.pos + 4));
                    proof {
                        lemma_le_value_bound(s.take(4));
                        lemma_pow256_values();
                    }
                    self.pos = self.pos + 4;
                    assert(self.remaining() =~= s.skip(4));
                    Ok(FieldKind::I32(v as u32))
                } else {
                    Err(DecodeError::UnexpectedEof)
                }
            },
            WireType::Len => {
                proof {
                    lemma_read_consumed(s, ty);
                }
                let (len, n) = match read_varint(self.inner, self.pos) {
                    Some(r) => r,
                    None => return Err(DecodeError::InvalidVarint),
                };
                self.pos = self.pos + n;
                assert(self.remaining() =~= s.skip(n as int));
                let avail = self.inner.len() - self.pos;
                if len <= avail as u64 {
                    let start = self.pos;
                    let end = self.pos + len as usize;
                    let bytes = slice_subrange(self.inner, start, end);
                    self.pos = end;
                    assert(bytes@ =~= s.subrange(n as int, n + len));
                    assert(self.remaining() =~= s.skip(n + len));
                    Ok(FieldKind::Len(bytes))
                } else {
                    Err(DecodeError::UnexpectedEof)
                }
            },
        }
    }

    /// Should only be used for reading packed values: `None` once all
    /// bytes are read.
    pub fn maybe_next_kind(&mut self, ty: WireType) -> (r: Result<Option<FieldKind<'a>>, DecodeError>)
        ensures
            old(self).remaining().len() == 0 ==> r == Ok::<Option<FieldKind<'a>>, DecodeError>(None) && final(self).remaining() == old(self).remaining(),
            old(self).remaining().len() != 0 ==> {
                &&& opt_kind_result_view(r) == match spec_read_kind(old(self).remaining(), ty).0 {
                    Ok(k) => Ok(Some(k)),
                    Err(e) => Err(e),
                }
                &&& final(self).remaining() == old(self).remaining().skip(
                    spec_read_kind(old(self).remaining(), ty).1 as int,
                )
            },
    {
        proof {
            use_type_invariant(&*self);
        }
        if self.pos >= self.inner.len() {
            return Ok(None);
        }
        match self.next_kind(ty) {
            Ok(k) => Ok(Some(k)),
            Err(e) => Err(e),
        }
    }

    /// Reads the next field; `Ok(None)` means there will never be any
    /// more fields.
    pub fn next(&mut self) -> (r: Result<Option<Field<'a>>, DecodeError>)
        ensures
            field_result_view(r) == spec_read_field(old(self).remaining()).0,
            final(self).remaining() == old(self).remaining().skip(
                spec_read_field(old(self).remaining()).1 as int,
            ),
    {
        proof {
            use_type_invariant(&*self);
        }
        let ghost s = self.remaining();
        assert(s.skip(0) =~= s);
        if self.pos >= self.inner.len() {
            return Ok(None);
        }
        let tag = self.next_varint()?;
        let ghost n = spec_read_varint(s).unwrap().1;
        let wtype = match WireType::from_tag(tag) {
            Ok(w) => w,
            Err(e) => return Err(e),
        };
        let number = tag / 8;
        let kind = self.next_kind(wtype);
        proof {
            lemma_read_consumed(s, wtype);
            lemma_read_consumed(s.skip(n as int), wtype);
            assert(s.skip(n as int).skip(spec_read_kind(s.skip(n as int), wtype).1 as int) =~= s.skip(
                n + spec_read_kind(s.skip(n as int), wtype).1 as int,
            ));
        }
        match kind {
            Ok(kind) => Ok(Some(Field { number, kind })),
            Err(e) => Err(e),
        }
    }

    pub fn finish(self) -> (r: Result<(), DecodeError>)
        ensures
            self.remaining().len() == 0 ==> r == Ok::<(), DecodeError>(()),
            self.remaining().len() != 0 ==> r == Err::<(), DecodeError>(DecodeError::ExpectedEof),
    {
        proof {
            use_type_invariant(&self);
        }
        if self.pos >= self.inner.len() {
            Ok(())
        } else {
            Err(DecodeError::ExpectedEof)
        }
    }
}

impl<'a> FieldKind<'a> {
    pub fn is_len(&self) -> (r: bool)
        ensures
            r == (self@ is Len),
    {
        matches!(self, FieldKind::Len(_))
    }

    pub fn wire_type(&self) -> (r: WireType)
        ensures
            r == spec_kind_wire_type(self@),
    {
        match self {
            FieldKind::Varint(_) => WireType::Varint,
            FieldKind::I32(_) => WireType::I32,
            FieldKind::I64(_) => WireType::I64,
            FieldKind::Len(_) => WireType::Len,
        }
    }

    pub fn try_unwrap_varint(&self) -> (r: Result<u64, DecodeError>)
        ensures
            match self@ {
                KindModel::Varint(n) => r == Ok::<u64, DecodeError>(n),
                _ => r == Err::<u64, DecodeError>(DecodeError::ExpectedVarintWireType),
            },
    {
        match self {
            FieldKind::Varint(n) => Ok(*n),
            _ => Err(DecodeError::ExpectedVarintWireType),
        }
    }

    pub fn try_unwrap_i32(&self) -> (r: Result<u32, DecodeError>)
        ensures
            match self@ {
                KindModel::I32(n) => r == Ok::<u32, DecodeError>(n),
                _ => r == Err::<u32, DecodeError>(DecodeError::ExpectedI32WireType),
            },
    {
        match self {
            FieldKind::I32(n) => Ok(*n),
            _ => Err(DecodeError::ExpectedI32WireType),
        }
    }

    pub fn try_unwrap_i64(&self) -> (r: Result<u64, DecodeError>)
        ensures
            match self@ {
                KindModel::I64(n) => r == Ok::<u64, DecodeError>(n),
                _ => r == Err::<u64, DecodeError>(DecodeError::ExpectedI64WireType),
            },
    {
        match self {
            FieldKind::I64(n) => Ok(*n),
            _ => Err(DecodeError::ExpectedI64WireType),
        }
    }

    /// Returns ExpectedLenWireType if the kind is not Len
    pub fn try_unwrap_len(&self) -> (r: Result<&'a [u8], DecodeError>)
        ensures
            match self@ {
                KindModel::Len(b) => r matches Ok(s) && s@ == b,
                _ => r matches Err(e) && e == DecodeError::ExpectedLenWireType,
            },
    {
        match self {
            FieldKind::Len(b) => Ok(*b),
            _ => Err(DecodeError::ExpectedLenWireType),
        }
    }
}

/// A message that can be read from the protobuf wire format, by merging
/// field values into a default value.
pub trait DecodeMessage<'m>: Sized + DeepView {
    /// This is just a hint, merge might accept another type; mostly it is
    /// used for detecting if a repeated field can be packed.
    open spec fn spec_wire_type() -> WireType {
        arbitrary()
    }

    /// The value that merging starts from.
    open spec fn spec_decode_default() -> Self::V {
        arbitrary()
    }

    /// Merging a field value into `v`: the new value and whether it
    /// succeeded; `is_field` is true if this message is a field of a
    /// struct or enum.
    open spec fn spec_merge(v: Self::V, kind: KindModel, is_field: bool) -> (Self::V, Result<(), DecodeError>) {
        arbitrary()
    }

    fn wire_type() -> (r: WireType)
        ensures
            r == Self::spec_wire_type(),
    ;

    fn decode_default() -> (r: Self)
        ensures
            r.deep_view() == Self::spec_decode_default(),
    ;

    /// kind does not need to be the same as the wire type
    fn merge(&mut self, kind: FieldKind<'m>, is_field: bool) -> (r: Result<(), DecodeError>)
        ensures
            (final(self).deep_view(), r) == Self::spec_merge(old(self).deep_view(), kind@, is_field),
    ;

    /// Reads a whole message: the default value with `b` merged into it.
    fn parse_from_bytes(b: &'m [u8]) -> (r: Result<Self, DecodeError>)
        ensures
            match Self::spec_merge(Self::spec_decode_default(), KindModel::Len(b@), false) {
                (v, Ok(())) => r matches Ok(x) && x.deep_view() == v,
                (_, Err(e)) => r == Err::<Self, DecodeError>(e),
            },
    {
        let mut this = Self::decode_default();
        match this.merge(FieldKind::Len(b), false) {
            Ok(()) => Ok(this),
            Err(e) => Err(e),
        }
    }
}

/// Merging a varint into a scalar: `f` turns the number into the value;
/// any other wire type is refused and the value is kept.
pub open spec fn varint_merge<T>(v: T, kind: KindModel, f: spec_fn(u64) -> T) -> (T, Result<(), DecodeError>) {
    match kind {
        KindModel::Varint(n) => (f(n), Ok(())),
        _ => (v, Err(DecodeError::ExpectedVarintWireType)),
    }
}

impl<'m> DecodeMessage<'m> for u64 {
    open spec fn spec_wire_type() -> WireType {
        WireType::Varint
    }

    open spec fn spec_decode_default() -> u64 {
        0
    }

    open spec fn spec_merge(v: u64, kind: KindModel, is_field: bool) -> (u64, Result<(), DecodeError>) {
        varint_merge(v, kind, |n: u64| n)
    }

    fn wire_type() -> (r: WireType) {
        WireType::Varint
    }

    fn decode_default() -> (r: Self) {
        0
    }

    fn merge(&mut self, kind: FieldKind<'m>, _is_field: bool) -> (r: Result<(), DecodeError>) {
        let num = kind.try_unwrap_varint()?;
        *self = num;
        Ok(())
    }
}

impl<'m> DecodeMessage<'m> for u32 {
    open spec fn spec_wire_type() -> WireType {
        WireType::Varint
    }

    open spec fn spec_decode_default() -> u32 {
        0
    }

    /// Only the low 32 bits of the varint are kept.
    open spec fn spec_merge(v: u32, kind: KindModel, is_field: bool) -> (u32, Result<(), DecodeError>) {
        varint_merge(v, kind, |n: u64| n as u32)
    }

    fn wire_type() -> (r: WireType) {
        WireType::Varint
    }

    fn decode_default() -> (r: Self) {
        0
    }

    fn merge(&mut self, kind: FieldKind<'m>, _is_field: bool) -> (r: Result<(), DecodeError>) {
        let num = kind.try_unwrap_varint()?;
        *self = num as u32;
        Ok(())
    }
}

impl<'m> DecodeMessage<'m> for i64 {
    open spec fn spec_wire_type() -> WireType {
        WireType::Varint
    }

    open spec fn spec_decode_default() -> i64 {
        0
    }

    /// The varint is read as a two's complement number.
    open spec fn spec_merge(v: i64, kind: KindModel, is_field: bool) -> (i64, Result<(), DecodeError>) {
        varint_merge(v, kind, |n: u64| n as i64)
    }

    fn wire_type() -> (r: WireType) {
        WireType::Varint
    }

    fn decode_default() -> (r: Self) {
        0
    }

    fn merge(&mut self, kind: FieldKind<'m>, _is_field: bool) -> (r: Result<(), DecodeError>) {
        let num = kind.try_unwrap_varint()?;
        *self = num as i64;
        Ok(())
    }
}

impl<'m> DecodeMessage<'m> for i32 {
    open spec fn spec_wire_type() -> WireType {
        WireType::Varint
    }

    open spec fn spec_decode_default() -> i32 {
        0
    }

    /// The low 32 bits of the varint are read as a two's complement number.
    open spec fn spec_merge(v: i32, kind: KindModel, is_field: bool) -> (i32, Result<(), DecodeError>) {
        varint_merge(v, kind, |n: u64| n as i32)
    }

    fn wire_type() -> (r: WireType) {
        WireType::Varint
    }

    fn decode_default() -> (r: Self) {
        0
    }

    fn merge(&mut self, kind: FieldKind<'m>, _is_field: bool) -> (r: Result<(), DecodeError>) {
        let num = kind.try_unwrap_varint()?;
        *self = num as i32;
        Ok(())
    }
}

impl<'m> DecodeMessage<'m> for bool {
    open spec fn spec_wire_type() -> WireType {
        WireType::Varint
    }

    open spec fn spec_decode_default() -> bool {
        false
    }

    /// Every number but zero is true.
    open spec fn spec_merge(v: bool, kind: KindModel, is_field: bool) -> (bool, Result<(), DecodeError>) {
        varint_merge(v, kind, |n: u64| n != 0)
    }

    fn wire_type() -> (r: WireType) {
        WireType::Varint
    }

    fn decode_default() -> (r: Self) {
        false
    }

    fn merge(&mut self, kind: FieldKind<'m>, _is_field: bool) -> (r: Result<(), DecodeError>) {
        let num = kind.try_unwrap_varint()?;
        *self = num != 0;
        Ok(())
    }
}

/// Merging a length delimited value into a byte string replaces it.
pub open spec fn bytes_merge(v: Seq<u8>, kind: KindModel) -> (Seq<u8>, Result<(), DecodeError>) {
    match kind {
        KindModel::Len(b) => (b, Ok(())),
        _ => (v, Err(DecodeError::ExpectedLenWireType)),
    }
}

impl<'m> DecodeMessage<'m> for Vec<u8> {
    open spec fn spec_wire_type() -> WireType {
        WireType::Len
    }

    open spec fn spec_decode_default() -> Seq<u8> {
        Seq::empty()
    }

    open spec fn spec_merge(v: Seq<u8>, kind: KindModel, is_field: bool) -> (Seq<u8>, Result<(), DecodeError>) {
        bytes_merge(v, kind)
    }

    fn wire_type() -> (r: WireType) {
        WireType::Len
    }

    fn decode_default() -> (r: Self) {
        let r = Vec::new();
        assert(r.deep_view() =~= Seq::<u8>::empty());
        r
    }

    fn merge(&mut self, kind: FieldKind<'m>, _is_field: bool) -> (r: Result<(), DecodeError>) {
        assert(old(self).deep_view() =~= old(self)@);
        let bytes = kind.try_unwrap_len()?;
        *self = vstd::slice::slice_to_vec(bytes);
        assert(self.deep_view() =~= bytes@);
        Ok(())
    }
}

/// Merging a length delimited value into an array of `S` bytes replaces it
/// when it has exactly `S` bytes.
pub open spec fn array_merge(v: Seq<u8>, kind: KindModel, len: usize) -> (Seq<u8>, Result<(), DecodeError>) {
    match kind {
        KindModel::Len(b) => if b.len() == len {
            (b, Ok(()))
        } else {
            (v, Err(DecodeError::ExpectedArrayLen(len)))
        },
        _ => (v, Err(DecodeError::ExpectedLenWireType)),
    }
}

impl<'m, const S: usize> DecodeMessage<'m> for [u8; S] {
    open spec fn spec_wire_type() -> WireType {
        WireType::Len
    }

    open spec fn spec_decode_default() -> Seq<u8> {
        Seq::new(S as nat, |i: int| 0u8)
    }

    open spec fn spec_merge(v: Seq<u8>, kind: KindModel, is_field: bool) -> (Seq<u8>, Result<(), DecodeError>) {
        array_merge(v, kind, S)
    }

    fn wire_type() -> (r: WireType) {
        WireType::Len
    }

    fn decode_default() -> (r: Self) {
        let r = [0u8; S];
        assert(r.deep_view() =~= Seq::new(S as nat, |i: int| 0u8));
        r
    }

    fn merge(&mut self, kind: FieldKind<'m>, _is_field: bool) -> (r: Result<(), DecodeError>) {
        assert(old(self).deep_view() =~= old(self)@);
        let bytes = kind.try_unwrap_len()?;
        if bytes.len() != S {
            return Err(DecodeError::ExpectedArrayLen(S));
        }
        let mut i: usize = 0;
        while i < S
            invariant
                i <= S,
                bytes@.len() == S,
                forall|j: int| 0 <= j < i ==> self@[j] == bytes@[j],
            decreases S - i,
        {
            self[i] = bytes[i];
            i = i + 1;
        }
        assert(self.deep_view() =~= bytes@);
        Ok(())
    }
}

/// Checks that `b` is UTF-8 and gives it as a string slice.
#[verifier::external_body]
fn str_from_utf8(b: &[u8]) -> (r: Option<&str>)
    ensures
        r is Some <==> valid_utf8(b@),
        r matches Some(s) ==> s.spec_bytes() == b@,
{
    match std::str::from_utf8(b) {
        Ok(s) => Some(s),
        Err(_) => None,
    }
}

/// Merging a length delimited value into a string replaces it by the text
/// that its bytes encode in UTF-8; bytes that are not UTF-8 leave the string
/// empty.
pub open spec fn string_merge(v: Seq<char>, kind: KindModel) -> (Seq<char>, Result<(), DecodeError>) {
    match kind {
        KindModel::Len(b) => if valid_utf8(b) {
            (decode_utf8(b), Ok(()))
        } else {
            (Seq::empty(), Err(DecodeError::ExpectedUtf8))
        },
        _ => (v, Err(DecodeError::ExpectedLenWireType)),
    }
}

impl<'m> DecodeMessage<'m> for String {
    open spec fn spec_wire_type() -> WireType {
        WireType::Len
    }

    open spec fn spec_decode_default() -> Seq<char> {
        Seq::empty()
    }

    open spec fn spec_merge(v: Seq<char>, kind: KindModel, is_field: bool) -> (Seq<char>, Result<(), DecodeError>) {
        string_merge(v, kind)
    }

    fn wire_type() -> (r: WireType) {
        WireType::Len
    }

    fn decode_default() -> (r: Self) {
        String::new()
    }

    fn merge(&mut self, kind: FieldKind<'m>, _is_field: bool) -> (r: Result<(), DecodeError>) {
        let bytes = kind.try_unwrap_len()?;
        *self = String::new();
        match str_from_utf8(bytes) {
            Some(s) => {
                proof {
                    vstd::utf8::encode_utf8_decode_utf8(s@);
                }
                *self = s.to_owned();
                Ok(())
            },
            None => Err(DecodeError::ExpectedUtf8),
        }
    }
}

/// Merging a value into an option: into the value it holds, or into a
/// default value that is kept only if merging succeeds.
pub open spec fn option_merge_field<'m, V: DecodeMessage<'m>>(o: Option<V::V>, k: KindModel) -> (
    Option<V::V>,
    Result<(), DecodeError>,
) {
    match o {
        Some(x) => {
            let (x2, r) = V::spec_merge(x, k, false);
            (Some(x2), r)
        },
        None => {
            let (x2, r) = V::spec_merge(V::spec_decode_default(), k, false);
            if r is Ok {
                (Some(x2), r)
            } else {
                (None, r)
            }
        },
    }
}

/// Merging the fields of a message into an option: the fields with number 1
/// are merged one after the other, the others are skipped.
pub open spec fn option_merge_message<'m, V: DecodeMessage<'m>>(o: Option<V::V>, s: Seq<u8>) -> (
    Option<V::V>,
    Result<(), DecodeError>,
)
    decreases s.len(),
{
    let (res, n) = spec_read_field(s);
    match res {
        Err(e) => (o, Err(e)),
        Ok(None) => (o, Ok(())),
        Ok(Some((num, k))) => if 0 < n <= s.len() {
            if num != 1 {
                option_merge_message::<V>(o, s.skip(n as int))
            } else {
                let (o2, r) = option_merge_field::<V>(o, k);
                if r is Ok {
                    option_merge_message::<V>(o2, s.skip(n as int))
                } else {
                    (o2, r)
                }
            }
        } else {
            (o, Ok(()))
        },
    }
}

fn option_merge_field_exec<'m, V: DecodeMessage<'m>>(o: &mut Option<V>, kind: FieldKind<'m>) -> (r: Result<
    (),
    DecodeError,
>)
    ensures
        (final(o).deep_view(), r) == option_merge_field::<V>(old(o).deep_view(), kind@),
{
    match o {
        Some(v) => v.merge(kind, false),
        None => {
            let mut v = V::decode_default();
            v.merge(kind, false)?;
            *o = Some(v);
            Ok(())
        },
    }
}

// an option is represented as a message with one optional field
impl<'m, V: DecodeMessage<'m>> DecodeMessage<'m> for Option<V> {
    open spec fn spec_wire_type() -> WireType {
        WireType::Len
    }

    open spec fn spec_decode_default() -> Option<V::V> {
        None
    }

    open spec fn spec_merge(v: Option<V::V>, kind: KindModel, is_field: bool) -> (
        Option<V::V>,
        Result<(), DecodeError>,
    ) {
        if is_field {
            option_merge_field::<V>(v, kind)
        } else {
            match kind {
                KindModel::Len(b) => option_merge_message::<V>(v, b),
                _ => (v, Err(DecodeError::ExpectedLenWireType)),
            }
        }
    }

    fn wire_type() -> (r: WireType) {
        WireType::Len
    }

    fn decode_default() -> (r: Self) {
        None
    }

    fn merge(&mut self, kind: FieldKind<'m>, is_field: bool) -> (r: Result<(), DecodeError>) {
        // if this is not a field
        // we need to create a struct / message
        // which contains one field which represent V
        if !is_field {
            let mut parser = MessageDecoder::try_from_kind(kind)?;
            loop
                invariant
                    !is_field,
                    Self::spec_merge(old(self).deep_view(), kind@, false) == option_merge_message::<V>(
                        self.deep_view(),
                        parser.remaining(),
                    ),
                ensures
                    Self::spec_merge(old(self).deep_view(), kind@, false) == (self.deep_view(), Ok::<
                        (),
                        DecodeError,
                    >(())),
                    parser.remaining().len() == 0,
                decreases parser.remaining().len(),
            {
                let ghost rem = parser.remaining();
                proof {
                    lemma_read_consumed(rem, WireType::Len);
                }
                match parser.next() {
                    Err(e) => return Err(e),
                    Ok(None) => break,
                    Ok(Some(field)) => {
                        if field.number != 1 {
                            continue ;
                        }
                        // were now in a field of our virtual message/struct
                        option_merge_field_exec(self, field.kind)?;
                    },
                }
            }
            return parser.finish();
        }
        option_merge_field_exec(self, kind)
    }
}

/// Merging one value into a sequence: a default value with the value merged
/// into it is pushed, if merging succeeds.
pub open spec fn vec_merge_one<'m, V: DecodeMessage<'m>>(seq: Seq<V::V>, k: KindModel) -> (
    Seq<V::V>,
    Result<(), DecodeError>,
) {
    let (x, r) = V::spec_merge(V::spec_decode_default(), k, false);
    if r is Ok {
        (seq.push(x), r)
    } else {
        (seq, r)
    }
}

/// Merging packed values (of the entries' wire type, one after the other)
/// into a sequence.
pub open spec fn vec_merge_packed<'m, V: DecodeMessage<'m>>(seq: Seq<V::V>, s: Seq<u8>) -> (
    Seq<V::V>,
    Result<(), DecodeError>,
)
    decreases s.len(),
{
    if s.len() == 0 {
        (seq, Ok(()))
    } else {
        let (res, n) = spec_read_kind(s, V::spec_wire_type());
        match res {
            Err(e) => (seq, Err(e)),
            Ok(k) => if 0 < n <= s.len() {
                let (seq2, r) = vec_merge_one::<V>(seq, k);
                if r is Ok {
                    vec_merge_packed::<V>(seq2, s.skip(n as int))
                } else {
                    (seq2, r)
                }
            } else {
                (seq, Ok(()))
            },
        }
    }
}

/// Merging a field of a repeated field into a sequence: length delimited
/// bytes hold packed values when the entries can be packed, anything else
/// is one entry.
pub open spec fn vec_merge_field<'m, V: DecodeMessage<'m>>(seq: Seq<V::V>, k: KindModel) -> (
    Seq<V::V>,
    Result<(), DecodeError>,
) {
    match k {
        KindModel::Len(b) => if V::spec_wire_type().spec_can_be_packed() {
            vec_merge_packed::<V>(seq, b)
        } else {
            vec_merge_one::<V>(seq, k)
        },
        _ => vec_merge_one::<V>(seq, k),
    }
}

/// Merging the fields of a message into a sequence: the fields with number
/// 1 are merged one after the other, the others are skipped.
pub open spec fn vec_merge_message<'m, V: DecodeMessage<'m>>(seq: Seq<V::V>, s: Seq<u8>) -> (
    Seq<V::V>,
    Result<(), DecodeError>,
)
    decreases s.len(),
{
    let (res, n) = spec_read_field(s);
    match res {
        Err(e) => (seq, Err(e)),
        Ok(None) => (seq, Ok(())),
        Ok(Some((num, k))) => if 0 < n <= s.len() {
            if num != 1 {
                vec_merge_message::<V>(seq, s.skip(n as int))
            } else {
                let (seq2, r) = vec_merge_field::<V>(seq, k);
                if r is Ok {
                    vec_merge_message::<V>(seq2, s.skip(n as int))
                } else {
                    (seq2, r)
                }
            }
        } else {
            (seq, Ok(()))
        },
    }
}

fn vec_merge_one_exec<'m, V: DecodeMessage<'m>>(seq: &mut Vec<V>, kind: FieldKind<'m>) -> (r: Result<
    (),
    DecodeError,
>)
    ensures
        (final(seq).deep_view(), r) == vec_merge_one::<V>(old(seq).deep_view(), kind@),
{
    let mut v = V::decode_default();
    v.merge(kind, false)?;
    let ghost before = seq.deep_view();
    seq.push(v);
    assert(seq.deep_view() =~= before.push(v.deep_view()));
    Ok(())
}

fn vec_merge_field_exec<'m, V: DecodeMessage<'m>>(seq: &mut Vec<V>, kind: FieldKind<'m>) -> (r: Result<
    (),
    DecodeError,
>)
    ensures
        (final(seq).deep_view(), r) == vec_merge_field::<V>(old(seq).deep_view(), kind@),
{
    // the data could be packed
    if kind.is_len() && V::wire_type().can_be_packed() {
        let mut parser = MessageDecoder::try_from_kind(kind)?;
        let wtype = V::wire_type();
        loop
            invariant
                wtype == V::spec_wire_type(),
                vec_merge_field::<V>(old(seq).deep_view(), kind@) == vec_merge_packed::<V>(
                    seq.deep_view(),
                    parser.remaining(),
                ),
            ensures
                vec_merge_field::<V>(old(seq).deep_view(), kind@) == (seq.deep_view(), Ok::<
                    (),
                    DecodeError,
                >(())),
                parser.remaining().len() == 0,
            decreases parser.remaining().len(),
        {
            let ghost rem = parser.remaining();
            proof {
                lemma_read_consumed(rem, wtype);
            }
            match parser.maybe_next_kind(wtype) {
                Err(e) => return Err(e),
                Ok(None) => break,
                Ok(Some(k)) => {
                    vec_merge_one_exec(seq, k)?;
                },
            }
        }
        return parser.finish();
    }
    vec_merge_one_exec(seq, kind)
}

// a vec is represented as repeated ty = 1;
impl<'m, V: DecodeMessage<'m>> DecodeMessage<'m> for Vec<V> {
    open spec fn spec_wire_type() -> WireType {
        WireType::Len
    }

    open spec fn spec_decode_default() -> Seq<V::V> {
        Seq::empty()
    }

    open spec fn spec_merge(v: Seq<V::V>, kind: KindModel, is_field: bool) -> (
        Seq<V::V>,
        Result<(), DecodeError>,
    ) {
        if is_field {
            vec_merge_field::<V>(v, kind)
        } else {
            match kind {
                KindModel::Len(b) => vec_merge_message::<V>(v, b),
                _ => (v, Err(DecodeError::ExpectedLenWireType)),
            }
        }
    }

    fn wire_type() -> (r: WireType) {
        WireType::Len
    }

    fn decode_default() -> (r: Self) {
        let r = Vec::new();
        assert(r.deep_view() =~= Seq::<V::V>::empty());
        r
    }

    fn merge(&mut self, kind: FieldKind<'m>, is_field: bool) -> (r: Result<(), DecodeError>) {
        // if this is not a field
        // we need to create a struct / message
        // which contains one field which is repeatable
        if !is_field {
            let mut parser = MessageDecoder::try_from_kind(kind)?;
            loop
                invariant
                    !is_field,
                    Self::spec_merge(old(self).deep_view(), kind@, false) == vec_merge_message::<V>(
                        self.deep_view(),
                        parser.remaining(),
                    ),
                ensures
                    Self::spec_merge(old(self).deep_view(), kind@, false) == (self.deep_view(), Ok::<
                        (),
                        DecodeError,
                    >(())),
                    parser.remaining().len() == 0,
                decreases parser.remaining().len(),
            {
                let ghost rem = parser.remaining();
                proof {
                    lemma_read_consumed(rem, WireType::Len);
                }
                match parser.next() {
                    Err(e) => return Err(e),
                    Ok(None) => break,
                    Ok(Some(field)) => {
                        if field.number != 1 {
                            continue ;
                        }
                        // were now in a field of our virtual message/struct
                        vec_merge_field_exec(self, field.kind)?;
                    },
                }
            }
            return parser.finish();
        }
        vec_merge_field_exec(self, kind)
    }
}

/// A signed number in zigzag encoding (sint32, sint64): 0, -1, 1, -2, ...
/// are written as 0, 1, 2, 3, ...
#[derive(Debug, Default, Clone, Copy, PartialEq, Eq)]
pub struct ZigZag<T>(pub T);

impl DeepView for ZigZag<i32> {
    type V = i32;

    open spec fn deep_view(&self) -> i32 {
        self.0
    }
}

impl DeepView for ZigZag<i64> {
    type V = i64;

    open spec fn deep_view(&self) -> i64 {
        self.0
    }
}

/// Zigzag decoding of the low 32 bits `m` of a varint: an even `m` stands
/// for half of it, an odd `m` for minus that half, minus one; so 0, 1, 2, 3,
/// ... are read as 0, -1, 1, -2, .... The half is taken of `m` read as a
/// two's complement number, rounded down, so an `m` with its top bit set is
/// read with the opposite sign of the number that zigzag encoding would give
/// it.
pub open spec fn zigzag_i32(n: u64) -> i32 {
    let m = n as u32;
    let half: int = if m < 0x8000_0000 {
        (m / 2) as int
    } else {
        m / 2 - 0x8000_0000
    };
    if m % 2 == 0 {
        half as i32
    } else {
        (-half - 1) as i32
    }
}

/// Zigzag decoding of a varint `n`, as `zigzag_i32` does on all 64 bits.
pub open spec fn zigzag_i64(n: u64) -> i64 {
    let half: int = if n < 0x8000_0000_0000_0000 {
        (n / 2) as int
    } else {
        n / 2 - 0x8000_0000_0000_0000
    };
    if n % 2 == 0 {
        half as i64
    } else {
        (-half - 1) as i64
    }
}

impl<'m> DecodeMessage<'m> for ZigZag<i32> {
    open spec fn spec_wire_type() -> WireType {
        WireType::Varint
    }

    open spec fn spec_decode_default() -> i32 {
        0
    }

    /// The low 32 bits of the varint hold the number in zigzag encoding.
    open spec fn spec_merge(v: i32, kind: KindModel, is_field: bool) -> (i32, Result<(), DecodeError>) {
        varint_merge(v, kind, |n: u64| zigzag_i32(n))
    }

    fn wire_type() -> (r: WireType) {
        WireType::Varint
    }

    fn decode_default() -> (r: Self) {
        ZigZag(0)
    }

    fn merge(&mut self, kind: FieldKind<'m>, _is_field: bool) -> (r: Result<(), DecodeError>) {
        let n = kind.try_unwrap_varint()?;
        let x = n as i32;
        let low = x & 1i32;
        assert(low == 0i32 || low == 1i32) by (bit_vector)
            requires
                low == x & 1i32,
        ;
        let num = (x >> 1u32) ^ (0i32 - low);
        assert(num == zigzag_i32(n)) by (bit_vector)
            requires
                x == n as i32,
                low == x & 1i32,
                num == (x >> 1u32) ^ ((0i32 - low) as i32),
        ;
        *self = ZigZag(num);
        Ok(())
    }
}

impl<'m> DecodeMessage<'m> for ZigZag<i64> {
    open spec fn spec_wire_type() -> WireType {
        WireType::Varint
    }

    open spec fn spec_decode_default() -> i64 {
        0
    }

    /// The varint holds the number in zigzag encoding.
    open spec fn spec_merge(v: i64, kind: KindModel, is_field: bool) -> (i64, Result<(), DecodeError>) {
        varint_merge(v, kind, |n: u64| zigzag_i64(n))
    }

    fn wire_type() -> (r: WireType) {
        WireType::Varint
    }

    fn decode_default() -> (r: Self) {
        ZigZag(0)
    }

    fn merge(&mut self, kind: FieldKind<'m>, _is_field: bool) -> (r: Result<(), DecodeError>) {
        let n = kind.try_unwrap_varint()?;
        let x = n as i64;
        let low = x & 1i64;
        assert(low == 0i64 || low == 1i64) by (bit_vector)
            requires
                low == x & 1i64,
        ;
        let num = (x >> 1u64) ^ (0i64 - low);
        assert(num == zigzag_i64(n)) by (bit_vector)
            requires
                x == n as i64,
                low == x & 1i64,
                num == (x >> 1u64) ^ ((0i64 - low) as i64),
        ;
        *self = ZigZag(num);
        Ok(())
    }
}

/// A number written with a fixed width (fixed32, sfixed32, fixed64,
/// sfixed64) instead of as a varint.
#[derive(Debug, Default, Clone, Copy, PartialEq, Eq)]
pub struct Fixed<T>(pub T);

impl<'m> DecodeMessage<'m> for Fixed<u32> {
    open spec fn spec_wire_type() -> WireType {
        WireType::I32
    }

    open spec fn spec_decode_default() -> u32 {
        0
    }

    open spec fn spec_merge(v: u32, kind: KindModel, is_field: bool) -> (u32, Result<(), DecodeError>) {
        match kind {
            KindModel::I32(n) => (n as u32, Ok(())),
            _ => (v, Err(DecodeError::ExpectedI32WireType)),
        }
    }

    fn wire_type() -> (r: WireType) {
        WireType::I32
    }

    fn decode_default() -> (r: Self) {
        Fixed(0)
    }

    fn merge(&mut self, kind: FieldKind<'m>, _is_field: bool) -> (r: Result<(), DecodeError>) {
        let num = kind.try_unwrap_i32()?;
        *self = Fixed(num);
        Ok(())
    }
}

impl DeepView for Fixed<u32> {
    type V = u32;

    open spec fn deep_view(&self) -> u32 {
        self.0
    }
}

impl<'m> DecodeMessage<'m> for Fixed<i32> {
    open spec fn spec_wire_type() -> WireType {
        WireType::I32
    }

    open spec fn spec_decode_default() -> i32 {
        0
    }

    open spec fn spec_merge(v: i32, kind: KindModel, is_field: bool) -> (i32, Result<(), DecodeError>) {
        match kind {
            KindModel::I32(n) => (n as i32, Ok(())),
            _ => (v, Err(DecodeError::ExpectedI32WireType)),
        }
    }

    fn wire_type() -> (r: WireType) {
        WireType::I32
    }

    fn decode_default() -> (r: Self) {
        Fixed(0)
    }

    fn merge(&mut self, kind: FieldKind<'m>, _is_field: bool) -> (r: Result<(), DecodeError>) {
        let num = kind.try_unwrap_i32()?;
        *self = Fixed(num as i32);
        Ok(())
    }
}

impl DeepView for Fixed<i32> {
    type V = i32;

    open spec fn deep_view(&self) -> i32 {
        self.0
    }
}

impl<'m> DecodeMessage<'m> for Fixed<u64> {
    open spec fn spec_wire_type() -> WireType {
        WireType::I64
    }

    open spec fn spec_decode_default() -> u64 {
        0
    }

    open spec fn spec_merge(v: u64, kind: KindModel, is_field: bool) -> (u64, Result<(), DecodeError>) {
        match kind {
            KindModel::I64(n) => (n as u64, Ok(())),
            _ => (v, Err(DecodeError::ExpectedI64WireType)),
        }
    }

    fn wire_type() -> (r: WireType) {
        WireType::I64
    }

    fn decode_default() -> (r: Self) {
        Fixed(0)
    }

    fn merge(&mut self, kind: FieldKind<'m>, _is_field: bool) -> (r: Result<(), DecodeError>) {
        let num = kind.try_unwrap_i64()?;
        *self = Fixed(num);
        Ok(())
    }
}

impl DeepView for Fixed<u64> {
    type V = u64;

    open spec fn deep_view(&self) -> u64 {
        self.0
    }
}

impl<'m> DecodeMessage<'m> for Fixed<i64> {
    open spec fn spec_wire_type() -> WireType {
        WireType::I64
    }

    open spec fn spec_decode_default() -> i64 {
        0
    }

    open spec fn spec_merge(v: i64, kind: KindModel, is_field: bool) -> (i64, Result<(), DecodeError>) {
        match kind {
            KindModel::I64(n) => (n as i64, Ok(())),
            _ => (v, Err(DecodeError::ExpectedI64WireType)),
        }
    }

    fn wire_type() -> (r: WireType) {
        WireType::I64
    }

    fn decode_default() -> (r: Self) {
        Fixed(0)
    }

    fn merge(&mut self, kind: FieldKind<'m>, _is_field: bool) -> (r: Result<(), DecodeError>) {
        let num = kind.try_unwrap_i64()?;
        *self = Fixed(num as i64);
        Ok(())
    }
}

impl DeepView for Fixed<i64> {
    type V = i64;

    open spec fn deep_view(&self) -> i64 {
        self.0
    }
}

/// A message that can be decoded from bytes of any lifetime.
pub trait DecodeMessageOwned: for<'m> DecodeMessage<'m> {}

impl<T> DecodeMessageOwned for T where T: for<'m> DecodeMessage<'m> {}

} // verus!
