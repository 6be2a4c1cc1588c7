//! Writing fields of a protobuf message, and computing in advance how many
//! bytes they take.
use super::{WireType, wire_type_num};
use crate::varint::{write_varint, varint_size, varint_bytes, lemma_varint_len};
use crate::fixed_bytes::{write_le, le_bytes, lemma_le_bytes_len};

use vstd::prelude::*;
use vstd::utf8::encode_utf8;
use vstd::string::StringSliceAdditionalSpecFns;

verus! {

#[derive(Debug, Clone, PartialEq, Eq)]
#[non_exhaustive]
pub enum EncodeError {
    BufferExausted,
    Other(String),
}

/// The value of the tag that starts a field: the field number shifted
/// left by three bits (bits shifted out of the `u64` are lost), with the
/// wire type in the low three bits.
pub open spec fn tag_value(fieldnum: u64, wtype: WireType) -> nat {
    ((fieldnum % 0x2000_0000_0000_0000) * 8 + wire_type_num(wtype)) as nat
}

/// The bytes of a field tag.
pub open spec fn tag_bytes(fieldnum: u64, wtype: WireType) -> Seq<u8> {
    varint_bytes(tag_value(fieldnum, wtype))
}

/// The number of bytes of a field tag; it does not depend on the wire type.
pub open spec fn tag_size(fieldnum: u64) -> nat {
    tag_bytes(fieldnum, WireType::Varint).len()
}

/// Adding the three bits of a wire type does not change the length of a
/// varint of a multiple of eight.
pub proof fn lemma_tag_size(fieldnum: u64, wtype: WireType)
    ensures
        tag_bytes(fieldnum, wtype).len() == tag_size(fieldnum),
        1 <= tag_size(fieldnum) <= 10,
        tag_value(fieldnum, wtype) < 0x1_0000_0000_0000_0000,
{
    let q = (fieldnum % 0x2000_0000_0000_0000) as nat;
    let v = q * 8;
    let w = wire_type_num(wtype) as nat;
    assert(v % 8 == 0 && v < 0x1_0000_0000_0000_0000) by (nonlinear_arith)
        requires
            v == q * 8,
            q < 0x2000_0000_0000_0000,
    ;
    lemma_varint_len_low_bits(v, w);
    lemma_varint_len_low_bits(v, 0);
    crate::varint::lemma_fuel_bound_ten();
    lemma_varint_len(v + w);
}

proof fn lemma_varint_len_low_bits(v: nat, w: nat)
    requires
        v % 8 == 0,
        w < 8,
    ensures
        varint_bytes(v + w).len() == varint_bytes(v).len(),
{
    if v >= 128 {
        assert((v + w) / 128 == v / 128) by (nonlinear_arith)
            requires
                v % 8 == 0,
                w < 8,
        ;
        assert(varint_bytes(v + w) == seq![((v + w) % 128 + 128) as u8] + varint_bytes(
            (v + w) / 128,
        ));
        assert(varint_bytes(v) == seq![(v % 128 + 128) as u8] + varint_bytes(v / 128));
    } else {
        assert(v + w < 128) by (nonlinear_arith)
            requires
                v % 8 == 0,
                w < 8,
                v < 128,
        ;
    }
}

proof fn lemma_shift_tag(fieldnum: u64, w: u64)
    requires
        w < 8,
    ensures
        (fieldnum << 3u64) | w == (fieldnum % 0x2000_0000_0000_0000) * 8 + w,
        fieldnum << 3u64 == (fieldnum % 0x2000_0000_0000_0000) * 8,
{
    assert((fieldnum << 3u64) | w == (fieldnum % 0x2000_0000_0000_0000) * 8 + w) by (bit_vector)
        requires
            w < 8,
    ;
    assert(fieldnum << 3u64 == (fieldnum % 0x2000_0000_0000_0000) * 8) by (bit_vector);
}

/// Writes the fields of a message to a growing byte buffer.
#[derive(Debug)]
pub struct MessageEncoder {
    inner: Vec<u8>,
}

impl View for MessageEncoder {
    type V = Seq<u8>;

    closed spec fn view(&self) -> Seq<u8> {
        self.inner@
    }
}

impl MessageEncoder {
    /// Writes after the bytes that `inner` already holds.
    pub fn new(inner: Vec<u8>) -> (r: Self)
        ensures
            r@ == inner@,
    {
        Self { inner }
    }

    pub fn inner(&self) -> (r: &Vec<u8>)
        ensures
            r@ == self@,
    {
        &self.inner
    }

    pub fn finish(self) -> (r: Vec<u8>)
        ensures
            r@ == self@,
    {
        self.inner
    }

    pub fn new_owned() -> (r: Self)
        ensures
            r@ == Seq::<u8>::empty(),
    {
        Self { inner: Vec::new() }
    }

    pub fn write_tag(&mut self, fieldnum: u64, wtype: WireType) -> (r: Result<(), EncodeError>)
        ensures
            r is Ok,
            final(self)@ == old(self)@ + tag_bytes(fieldnum, wtype),
            final(self)@ == old(self)@ + encoder_appends(WriteCall::Tag(fieldnum, wtype)),
    {
        let w = wtype.as_num() as u64;
        let tag = (fieldnum << 3u64) | w;
        proof {
            lemma_shift_tag(fieldnum, w);
        }
        write_varint(&mut self.inner, tag);
        Ok(())
    }

    pub fn write_len(&mut self, len: u64) -> (r: Result<(), EncodeError>)
        ensures
            r is Ok,
            final(self)@ == old(self)@ + varint_bytes(len as nat),
            final(self)@ == old(self)@ + encoder_appends(WriteCall::Len(len)),
    {
        write_varint(&mut self.inner, len);
        Ok(())
    }

    pub fn write_bytes(&mut self, bytes: &[u8]) -> (r: Result<(), EncodeError>)
        ensures
            r is Ok,
            final(self)@ == old(self)@ + bytes@,
            final(self)@ == old(self)@ + encoder_appends(WriteCall::Bytes(bytes@)),
    {
        let ghost before = self.inner@;
        let mut i: usize = 0;
        while i < bytes.len()
            invariant
                i <= bytes@.len(),
                self.inner@ == before + bytes@.take(i as int),
            decreases bytes@.len() - i,
        {
            self.inner.push(bytes[i]);
            assert(bytes@.take(i + 1) =~= bytes@.take(i as int).push(bytes@[i as int]));
            i = i + 1;
        }
        assert(bytes@.take(i as int) =~= bytes@);
        Ok(())
    }

    pub fn written_len(&self) -> (r: u64)
        ensures
            r == self@.len(),
    {
        self.inner.len() as u64
    }

    pub fn write_varint(&mut self, val: u64) -> (r: Result<(), EncodeError>)
        ensures
            r is Ok,
            final(self)@ == old(self)@ + varint_bytes(val as nat),
            final(self)@ == old(self)@ + encoder_appends(WriteCall::Varint(val)),
    {
        write_varint(&mut self.inner, val);
        Ok(())
    }

    pub fn write_i32(&mut self, val: u32) -> (r: Result<(), EncodeError>)
        ensures
            r is Ok,
            final(self)@ == old(self)@ + le_bytes(val as nat, 4),
            final(self)@ == old(self)@ + encoder_appends(WriteCall::I32(val)),
    {
        write_le(&mut self.inner, val as u64, 4);
        Ok(())
    }

    pub fn write_i64(&mut self, val: u64) -> (r: Result<(), EncodeError>)
        ensures
            r is Ok,
            final(self)@ == old(self)@ + le_bytes(val as nat, 8),
            final(self)@ == old(self)@ + encoder_appends(WriteCall::I64(val)),
    {
        write_le(&mut self.inner, val, 8);
        Ok(())
    }

    /// A length delimited field with no bytes.
    pub fn write_empty_field(&mut self, fieldnum: u64) -> (r: Result<(), EncodeError>)
        ensures
            r is Ok,
            final(self)@ == old(self)@ + tag_bytes(fieldnum, WireType::Len) + varint_bytes(0),
            final(self)@ == old(self)@ + encoder_appends(WriteCall::EmptyField(fieldnum)),
    {
        let ghost before = self@;
        self.write_tag(fieldnum, WireType::Len)?;
        let r = self.write_len(0);
        assert(self@ =~= before + tag_bytes(fieldnum, WireType::Len) + varint_bytes(0));
        r
    }
}

/// Counts the bytes that the same calls on a `MessageEncoder` would write.
#[derive(Debug)]
pub struct SizeBuilder {
    inner: u64,
}

impl View for SizeBuilder {
    type V = nat;

    closed spec fn view(&self) -> nat {
        self.inner as nat
    }
}

impl SizeBuilder {
    pub fn new() -> (r: Self)
        ensures
            r@ == 0,
    {
        Self { inner: 0 }
    }

    pub fn write_tag(&mut self, fieldnum: u64, _wtype: WireType)
        requires
            old(self)@ + tag_size(fieldnum) <= u64::MAX,
        ensures
            final(self)@ == old(self)@ + tag_bytes(fieldnum, _wtype).len(),
            final(self)@ == old(self)@ + builder_adds(WriteCall::Tag(fieldnum, _wtype)),
    {
        proof {
            lemma_tag_size(fieldnum, _wtype);
            lemma_shift_tag(fieldnum, 0);
            lemma_tag_size(fieldnum, WireType::Varint);
        }
        self.inner = self.inner + varint_size(fieldnum << 3u64);
    }

    pub fn write_len(&mut self, len: u64)
        requires
            old(self)@ + varint_bytes(len as nat).len() <= u64::MAX,
        ensures
            final(self)@ == old(self)@ + varint_bytes(len as nat).len(),
            final(self)@ == old(self)@ + builder_adds(WriteCall::Len(len)),
    {
        // need to get the varint len
        self.write_varint(len);
    }

    pub fn write_varint(&mut self, val: u64)
        requires
            old(self)@ + varint_bytes(val as nat).len() <= u64::MAX,
        ensures
            final(self)@ == old(self)@ + varint_bytes(val as nat).len(),
            final(self)@ == old(self)@ + builder_adds(WriteCall::Varint(val)),
    {
        self.inner = self.inner + varint_size(val);
    }

    pub fn write_i32(&mut self, _val: u32)
        requires
            old(self)@ + 4 <= u64::MAX,
        ensures
            final(self)@ == old(self)@ + 4,
            final(self)@ == old(self)@ + builder_adds(WriteCall::I32(_val)),
    {
        self.inner = self.inner + 4;
    }

    pub fn write_i64(&mut self, _val: u64)
        requires
            old(self)@ + 8 <= u64::MAX,
        ensures
            final(self)@ == old(self)@ + 8,
            final(self)@ == old(self)@ + builder_adds(WriteCall::I64(_val)),
    {
        self.inner = self.inner + 8;
    }

    pub fn write_bytes(&mut self, len: u64)
        requires
            old(self)@ + len <= u64::MAX,
        ensures
            final(self)@ == old(self)@ + len,
            forall|b: Seq<u8>| b.len() == len ==> final(self)@ == old(self)@ + #[trigger] builder_adds(WriteCall::Bytes(b)),
    {
        self.inner = self.inner + len;
    }

    pub fn write_empty_field(&mut self, fieldnum: u64)
        requires
            old(self)@ + tag_size(fieldnum) + 1 <= u64::MAX,
        ensures
            final(self)@ == old(self)@ + (tag_bytes(fieldnum, WireType::Len) + varint_bytes(0)).len(),
            final(self)@ == old(self)@ + builder_adds(WriteCall::EmptyField(fieldnum)),
    {
        proof {
            lemma_tag_size(fieldnum, WireType::Len);
            lemma_varint_len(0);
        }
        self.write_tag(fieldnum, WireType::Len);
        self.write_len(0);
    }

    pub fn finish(self) -> (r: u64)
        ensures
            r == self@,
    {
        self.inner
    }
}

/// A call made on a `MessageEncoder`, or the matching call on a
/// `SizeBuilder` (which for `Bytes` is given the number of bytes).
pub enum WriteCall {
    Tag(u64, WireType),
    Len(u64),
    Varint(u64),
    I32(u32),
    I64(u64),
    EmptyField(u64),
    Bytes(Seq<u8>),
}

/// The bytes that `MessageEncoder` appends for the call.
pub open spec fn encoder_appends(c: WriteCall) -> Seq<u8> {
    match c {
        WriteCall::Tag(num, w) => tag_bytes(num, w),
        WriteCall::Len(l) => varint_bytes(l as nat),
        WriteCall::Varint(v) => varint_bytes(v as nat),
        WriteCall::I32(v) => le_bytes(v as nat, 4),
        WriteCall::I64(v) => le_bytes(v as nat, 8),
        WriteCall::EmptyField(num) => tag_bytes(num, WireType::Len) + varint_bytes(0),
        WriteCall::Bytes(b) => b,
    }
}

/// The number that `SizeBuilder` adds for the call.
pub open spec fn builder_adds(c: WriteCall) -> nat {
    match c {
        WriteCall::Tag(num, _) => tag_size(num),
        WriteCall::Len(l) => varint_bytes(l as nat).len(),
        WriteCall::Varint(v) => varint_bytes(v as nat).len(),
        WriteCall::I32(_) => 4,
        WriteCall::I64(_) => 8,
        WriteCall::EmptyField(num) => tag_size(num) + 1,
        WriteCall::Bytes(b) => b.len(),
    }
}

/// The bytes that a `MessageEncoder` appends for the calls, one after the
/// other.
pub open spec fn encoder_appends_all(cs: Seq<WriteCall>) -> Seq<u8>
    decreases cs.len(),
{
    if cs.len() == 0 {
        Seq::empty()
    } else {
        encoder_appends_all(cs.drop_last()) + encoder_appends(cs.last())
    }
}

/// The number that a `SizeBuilder` adds for the calls, one after the other.
pub open spec fn builder_adds_all(cs: Seq<WriteCall>) -> nat
    decreases cs.len(),
{
    if cs.len() == 0 {
        0
    } else {
        builder_adds_all(cs.drop_last()) + builder_adds(cs.last())
    }
}

/// The size builder counts exactly the bytes the encoder writes: for any
/// sequence of calls made on both, a `SizeBuilder` started at zero ends at
/// the number of bytes that a `MessageEncoder` started empty holds (each
/// `write_*` method of either states its effect as `encoder_appends` or
/// `builder_adds` of its call).
pub proof fn law_builder_counts_encoder(cs: Seq<WriteCall>)
    ensures
        builder_adds_all(cs) == encoder_appends_all(cs).len(),
    decreases cs.len(),
{
    if cs.len() > 0 {
        law_builder_counts_encoder(cs.drop_last());
        match cs.last() {
            WriteCall::Tag(num, w) => lemma_tag_size(num, w),
            WriteCall::I32(v) => lemma_le_bytes_len(v as nat, 4),
            WriteCall::I64(v) => lemma_le_bytes_len(v as nat, 8),
            WriteCall::EmptyField(num) => {
                lemma_tag_size(num, WireType::Len);
                lemma_varint_len(0);
            },
            _ => {},
        }
    }
}

#[derive(Debug, Clone, Copy, PartialEq, Eq)]
pub struct FieldOpt {
    pub num: u64,
    pub is_nested: bool,
}

impl FieldOpt {
    pub fn new(num: u64) -> (r: Self)
        ensures
            r == (FieldOpt { num, is_nested: false }),
    {
        Self { num, is_nested: false }
    }
}

} // verus!

verus! {

/// The bytes of a length delimited field: tag, length, then the bytes.
pub open spec fn len_field(num: u64, body: Seq<u8>) -> Seq<u8> {
    tag_bytes(num, WireType::Len) + varint_bytes(body.len()) + body
}

/// The bytes of a scalar written as a varint, with its tag if a field is
/// given.
pub open spec fn varint_field(field: Option<FieldOpt>, v: nat) -> Seq<u8> {
    match field {
        Some(f) => tag_bytes(f.num, WireType::Varint) + varint_bytes(v),
        None => varint_bytes(v),
    }
}

/// The bytes of a byte string, with tag and length if a field is given.
pub open spec fn bytes_field(field: Option<FieldOpt>, b: Seq<u8>) -> Seq<u8> {
    match field {
        Some(f) => len_field(f.num, b),
        None => b,
    }
}

/// The field number used when none is given: `FieldOpt::new(1)`.
pub open spec fn field_or_first(field: Option<FieldOpt>) -> FieldOpt {
    match field {
        Some(f) => f,
        None => FieldOpt { num: 1, is_nested: false },
    }
}

/// The options of an entry of a repeated field: the same number, nested.
pub open spec fn nested(num: u64) -> Option<FieldOpt> {
    Some(FieldOpt { num, is_nested: true })
}

/// A message that can be written in the protobuf wire format.
///
/// ## Ignoring fields
/// if your call tells you a field number you need to write it even if you
/// have the default value
pub trait EncodeMessage {
    /// The wire type of the value (used to check if it can be packed).
    open spec fn spec_wire_type() -> WireType {
        arbitrary()
    }

    /// Whether the value is its default and can be left out of a message.
    open spec fn spec_is_default(&self) -> bool {
        arbitrary()
    }

    /// Whether writing the value succeeds: it does for every value of the
    /// types of this library, a type that implements this trait itself may
    /// refuse some of its values.
    open spec fn spec_encodable(&self) -> bool {
        arbitrary()
    }

    /// The bytes the value is written as; with a field its tag is written
    /// first, and `is_nested` asks a value that would otherwise take several
    /// fields to be written as one length delimited field.
    open spec fn spec_encoding(&self, field: Option<FieldOpt>) -> Seq<u8> {
        arbitrary()
    }

    /// at the moment only used to check if this message can be packed
    fn wire_type() -> (r: WireType)
        ensures
            r == Self::spec_wire_type(),
    ;

    fn is_default(&self) -> (r: bool)
        ensures
            r == self.spec_is_default(),
    ;

    /// how big will the size be after encoding: adds to `builder` the
    /// number of bytes that `encode` writes with the same field.
    fn encoded_size(&self, field: Option<FieldOpt>, builder: &mut SizeBuilder) -> (r: Result<
        (),
        EncodeError,
    >)
        requires
            old(builder)@ + self.spec_encoding(field).len() <= u64::MAX,
        ensures
            r is Ok <==> self.spec_encodable(),
            r is Ok ==> final(builder)@ == old(builder)@ + self.spec_encoding(field).len(),
    ;

    /// Writes the value; the bytes written are those whose number
    /// `encoded_size` counts.
    fn encode(&self, field: Option<FieldOpt>, encoder: &mut MessageEncoder) -> (r: Result<
        (),
        EncodeError,
    >)
        requires
            self.spec_encoding(field).len() <= u64::MAX,
        ensures
            r is Ok <==> self.spec_encodable(),
            r is Ok ==> final(encoder)@ == old(encoder)@ + self.spec_encoding(field),
    ;

    fn write_to_bytes(&self) -> (r: Result<Vec<u8>, EncodeError>)
        requires
            self.spec_encoding(None).len() <= u64::MAX,
        ensures
            r is Ok <==> self.spec_encodable(),
            r matches Ok(v) ==> v@ == self.spec_encoding(None),
    {
        let mut encoder = MessageEncoder::new_owned();
        self.encode(None, &mut encoder)?;
        assert(encoder@ =~= self.spec_encoding(None));
        Ok(encoder.finish())
    }
}

/// Writes the length of a length delimited field whose body is `body_len`
/// bytes long, after its tag.
fn write_len_header(encoder: &mut MessageEncoder, num: u64, body_len: u64) -> (r: Result<
    (),
    EncodeError,
>)
    ensures
        r is Ok,
        final(encoder)@ == old(encoder)@ + tag_bytes(num, WireType::Len) + varint_bytes(
            body_len as nat,
        ),
{
    let ghost before = encoder@;
    encoder.write_tag(num, WireType::Len)?;
    encoder.write_len(body_len)?;
    assert(encoder@ =~= before + tag_bytes(num, WireType::Len) + varint_bytes(body_len as nat));
    Ok(())
}

proof fn lemma_len_field_size(num: u64, body: Seq<u8>)
    ensures
        len_field(num, body).len() == tag_size(num) + varint_bytes(body.len()).len() + body.len(),
        body.len() <= len_field(num, body).len(),
{
    lemma_tag_size(num, WireType::Len);
}

/// Counts a scalar written as a varint, with its tag if a field is given.
fn size_varint_value(v: u64, field: Option<FieldOpt>, builder: &mut SizeBuilder)
    requires
        old(builder)@ + varint_field(field, v as nat).len() <= u64::MAX,
    ensures
        final(builder)@ == old(builder)@ + varint_field(field, v as nat).len(),
{
    proof {
        lemma_varint_len(v as nat);
    }
    if let Some(field) = field {
        proof {
            lemma_tag_size(field.num, WireType::Varint);
        }
        builder.write_tag(field.num, WireType::Varint);
    }
    builder.write_varint(v);
}

/// Writes a scalar as a varint, with its tag if a field is given.
fn encode_varint_value(v: u64, field: Option<FieldOpt>, encoder: &mut MessageEncoder)
    ensures
        final(encoder)@ == old(encoder)@ + varint_field(field, v as nat),
{
    let ghost before = encoder@;
    if let Some(field) = field {
        let _ = encoder.write_tag(field.num, WireType::Varint);
    }
    let _ = encoder.write_varint(v);
    assert(encoder@ =~= before + varint_field(field, v as nat));
}

impl EncodeMessage for u64 {
    open spec fn spec_wire_type() -> WireType {
        WireType::Varint
    }

    open spec fn spec_is_default(&self) -> bool {
        *self == 0
    }

    open spec fn spec_encodable(&self) -> bool {
        true
    }

    open spec fn spec_encoding(&self, field: Option<FieldOpt>) -> Seq<u8> {
        varint_field(field, *self as nat)
    }

    fn wire_type() -> (r: WireType) {
        WireType::Varint
    }

    fn is_default(&self) -> (r: bool) {
        *self == 0
    }

    fn encoded_size(&self, field: Option<FieldOpt>, builder: &mut SizeBuilder) -> (r: Result<
        (),
        EncodeError,
    >)
        ensures
            r is Ok,
    {
        size_varint_value(*self, field, builder);
        Ok(())
    }

    fn encode(&self, field: Option<FieldOpt>, encoder: &mut MessageEncoder) -> (r: Result<
        (),
        EncodeError,
    >)
        ensures
            r is Ok,
    {
        encode_varint_value(*self, field, encoder);
        Ok(())
    }
}

impl EncodeMessage for u32 {
    open spec fn spec_wire_type() -> WireType {
        WireType::Varint
    }

    open spec fn spec_is_default(&self) -> bool {
        *self == 0
    }

    open spec fn spec_encodable(&self) -> bool {
        true
    }

    open spec fn spec_encoding(&self, field: Option<FieldOpt>) -> Seq<u8> {
        varint_field(field, *self as nat)
    }

    fn wire_type() -> (r: WireType) {
        WireType::Varint
    }

    fn is_default(&self) -> (r: bool) {
        *self == 0
    }

    fn encoded_size(&self, field: Option<FieldOpt>, builder: &mut SizeBuilder) -> (r: Result<
        (),
        EncodeError,
    >)
        ensures
            r is Ok,
    {
        size_varint_value(*self as u64, field, builder);
        Ok(())
    }

    fn encode(&self, field: Option<FieldOpt>, encoder: &mut MessageEncoder) -> (r: Result<
        (),
        EncodeError,
    >)
        ensures
            r is Ok,
    {
        encode_varint_value(*self as u64, field, encoder);
        Ok(())
    }
}

/// Negative numbers are written as their two's complement in 64 bits
/// (ten bytes).
impl EncodeMessage for i64 {
    open spec fn spec_wire_type() -> WireType {
        WireType::Varint
    }

    open spec fn spec_is_default(&self) -> bool {
        *self == 0
    }

    open spec fn spec_encodable(&self) -> bool {
        true
    }

    open spec fn spec_encoding(&self, field: Option<FieldOpt>) -> Seq<u8> {
        varint_field(field, (*self as u64) as nat)
    }

    fn wire_type() -> (r: WireType) {
        WireType::Varint
    }

    fn is_default(&self) -> (r: bool) {
        *self == 0
    }

    fn encoded_size(&self, field: Option<FieldOpt>, builder: &mut SizeBuilder) -> (r: Result<
        (),
        EncodeError,
    >)
        ensures
            r is Ok,
    {
        size_varint_value(*self as u64, field, builder);
        Ok(())
    }

    fn encode(&self, field: Option<FieldOpt>, encoder: &mut MessageEncoder) -> (r: Result<
        (),
        EncodeError,
    >)
        ensures
            r is Ok,
    {
        encode_varint_value(*self as u64, field, encoder);
        Ok(())
    }
}

/// Negative numbers are sign extended to 64 bits first (ten bytes).
impl EncodeMessage for i32 {
    open spec fn spec_wire_type() -> WireType {
        WireType::Varint
    }

    open spec fn spec_is_default(&self) -> bool {
        *self == 0
    }

    open spec fn spec_encodable(&self) -> bool {
        true
    }

    open spec fn spec_encoding(&self, field: Option<FieldOpt>) -> Seq<u8> {
        varint_field(field, (*self as u64) as nat)
    }

    fn wire_type() -> (r: WireType) {
        WireType::Varint
    }

    fn is_default(&self) -> (r: bool) {
        *self == 0
    }

    fn encoded_size(&self, field: Option<FieldOpt>, builder: &mut SizeBuilder) -> (r: Result<
        (),
        EncodeError,
    >)
        ensures
            r is Ok,
    {
        size_varint_value(*self as u64, field, builder);
        Ok(())
    }

    fn encode(&self, field: Option<FieldOpt>, encoder: &mut MessageEncoder) -> (r: Result<
        (),
        EncodeError,
    >)
        ensures
            r is Ok,
    {
        encode_varint_value(*self as u64, field, encoder);
        Ok(())
    }
}

impl EncodeMessage for bool {
    open spec fn spec_wire_type() -> WireType {
        WireType::Varint
    }

    open spec fn spec_is_default(&self) -> bool {
        *self == false
    }

    open spec fn spec_encodable(&self) -> bool {
        true
    }

    open spec fn spec_encoding(&self, field: Option<FieldOpt>) -> Seq<u8> {
        varint_field(field, if *self { 1 } else { 0 })
    }

    fn wire_type() -> (r: WireType) {
        WireType::Varint
    }

    fn is_default(&self) -> (r: bool) {
        *self == false
    }

    fn encoded_size(&self, field: Option<FieldOpt>, builder: &mut SizeBuilder) -> (r: Result<
        (),
        EncodeError,
    >)
        ensures
            r is Ok,
    {
        size_varint_value(if *self { 1 } else { 0 }, field, builder);
        Ok(())
    }

    fn encode(&self, field: Option<FieldOpt>, encoder: &mut MessageEncoder) -> (r: Result<
        (),
        EncodeError,
    >)
        ensures
            r is Ok,
    {
        encode_varint_value(if *self { 1 } else { 0 }, field, encoder);
        Ok(())
    }
}

/// Counts a byte string, with tag and length if a field is given.
fn size_bytes_value(b: &[u8], field: Option<FieldOpt>, builder: &mut SizeBuilder)
    requires
        old(builder)@ + bytes_field(field, b@).len() <= u64::MAX,
    ensures
        final(builder)@ == old(builder)@ + bytes_field(field, b@).len(),
{
    let len = b.len() as u64;
    if let Some(field) = field {
        proof {
            lemma_len_field_size(field.num, b@);
        }
        builder.write_tag(field.num, WireType::Len);
        builder.write_len(len);
    }
    builder.write_bytes(len);
}

/// Writes a byte string, with tag and length if a field is given.
fn encode_bytes_value(b: &[u8], field: Option<FieldOpt>, encoder: &mut MessageEncoder)
    ensures
        final(encoder)@ == old(encoder)@ + bytes_field(field, b@),
{
    let ghost before = encoder@;
    if let Some(field) = field {
        let _ = write_len_header(encoder, field.num, b.len() as u64);
    }
    let _ = encoder.write_bytes(b);
    assert(encoder@ =~= before + bytes_field(field, b@));
}

impl EncodeMessage for [u8] {
    open spec fn spec_wire_type() -> WireType {
        WireType::Len
    }

    open spec fn spec_is_default(&self) -> bool {
        self@.len() == 0
    }

    open spec fn spec_encodable(&self) -> bool {
        true
    }

    open spec fn spec_encoding(&self, field: Option<FieldOpt>) -> Seq<u8> {
        bytes_field(field, self@)
    }

    fn wire_type() -> (r: WireType) {
        WireType::Len
    }

    fn is_default(&self) -> (r: bool) {
        self.len() == 0
    }

    fn encoded_size(&self, field: Option<FieldOpt>, builder: &mut SizeBuilder) -> (r: Result<
        (),
        EncodeError,
    >)
        ensures
            r is Ok,
    {
        size_bytes_value(self, field, builder);
        Ok(())
    }

    fn encode(&self, field: Option<FieldOpt>, encoder: &mut MessageEncoder) -> (r: Result<
        (),
        EncodeError,
    >)
        ensures
            r is Ok,
    {
        encode_bytes_value(self, field, encoder);
        Ok(())
    }
}

impl EncodeMessage for Vec<u8> {
    open spec fn spec_wire_type() -> WireType {
        WireType::Len
    }

    open spec fn spec_is_default(&self) -> bool {
        self@.len() == 0
    }

    open spec fn spec_encodable(&self) -> bool {
        true
    }

    open spec fn spec_encoding(&self, field: Option<FieldOpt>) -> Seq<u8> {
        bytes_field(field, self@)
    }

    fn wire_type() -> (r: WireType) {
        WireType::Len
    }

    fn is_default(&self) -> (r: bool) {
        self.len() == 0
    }

    fn encoded_size(&self, field: Option<FieldOpt>, builder: &mut SizeBuilder) -> (r: Result<
        (),
        EncodeError,
    >)
        ensures
            r is Ok,
    {
        size_bytes_value(self.as_slice(), field, builder);
        Ok(())
    }

    fn encode(&self, field: Option<FieldOpt>, encoder: &mut MessageEncoder) -> (r: Result<
        (),
        EncodeError,
    >)
        ensures
            r is Ok,
    {
        encode_bytes_value(self.as_slice(), field, encoder);
        Ok(())
    }
}

/// A string is written as its UTF-8 bytes.
impl EncodeMessage for str {
    open spec fn spec_wire_type() -> WireType {
        WireType::Len
    }

    open spec fn spec_is_default(&self) -> bool {
        self.spec_bytes().len() == 0
    }

    open spec fn spec_encodable(&self) -> bool {
        true
    }

    open spec fn spec_encoding(&self, field: Option<FieldOpt>) -> Seq<u8> {
        bytes_field(field, self.spec_bytes())
    }

    fn wire_type() -> (r: WireType) {
        WireType::Len
    }

    fn is_default(&self) -> (r: bool) {
        self.as_bytes().len() == 0
    }

    fn encoded_size(&self, field: Option<FieldOpt>, builder: &mut SizeBuilder) -> (r: Result<
        (),
        EncodeError,
    >)
        ensures
            r is Ok,
    {
        size_bytes_value(self.as_bytes(), field, builder);
        Ok(())
    }

    fn encode(&self, field: Option<FieldOpt>, encoder: &mut MessageEncoder) -> (r: Result<
        (),
        EncodeError,
    >)
        ensures
            r is Ok,
    {
        encode_bytes_value(self.as_bytes(), field, encoder);
        Ok(())
    }
}

/// A string is written as its UTF-8 bytes.
impl EncodeMessage for String {
    open spec fn spec_wire_type() -> WireType {
        WireType::Len
    }

    open spec fn spec_is_default(&self) -> bool {
        encode_utf8(self@).len() == 0
    }

    open spec fn spec_encodable(&self) -> bool {
        true
    }

    open spec fn spec_encoding(&self, field: Option<FieldOpt>) -> Seq<u8> {
        bytes_field(field, encode_utf8(self@))
    }

    fn wire_type() -> (r: WireType) {
        WireType::Len
    }

    fn is_default(&self) -> (r: bool) {
        self.as_str().as_bytes().len() == 0
    }

    fn encoded_size(&self, field: Option<FieldOpt>, builder: &mut SizeBuilder) -> (r: Result<
        (),
        EncodeError,
    >)
        ensures
            r is Ok,
    {
        size_bytes_value(self.as_str().as_bytes(), field, builder);
        Ok(())
    }

    fn encode(&self, field: Option<FieldOpt>, encoder: &mut MessageEncoder) -> (r: Result<
        (),
        EncodeError,
    >)
        ensures
            r is Ok,
    {
        encode_bytes_value(self.as_str().as_bytes(), field, encoder);
        Ok(())
    }
}

/// The entries of `s` written one after the other, each with `field`.
pub open spec fn concat_encodings<V: EncodeMessage>(s: Seq<V>, field: Option<FieldOpt>) -> Seq<u8>
    decreases s.len(),
{
    if s.len() == 0 {
        Seq::empty()
    } else {
        concat_encodings(s.drop_last(), field) + s.last().spec_encoding(field)
    }
}

/// Every entry of `s` can be written.
pub open spec fn concat_encodable<V: EncodeMessage>(s: Seq<V>) -> bool {
    forall|i: int| 0 <= i < s.len() ==> #[trigger] s[i].spec_encodable()
}

/// A repeated field with number `num`: scalars are packed into one length
/// delimited field when there is more than one of them, otherwise every
/// entry is written as a field of its own.
pub open spec fn repeated_plain<V: EncodeMessage>(s: Seq<V>, num: u64) -> Seq<u8> {
    if V::spec_wire_type().spec_can_be_packed() && s.len() > 1 {
        len_field(num, concat_encodings(s, None))
    } else {
        concat_encodings(s, nested(num))
    }
}

/// How a sequence is written: without a field number as field 1, and when
/// nested wrapped into a length delimited field.
pub open spec fn repeated_encoding<V: EncodeMessage>(s: Seq<V>, field: Option<FieldOpt>) -> Seq<u8> {
    let f = field_or_first(field);
    if f.is_nested {
        len_field(f.num, repeated_plain(s, 1))
    } else {
        repeated_plain(s, f.num)
    }
}

proof fn lemma_concat_take<V: EncodeMessage>(s: Seq<V>, field: Option<FieldOpt>, i: int, j: int)
    requires
        0 <= i <= j <= s.len(),
    ensures
        concat_encodings(s.take(i), field).len() <= concat_encodings(s.take(j), field).len(),
        j > 0 ==> concat_encodings(s.take(j), field) == concat_encodings(s.take(j - 1), field)
            + s[j - 1].spec_encoding(field),
        j > 0 ==> s[j - 1].spec_encoding(field).len() <= concat_encodings(s.take(j), field).len(),
    decreases j,
{
    if j > 0 {
        assert(s.take(j).drop_last() =~= s.take(j - 1));
        if i < j {
            lemma_concat_take(s, field, i, j - 1);
        }
    }
}

fn size_concat<V: EncodeMessage>(s: &[V], field: Option<FieldOpt>, builder: &mut SizeBuilder) -> (r:
    Result<(), EncodeError>)
    requires
        old(builder)@ + concat_encodings(s@, field).len() <= u64::MAX,
    ensures
        r is Ok <==> concat_encodable(s@),
        r is Ok ==> final(builder)@ == old(builder)@ + concat_encodings(s@, field).len(),
{
    let ghost start = builder@;
    let mut i: usize = 0;
    assert(s@.take(0) =~= Seq::<V>::empty());
    while i < s.len()
        invariant
            i <= s@.len(),
            start + concat_encodings(s@, field).len() <= u64::MAX,
            builder@ == start + concat_encodings(s@.take(i as int), field).len(),
            forall|j: int| 0 <= j < i ==> #[trigger] s@[j].spec_encodable(),
        decreases s@.len() - i,
    {
        proof {
            lemma_concat_take(s@, field, i + 1, s@.len() as int);
            lemma_concat_take(s@, field, i as int, i + 1);
        }
        s[i].encoded_size(field, builder)?;
        i = i + 1;
    }
    assert(s@.take(i as int) =~= s@);
    Ok(())
}

fn encode_concat<V: EncodeMessage>(s: &[V], field: Option<FieldOpt>, encoder: &mut MessageEncoder) -> (r:
    Result<(), EncodeError>)
    requires
        concat_encodings(s@, field).len() <= u64::MAX,
    ensures
        r is Ok <==> concat_encodable(s@),
        r is Ok ==> final(encoder)@ == old(encoder)@ + concat_encodings(s@, field),
{
    let ghost start = encoder@;
    let mut i: usize = 0;
    assert(s@.take(0) =~= Seq::<V>::empty());
    assert(encoder@ =~= start + concat_encodings(s@.take(0), field));
    while i < s.len()
        invariant
            i <= s@.len(),
            concat_encodings(s@, field).len() <= u64::MAX,
            encoder@ == start + concat_encodings(s@.take(i as int), field),
            forall|j: int| 0 <= j < i ==> #[trigger] s@[j].spec_encodable(),
        decreases s@.len() - i,
    {
        proof {
            lemma_concat_take(s@, field, i + 1, s@.len() as int);
            lemma_concat_take(s@, field, i as int, i + 1);
        }
        s[i].encode(field, encoder)?;
        assert(encoder@ =~= start + concat_encodings(s@.take(i + 1), field));
        i = i + 1;
    }
    assert(s@.take(i as int) =~= s@);
    Ok(())
}

fn size_repeated_plain<V: EncodeMessage>(s: &[V], num: u64, builder: &mut SizeBuilder) -> (r: Result<
    (),
    EncodeError,
>)
    requires
        old(builder)@ + repeated_plain(s@, num).len() <= u64::MAX,
    ensures
        r is Ok <==> concat_encodable(s@),
        r is Ok ==> final(builder)@ == old(builder)@ + repeated_plain(s@, num).len(),
{
    // if we are packed
    if V::wire_type().can_be_packed() && s.len() > 1 {
        proof {
            lemma_len_field_size(num, concat_encodings(s@, None));
        }
        builder.write_tag(num, WireType::Len);
        let mut packed_builder = SizeBuilder::new();
        size_concat(s, None, &mut packed_builder)?;
        // we now know how big a packed field is
        let packed_size = packed_builder.finish();
        builder.write_len(packed_size);
        builder.write_bytes(packed_size);
        return Ok(());
    }
    // we need to create a field for every entry
    size_concat(s, Some(FieldOpt { num, is_nested: true }), builder)
}

fn encode_repeated_plain<V: EncodeMessage>(s: &[V], num: u64, encoder: &mut MessageEncoder) -> (r:
    Result<(), EncodeError>)
    requires
        repeated_plain(s@, num).len() <= u64::MAX,
    ensures
        r is Ok <==> concat_encodable(s@),
        r is Ok ==> final(encoder)@ == old(encoder)@ + repeated_plain(s@, num),
{
    let ghost start = encoder@;
    // if we are packed
    if V::wire_type().can_be_packed() && s.len() > 1 {
        proof {
            lemma_len_field_size(num, concat_encodings(s@, None));
        }
        let mut packed_builder = SizeBuilder::new();
        size_concat(s, None, &mut packed_builder)?;
        // we now know how big a packed field is
        let packed_size = packed_builder.finish();
        write_len_header(encoder, num, packed_size)?;
        encode_concat(s, None, encoder)?;
        assert(encoder@ =~= start + repeated_plain(s@, num));
        return Ok(());
    }
    // we need to create a field for every entry
    encode_concat(s, Some(FieldOpt { num, is_nested: true }), encoder)
}

fn size_repeated<V: EncodeMessage>(s: &[V], field: Option<FieldOpt>, builder: &mut SizeBuilder) -> (r:
    Result<(), EncodeError>)
    requires
        old(builder)@ + repeated_encoding(s@, field).len() <= u64::MAX,
    ensures
        r is Ok <==> concat_encodable(s@),
        r is Ok ==> final(builder)@ == old(builder)@ + repeated_encoding(s@, field).len(),
{
    // if we don't have a fieldnum we need to simulate a custom field
    let field = match field {
        Some(f) => f,
        None => FieldOpt::new(1),
    };
    // if this fieldnumber cannot be repeated we need to simulate another
    // field
    if field.is_nested {
        proof {
            lemma_len_field_size(field.num, repeated_plain(s@, 1));
        }
        builder.write_tag(field.num, WireType::Len);
        let mut size = SizeBuilder::new();
        size_repeated_plain(s, 1, &mut size)?;
        let size = size.finish();
        builder.write_len(size);
        builder.write_bytes(size);
        return Ok(());
    }
    size_repeated_plain(s, field.num, builder)
}

fn encode_repeated<V: EncodeMessage>(s: &[V], field: Option<FieldOpt>, encoder: &mut MessageEncoder) -> (r:
    Result<(), EncodeError>)
    requires
        repeated_encoding(s@, field).len() <= u64::MAX,
    ensures
        r is Ok <==> concat_encodable(s@),
        r is Ok ==> final(encoder)@ == old(encoder)@ + repeated_encoding(s@, field),
{
    let ghost start = encoder@;
    // if we don't have a fieldnum we need to simulate a custom field
    let field = match field {
        Some(f) => f,
        None => FieldOpt::new(1),
    };
    // if this fieldnumber cannot be repeated we need to simulate another
    // field
    if field.is_nested {
        proof {
            lemma_len_field_size(field.num, repeated_plain(s@, 1));
        }
        let mut size = SizeBuilder::new();
        size_repeated_plain(s, 1, &mut size)?;
        let size = size.finish();
        write_len_header(encoder, field.num, size)?;
        encode_repeated_plain(s, 1, encoder)?;
        assert(encoder@ =~= start + repeated_encoding(s@, Some(field)));
        return Ok(());
    }
    encode_repeated_plain(s, field.num, encoder)
}

/// a slice is represented as a repeated field
impl<V: EncodeMessage> EncodeMessage for [V] {
    open spec fn spec_wire_type() -> WireType {
        WireType::Len
    }

    open spec fn spec_is_default(&self) -> bool {
        self@.len() == 0
    }

    open spec fn spec_encodable(&self) -> bool {
        concat_encodable(self@)
    }

    open spec fn spec_encoding(&self, field: Option<FieldOpt>) -> Seq<u8> {
        repeated_encoding(self@, field)
    }

    fn wire_type() -> (r: WireType) {
        WireType::Len
    }

    fn is_default(&self) -> (r: bool) {
        self.len() == 0
    }

    fn encoded_size(&self, field: Option<FieldOpt>, builder: &mut SizeBuilder) -> (r: Result<
        (),
        EncodeError,
    >) {
        size_repeated(self, field, builder)
    }

    fn encode(&self, field: Option<FieldOpt>, encoder: &mut MessageEncoder) -> (r: Result<
        (),
        EncodeError,
    >) {
        encode_repeated(self, field, encoder)
    }
}

/// a vec is represented as a repeated field
impl<V: EncodeMessage> EncodeMessage for Vec<V> {
    open spec fn spec_wire_type() -> WireType {
        WireType::Len
    }

    open spec fn spec_is_default(&self) -> bool {
        self@.len() == 0
    }

    open spec fn spec_encodable(&self) -> bool {
        concat_encodable(self@)
    }

    open spec fn spec_encoding(&self, field: Option<FieldOpt>) -> Seq<u8> {
        repeated_encoding(self@, field)
    }

    fn wire_type() -> (r: WireType) {
        WireType::Len
    }

    fn is_default(&self) -> (r: bool) {
        self.len() == 0
    }

    fn encoded_size(&self, field: Option<FieldOpt>, builder: &mut SizeBuilder) -> (r: Result<
        (),
        EncodeError,
    >) {
        size_repeated(self.as_slice(), field, builder)
    }

    fn encode(&self, field: Option<FieldOpt>, encoder: &mut MessageEncoder) -> (r: Result<
        (),
        EncodeError,
    >) {
        encode_repeated(self.as_slice(), field, encoder)
    }
}

/// The bytes of an optional value with number `num`: nothing when there is
/// no value.
pub open spec fn option_plain<T: EncodeMessage>(o: Option<T>, num: u64) -> Seq<u8> {
    match o {
        Some(v) => v.spec_encoding(nested(num)),
        None => Seq::empty(),
    }
}

fn size_option_plain<T: EncodeMessage>(o: &Option<T>, num: u64, builder: &mut SizeBuilder) -> (r:
    Result<(), EncodeError>)
    requires
        old(builder)@ + option_plain(*o, num).len() <= u64::MAX,
    ensures
        r is Ok <==> match *o {
            Some(v) => v.spec_encodable(),
            None => true,
        },
        r is Ok ==> final(builder)@ == old(builder)@ + option_plain(*o, num).len(),
{
    match o {
        Some(v) => v.encoded_size(Some(FieldOpt { num, is_nested: true }), builder),
        None => Ok(()),
    }
}

fn encode_option_plain<T: EncodeMessage>(o: &Option<T>, num: u64, encoder: &mut MessageEncoder) -> (r:
    Result<(), EncodeError>)
    requires
        option_plain(*o, num).len() <= u64::MAX,
    ensures
        r is Ok <==> match *o {
            Some(v) => v.spec_encodable(),
            None => true,
        },
        r is Ok ==> final(encoder)@ == old(encoder)@ + option_plain(*o, num),
{
    match o {
        Some(v) => v.encode(Some(FieldOpt { num, is_nested: true }), encoder),
        None => {
            assert(encoder@ =~= encoder@ + option_plain(*o, num));
            Ok(())
        },
    }
}

/// An option is written as a message with one field that is only present
/// when there is a value.
impl<T: EncodeMessage> EncodeMessage for Option<T> {
    open spec fn spec_wire_type() -> WireType {
        WireType::Len
    }

    open spec fn spec_is_default(&self) -> bool {
        self is None
    }

    open spec fn spec_encodable(&self) -> bool {
        match self {
            Some(v) => v.spec_encodable(),
            None => true,
        }
    }

    open spec fn spec_encoding(&self, field: Option<FieldOpt>) -> Seq<u8> {
        let f = field_or_first(field);
        if f.is_nested {
            len_field(f.num, option_plain(*self, 1))
        } else {
            option_plain(*self, f.num)
        }
    }

    fn wire_type() -> (r: WireType) {
        WireType::Len
    }

    fn is_default(&self) -> (r: bool) {
        self.is_none()
    }

    fn encoded_size(&self, field: Option<FieldOpt>, builder: &mut SizeBuilder) -> (r: Result<
        (),
        EncodeError,
    >) {
        let field = match field {
            Some(f) => f,
            None => FieldOpt::new(1),
        };
        if field.is_nested {
            proof {
                lemma_len_field_size(field.num, option_plain(*self, 1));
            }
            builder.write_tag(field.num, WireType::Len);
            let mut size = SizeBuilder::new();
            size_option_plain(self, 1, &mut size)?;
            let size = size.finish();
            builder.write_len(size);
            builder.write_bytes(size);
            return Ok(());
        }
        size_option_plain(self, field.num, builder)
    }

    fn encode(&self, field: Option<FieldOpt>, encoder: &mut MessageEncoder) -> (r: Result<
        (),
        EncodeError,
    >) {
        let ghost start = encoder@;
        let ghost given = field;
        let field = match field {
            Some(f) => f,
            None => FieldOpt::new(1),
        };
        if field.is_nested {
            proof {
                lemma_len_field_size(field.num, option_plain(*self, 1));
            }
            let mut size = SizeBuilder::new();
            size_option_plain(self, 1, &mut size)?;
            let size = size.finish();
            write_len_header(encoder, field.num, size)?;
            encode_option_plain(self, 1, encoder)?;
            assert(encoder@ =~= start + self.spec_encoding(given));
            return Ok(());
        }
        encode_option_plain(self, field.num, encoder)
    }
}

/// A tuple entry is field `idx` of a message, left out when it has its
/// default value.
pub open spec fn tuple_entry<A: EncodeMessage>(a: A, idx: u64) -> Seq<u8> {
    if a.spec_is_default() {
        Seq::empty()
    } else {
        a.spec_encoding(Some(FieldOpt { num: idx, is_nested: false }))
    }
}

/// A tuple entry is written, or left out as default.
pub open spec fn entry_encodable<A: EncodeMessage>(a: A) -> bool {
    a.spec_is_default() || a.spec_encodable()
}

/// A message body, as a length delimited field if a field is given.
pub open spec fn message_field(field: Option<FieldOpt>, body: Seq<u8>) -> Seq<u8> {
    match field {
        Some(f) => len_field(f.num, body),
        None => body,
    }
}

fn size_entry<A: EncodeMessage>(a: &A, idx: u64, builder: &mut SizeBuilder) -> (r: Result<
    (),
    EncodeError,
>)
    requires
        old(builder)@ + tuple_entry(*a, idx).len() <= u64::MAX,
    ensures
        r is Ok <==> entry_encodable(*a),
        r is Ok ==> final(builder)@ == old(builder)@ + tuple_entry(*a, idx).len(),
{
    if !a.is_default() {
        a.encoded_size(Some(FieldOpt::new(idx)), builder)
    } else {
        Ok(())
    }
}

fn encode_entry<A: EncodeMessage>(a: &A, idx: u64, encoder: &mut MessageEncoder) -> (r: Result<
    (),
    EncodeError,
>)
    requires
        tuple_entry(*a, idx).len() <= u64::MAX,
    ensures
        r is Ok <==> entry_encodable(*a),
        r is Ok ==> final(encoder)@ == old(encoder)@ + tuple_entry(*a, idx),
{
    if !a.is_default() {
        a.encode(Some(FieldOpt::new(idx)), encoder)
    } else {
        assert(encoder@ =~= encoder@ + tuple_entry(*a, idx));
        Ok(())
    }
}

proof fn lemma_message_field_size(field: Option<FieldOpt>, body: Seq<u8>)
    ensures
        body.len() <= message_field(field, body).len(),
{
    if let Some(f) = field {
        lemma_len_field_size(f.num, body);
    }
}

/// a tuple behaves the same way as a struct: entry `i` is field `i`
impl<A: EncodeMessage, B: EncodeMessage> EncodeMessage for (A, B) {
    open spec fn spec_wire_type() -> WireType {
        WireType::Len
    }

    open spec fn spec_is_default(&self) -> bool {
        false
    }

    open spec fn spec_encodable(&self) -> bool {
        entry_encodable(self.0) && entry_encodable(self.1)
    }

    open spec fn spec_encoding(&self, field: Option<FieldOpt>) -> Seq<u8> {
        message_field(field, tuple_entry(self.0, 0) + tuple_entry(self.1, 1))
    }

    fn wire_type() -> (r: WireType) {
        WireType::Len
    }

    fn is_default(&self) -> (r: bool) {
        false
    }

    fn encoded_size(&self, field: Option<FieldOpt>, builder: &mut SizeBuilder) -> (r: Result<
        (),
        EncodeError,
    >) {
        let ghost body = tuple_entry(self.0, 0) + tuple_entry(self.1, 1);
        proof {
            lemma_message_field_size(field, body);
        }
        let mut size = SizeBuilder::new();
        size_entry(&self.0, 0, &mut size)?;
        size_entry(&self.1, 1, &mut size)?;
        let fields_size = size.finish();
        if let Some(field) = field {
            proof {
                lemma_len_field_size(field.num, body);
            }
            builder.write_tag(field.num, WireType::Len);
            builder.write_len(fields_size);
        }
        builder.write_bytes(fields_size);
        Ok(())
    }

    fn encode(&self, field: Option<FieldOpt>, encoder: &mut MessageEncoder) -> (r: Result<
        (),
        EncodeError,
    >) {
        let ghost start = encoder@;
        let ghost body = tuple_entry(self.0, 0) + tuple_entry(self.1, 1);
        proof {
            lemma_message_field_size(field, body);
        }
        // we don't need to get the size if we don't need to write
        // the size
        if let Some(field) = field {
            proof {
                lemma_len_field_size(field.num, body);
            }
            let mut size = SizeBuilder::new();
            size_entry(&self.0, 0, &mut size)?;
            size_entry(&self.1, 1, &mut size)?;
            let fields_size = size.finish();
            write_len_header(encoder, field.num, fields_size)?;
        }
        let ghost mid = encoder@;
        encode_entry(&self.0, 0, encoder)?;
        assert(encoder@ =~= mid + tuple_entry(self.0, 0));
        encode_entry(&self.1, 1, encoder)?;
        assert(encoder@ =~= mid + tuple_entry(self.0, 0) + tuple_entry(self.1, 1));
        assert(encoder@ =~= start + self.spec_encoding(field));
        Ok(())
    }
}

/// a tuple behaves the same way as a struct: entry `i` is field `i`
impl<A: EncodeMessage, B: EncodeMessage, C: EncodeMessage> EncodeMessage for (A, B, C) {
    open spec fn spec_wire_type() -> WireType {
        WireType::Len
    }

    open spec fn spec_is_default(&self) -> bool {
        false
    }

    open spec fn spec_encodable(&self) -> bool {
        entry_encodable(self.0) && entry_encodable(self.1) && entry_encodable(self.2)
    }

    open spec fn spec_encoding(&self, field: Option<FieldOpt>) -> Seq<u8> {
        message_field(field, tuple_entry(self.0, 0) + tuple_entry(self.1, 1) + tuple_entry(self.2, 2))
    }

    fn wire_type() -> (r: WireType) {
        WireType::Len
    }

    fn is_default(&self) -> (r: bool) {
        false
    }

    fn encoded_size(&self, field: Option<FieldOpt>, builder: &mut SizeBuilder) -> (r: Result<
        (),
        EncodeError,
    >) {
        let ghost body = tuple_entry(self.0, 0) + tuple_entry(self.1, 1) + tuple_entry(self.2, 2);
        proof {
            lemma_message_field_size(field, body);
        }
        let mut size = SizeBuilder::new();
        size_entry(&self.0, 0, &mut size)?;
        size_entry(&self.1, 1, &mut size)?;
        size_entry(&self.2, 2, &mut size)?;
        let fields_size = size.finish();
        if let Some(field) = field {
            proof {
                lemma_len_field_size(field.num, body);
            }
            builder.write_tag(field.num, WireType::Len);
            builder.write_len(fields_size);
        }
        builder.write_bytes(fields_size);
        Ok(())
    }

    fn encode(&self, field: Option<FieldOpt>, encoder: &mut MessageEncoder) -> (r: Result<
        (),
        EncodeError,
    >) {
        let ghost start = encoder@;
        let ghost body = tuple_entry(self.0, 0) + tuple_entry(self.1, 1) + tuple_entry(self.2, 2);
        proof {
            lemma_message_field_size(field, body);
        }
        // we don't need to get the size if we don't need to write
        // the size
        if let Some(field) = field {
            proof {
                lemma_len_field_size(field.num, body);
            }
            let mut size = SizeBuilder::new();
            size_entry(&self.0, 0, &mut size)?;
            size_entry(&self.1, 1, &mut size)?;
            size_entry(&self.2, 2, &mut size)?;
            let fields_size = size.finish();
            write_len_header(encoder, field.num, fields_size)?;
        }
        let ghost mid = encoder@;
        encode_entry(&self.0, 0, encoder)?;
        assert(encoder@ =~= mid + tuple_entry(self.0, 0));
        encode_entry(&self.1, 1, encoder)?;
        assert(encoder@ =~= mid + tuple_entry(self.0, 0) + tuple_entry(self.1, 1));
        encode_entry(&self.2, 2, encoder)?;
        assert(encoder@ =~= mid + tuple_entry(self.0, 0) + tuple_entry(self.1, 1) + tuple_entry(self.2, 2));
        assert(encoder@ =~= start + self.spec_encoding(field));
        Ok(())
    }
}

/// a tuple behaves the same way as a struct: entry `i` is field `i`
impl<A: EncodeMessage, B: EncodeMessage, C: EncodeMessage, D: EncodeMessage> EncodeMessage for (A, B, C, D) {
    open spec fn spec_wire_type() -> WireType {
        WireType::Len
    }

    open spec fn spec_is_default(&self) -> bool {
        false
    }

    open spec fn spec_encodable(&self) -> bool {
        entry_encodable(self.0) && entry_encodable(self.1) && entry_encodable(self.2) && entry_encodable(self.3)
    }

    open spec fn spec_encoding(&self, field: Option<FieldOpt>) -> Seq<u8> {
        message_field(field, tuple_entry(self.0, 0) + tuple_entry(self.1, 1) + tuple_entry(self.2, 2) + tuple_entry(self.3, 3))
    }

    fn wire_type() -> (r: WireType) {
        WireType::Len
    }

    fn is_default(&self) -> (r: bool) {
        false
    }

    fn encoded_size(&self, field: Option<FieldOpt>, builder: &mut SizeBuilder) -> (r: Result<
        (),
        EncodeError,
    >) {
        let ghost body = tuple_entry(self.0, 0) + tuple_entry(self.1, 1) + tuple_entry(self.2, 2) + tuple_entry(self.3, 3);
        proof {
            lemma_message_field_size(field, body);
        }
        let mut size = SizeBuilder::new();
        size_entry(&self.0, 0, &mut size)?;
        size_entry(&self.1, 1, &mut size)?;
        size_entry(&self.2, 2, &mut size)?;
        size_entry(&self.3, 3, &mut size)?;
        let fields_size = size.finish();
        if let Some(field) = field {
            proof {
                lemma_len_field_size(field.num, body);
            }
            builder.write_tag(field.num, WireType::Len);
            builder.write_len(fields_size);
        }
        builder.write_bytes(fields_size);
        Ok(())
    }

    fn encode(&self, field: Option<FieldOpt>, encoder: &mut MessageEncoder) -> (r: Result<
        (),
        EncodeError,
    >) {
        let ghost start = encoder@;
        let ghost body = tuple_entry(self.0, 0) + tuple_entry(self.1, 1) + tuple_entry(self.2, 2) + tuple_entry(self.3, 3);
        proof {
            lemma_message_field_size(field, body);
        }
        // we don't need to get the size if we don't need to write
        // the size
        if let Some(field) = field {
            proof {
                lemma_len_field_size(field.num, body);
            }
            let mut size = SizeBuilder::new();
            size_entry(&self.0, 0, &mut size)?;
            size_entry(&self.1, 1, &mut size)?;
            size_entry(&self.2, 2, &mut size)?;
            size_entry(&self.3, 3, &mut size)?;
            let fields_size = size.finish();
            write_len_header(encoder, field.num, fields_size)?;
        }
        let ghost mid = encoder@;
        encode_entry(&self.0, 0, encoder)?;
        assert(encoder@ =~= mid + tuple_entry(self.0, 0));
        encode_entry(&self.1, 1, encoder)?;
        assert(encoder@ =~= mid + tuple_entry(self.0, 0) + tuple_entry(self.1, 1));
        encode_entry(&self.2, 2, encoder)?;
        assert(encoder@ =~= mid + tuple_entry(self.0, 0) + tuple_entry(self.1, 1) + tuple_entry(self.2, 2));
        encode_entry(&self.3, 3, encoder)?;
        assert(encoder@ =~= mid + tuple_entry(self.0, 0) + tuple_entry(self.1, 1) + tuple_entry(self.2, 2) + tuple_entry(self.3, 3));
        assert(encoder@ =~= start + self.spec_encoding(field));
        Ok(())
    }
}

/// a tuple behaves the same way as a struct: entry `i` is field `i`
impl<A: EncodeMessage, B: EncodeMessage, C: EncodeMessage, D: EncodeMessage, E: EncodeMessage> EncodeMessage for (A, B, C, D, E) {
    open spec fn spec_wire_type() -> WireType {
        WireType::Len
    }

    open spec fn spec_is_default(&self) -> bool {
        false
    }

    open spec fn spec_encodable(&self) -> bool {
        entry_encodable(self.0) && entry_encodable(self.1) && entry_encodable(self.2) && entry_encodable(self.3) && entry_encodable(self.4)
    }

    open spec fn spec_encoding(&self, field: Option<FieldOpt>) -> Seq<u8> {
        message_field(field, tuple_entry(self.0, 0) + tuple_entry(self.1, 1) + tuple_entry(self.2, 2) + tuple_entry(self.3, 3) + tuple_entry(self.4, 4))
    }

    fn wire_type() -> (r: WireType) {
        WireType::Len
    }

    fn is_default(&self) -> (r: bool) {
        false
    }

    fn encoded_size(&self, field: Option<FieldOpt>, builder: &mut SizeBuilder) -> (r: Result<
        (),
        EncodeError,
    >) {
        let ghost body = tuple_entry(self.0, 0) + tuple_entry(self.1, 1) + tuple_entry(self.2, 2) + tuple_entry(self.3, 3) + tuple_entry(self.4, 4);
        proof {
            lemma_message_field_size(field, body);
        }
        let mut size = SizeBuilder::new();
        size_entry(&self.0, 0, &mut size)?;
        size_entry(&self.1, 1, &mut size)?;
        size_entry(&self.2, 2, &mut size)?;
        size_entry(&self.3, 3, &mut size)?;
        size_entry(&self.4, 4, &mut size)?;
        let fields_size = size.finish();
        if let Some(field) = field {
            proof {
                lemma_len_field_size(field.num, body);
            }
            builder.write_tag(field.num, WireType::Len);
            builder.write_len(fields_size);
        }
        builder.write_bytes(fields_size);
        Ok(())
    }

    fn encode(&self, field: Option<FieldOpt>, encoder: &mut MessageEncoder) -> (r: Result<
        (),
        EncodeError,
    >) {
        let ghost start = encoder@;
        let ghost body = tuple_entry(self.0, 0) + tuple_entry(self.1, 1) + tuple_entry(self.2, 2) + tuple_entry(self.3, 3) + tuple_entry(self.4, 4);
        proof {
            lemma_message_field_size(field, body);
        }
        // we don't need to get the size if we don't need to write
        // the size
        if let Some(field) = field {
            proof {
                lemma_len_field_size(field.num, body);
            }
            let mut size = SizeBuilder::new();
            size_entry(&self.0, 0, &mut size)?;
            size_entry(&self.1, 1, &mut size)?;
            size_entry(&self.2, 2, &mut size)?;
            size_entry(&self.3, 3, &mut size)?;
            size_entry(&self.4, 4, &mut size)?;
            let fields_size = size.finish();
            write_len_header(encoder, field.num, fields_size)?;
        }
        let ghost mid = encoder@;
        encode_entry(&self.0, 0, encoder)?;
        assert(encoder@ =~= mid + tuple_entry(self.0, 0));
        encode_entry(&self.1, 1, encoder)?;
        assert(encoder@ =~= mid + tuple_entry(self.0, 0) + tuple_entry(self.1, 1));
        encode_entry(&self.2, 2, encoder)?;
        assert(encoder@ =~= mid + tuple_entry(self.0, 0) + tuple_entry(self.1, 1) + tuple_entry(self.2, 2));
        encode_entry(&self.3, 3, encoder)?;
        assert(encoder@ =~= mid + tuple_entry(self.0, 0) + tuple_entry(self.1, 1) + tuple_entry(self.2, 2) + tuple_entry(self.3, 3));
        encode_entry(&self.4, 4, encoder)?;
        assert(encoder@ =~= mid + tuple_entry(self.0, 0) + tuple_entry(self.1, 1) + tuple_entry(self.2, 2) + tuple_entry(self.3, 3) + tuple_entry(self.4, 4));
        assert(encoder@ =~= start + self.spec_encoding(field));
        Ok(())
    }
}

/// a tuple behaves the same way as a struct: entry `i` is field `i`
impl<A: EncodeMessage, B: EncodeMessage, C: EncodeMessage, D: EncodeMessage, E: EncodeMessage, F: EncodeMessage> EncodeMessage for (A, B, C, D, E, F) {
    open spec fn spec_wire_type() -> WireType {
        WireType::Len
    }

    open spec fn spec_is_default(&self) -> bool {
        false
    }

    open spec fn spec_encodable(&self) -> bool {
        entry_encodable(self.0) && entry_encodable(self.1) && entry_encodable(self.2) && entry_encodable(self.3) && entry_encodable(self.4) && entry_encodable(self.5)
    }

    open spec fn spec_encoding(&self, field: Option<FieldOpt>) -> Seq<u8> {
        message_field(field, tuple_entry(self.0, 0) + tuple_entry(self.1, 1) + tuple_entry(self.2, 2) + tuple_entry(self.3, 3) + tuple_entry(self.4, 4) + tuple_entry(self.5, 5))
    }

    fn wire_type() -> (r: WireType) {
        WireType::Len
    }

    fn is_default(&self) -> (r: bool) {
        false
    }

    fn encoded_size(&self, field: Option<FieldOpt>, builder: &mut SizeBuilder) -> (r: Result<
        (),
        EncodeError,
    >) {
        let ghost body = tuple_entry(self.0, 0) + tuple_entry(self.1, 1) + tuple_entry(self.2, 2) + tuple_entry(self.3, 3) + tuple_entry(self.4, 4) + tuple_entry(self.5, 5);
        proof {
            lemma_message_field_size(field, body);
        }
        let mut size = SizeBuilder::new();
        size_entry(&self.0, 0, &mut size)?;
        size_entry(&self.1, 1, &mut size)?;
        size_entry(&self.2, 2, &mut size)?;
        size_entry(&self.3, 3, &mut size)?;
        size_entry(&self.4, 4, &mut size)?;
        size_entry(&self.5, 5, &mut size)?;
        let fields_size = size.finish();
        if let Some(field) = field {
            proof {
                lemma_len_field_size(field.num, body);
            }
            builder.write_tag(field.num, WireType::Len);
            builder.write_len(fields_size);
        }
        builder.write_bytes(fields_size);
        Ok(())
    }

    fn encode(&self, field: Option<FieldOpt>, encoder: &mut MessageEncoder) -> (r: Result<
        (),
        EncodeError,
    >) {
        let ghost start = encoder@;
        let ghost body = tuple_entry(self.0, 0) + tuple_entry(self.1, 1) + tuple_entry(self.2, 2) + tuple_entry(self.3, 3) + tuple_entry(self.4, 4) + tuple_entry(self.5, 5);
        proof {
            lemma_message_field_size(field, body);
        }
        // we don't need to get the size if we don't need to write
        // the size
        if let Some(field) = field {
            proof {
                lemma_len_field_size(field.num, body);
            }
            let mut size = SizeBuilder::new();
            size_entry(&self.0, 0, &mut size)?;
            size_entry(&self.1, 1, &mut size)?;
            size_entry(&self.2, 2, &mut size)?;
            size_entry(&self.3, 3, &mut size)?;
            size_entry(&self.4, 4, &mut size)?;
            size_entry(&self.5, 5, &mut size)?;
            let fields_size = size.finish();
            write_len_header(encoder, field.num, fields_size)?;
        }
        let ghost mid = encoder@;
        encode_entry(&self.0, 0, encoder)?;
        assert(encoder@ =~= mid + tuple_entry(self.0, 0));
        encode_entry(&self.1, 1, encoder)?;
        assert(encoder@ =~= mid + tuple_entry(self.0, 0) + tuple_entry(self.1, 1));
        encode_entry(&self.2, 2, encoder)?;
        assert(encoder@ =~= mid + tuple_entry(self.0, 0) + tuple_entry(self.1, 1) + tuple_entry(self.2, 2));
        encode_entry(&self.3, 3, encoder)?;
        assert(encoder@ =~= mid + tuple_entry(self.0, 0) + tuple_entry(self.1, 1) + tuple_entry(self.2, 2) + tuple_entry(self.3, 3));
        encode_entry(&self.4, 4, encoder)?;
        assert(encoder@ =~= mid + tuple_entry(self.0, 0) + tuple_entry(self.1, 1) + tuple_entry(self.2, 2) + tuple_entry(self.3, 3) + tuple_entry(self.4, 4));
        encode_entry(&self.5, 5, encoder)?;
        assert(encoder@ =~= mid + tuple_entry(self.0, 0) + tuple_entry(self.1, 1) + tuple_entry(self.2, 2) + tuple_entry(self.3, 3) + tuple_entry(self.4, 4) + tuple_entry(self.5, 5));
        assert(encoder@ =~= start + self.spec_encoding(field));
        Ok(())
    }
}

impl<const S: usize> EncodeMessage for [u8; S] {
    open spec fn spec_wire_type() -> WireType {
        WireType::Len
    }

    open spec fn spec_is_default(&self) -> bool {
        self@.len() == 0
    }

    open spec fn spec_encodable(&self) -> bool {
        true
    }

    open spec fn spec_encoding(&self, field: Option<FieldOpt>) -> Seq<u8> {
        bytes_field(field, self@)
    }

    fn wire_type() -> (r: WireType) {
        WireType::Len
    }

    fn is_default(&self) -> (r: bool) {
        self.as_slice().len() == 0
    }

    fn encoded_size(&self, field: Option<FieldOpt>, builder: &mut SizeBuilder) -> (r: Result<
        (),
        EncodeError,
    >)
        ensures
            r is Ok,
    {
        size_bytes_value(self.as_slice(), field, builder);
        Ok(())
    }

    fn encode(&self, field: Option<FieldOpt>, encoder: &mut MessageEncoder) -> (r: Result<
        (),
        EncodeError,
    >)
        ensures
            r is Ok,
    {
        encode_bytes_value(self.as_slice(), field, encoder);
        Ok(())
    }
}

/// an array is represented as a repeated field
impl<V: EncodeMessage, const S: usize> EncodeMessage for [V; S] {
    open spec fn spec_wire_type() -> WireType {
        WireType::Len
    }

    open spec fn spec_is_default(&self) -> bool {
        self@.len() == 0
    }

    open spec fn spec_encodable(&self) -> bool {
        concat_encodable(self@)
    }

    open spec fn spec_encoding(&self, field: Option<FieldOpt>) -> Seq<u8> {
        repeated_encoding(self@, field)
    }

    fn wire_type() -> (r: WireType) {
        WireType::Len
    }

    fn is_default(&self) -> (r: bool) {
        self.as_slice().len() == 0
    }

    fn encoded_size(&self, field: Option<FieldOpt>, builder: &mut SizeBuilder) -> (r: Result<
        (),
        EncodeError,
    >) {
        size_repeated(self.as_slice(), field, builder)
    }

    fn encode(&self, field: Option<FieldOpt>, encoder: &mut MessageEncoder) -> (r: Result<
        (),
        EncodeError,
    >) {
        encode_repeated(self.as_slice(), field, encoder)
    }
}

/// A reference is written as the value it points to.
impl<'a, V: EncodeMessage + ?Sized> EncodeMessage for &'a V {
    open spec fn spec_wire_type() -> WireType {
        V::spec_wire_type()
    }

    open spec fn spec_is_default(&self) -> bool {
        (**self).spec_is_default()
    }

    open spec fn spec_encodable(&self) -> bool {
        (**self).spec_encodable()
    }

    open spec fn spec_encoding(&self, field: Option<FieldOpt>) -> Seq<u8> {
        (**self).spec_encoding(field)
    }

    fn wire_type() -> (r: WireType) {
        V::wire_type()
    }

    fn is_default(&self) -> (r: bool) {
        (**self).is_default()
    }

    fn encoded_size(&self, field: Option<FieldOpt>, builder: &mut SizeBuilder) -> (r: Result<
        (),
        EncodeError,
    >) {
        (**self).encoded_size(field, builder)
    }

    fn encode(&self, field: Option<FieldOpt>, encoder: &mut MessageEncoder) -> (r: Result<
        (),
        EncodeError,
    >) {
        (**self).encode(field, encoder)
    }
}

} // verus!
