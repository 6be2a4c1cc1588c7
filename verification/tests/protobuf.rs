use lafere::protobuf::decode::{DecodeError, DecodeMessage, Field, FieldKind, Fixed, MessageDecoder, ZigZag};
use lafere::protobuf::encode::{EncodeMessage, FieldOpt, MessageEncoder, SizeBuilder};
use lafere::protobuf::{from_slice, to_bytes_writer, to_vec, WireType};
use lafere::varint::{read_varint, varint_size, write_varint};
use lafere::DeepView;

#[test]
fn string_and_repeated_test_4() {
    let msg: &[u8] = &[
        0x22, 0x05, 0x68, 0x65, 0x6c, 0x6c, 0x6f, 0x28, 0x01, 0x28, 0x02, 0x28, 0x03,
    ];

    let mut parser = MessageDecoder::new(msg);

    let hello_str = Field { number: 4, kind: FieldKind::Len(b"hello") };
    assert_eq!(parser.next().unwrap().unwrap(), hello_str);

    let mut repeated = Field { number: 5, kind: FieldKind::Varint(1) };

    assert_eq!(parser.next().unwrap().unwrap(), repeated);
    repeated.kind = FieldKind::Varint(2);
    assert_eq!(parser.next().unwrap().unwrap(), repeated);
    repeated.kind = FieldKind::Varint(3);
    assert_eq!(parser.next().unwrap().unwrap(), repeated);

    assert!(parser.next().unwrap().is_none());
}

#[test]
fn repeated_packet() {
    let msg: &[u8] = &[0x32, 0x06, 0x03, 0x8e, 0x02, 0x9e, 0xa7, 0x05];

    let mut parser = MessageDecoder::new(msg);

    let packed = parser.next().unwrap().unwrap();
    assert_eq!(packed.number, 6);
    let packed = match packed.kind {
        FieldKind::Len(p) => p,
        _ => panic!(),
    };

    let mut parser = MessageDecoder::new(packed);
    assert_eq!(parser.next_varint().unwrap(), 3);
    assert_eq!(parser.next_varint().unwrap(), 270);
    assert_eq!(parser.next_varint().unwrap(), 86942);
}

#[test]
fn empty_bytes() {
    let msg: &[u8] = &[10, 0];

    let mut parser = MessageDecoder::new(msg);

    let field = parser.next().unwrap().unwrap();
    assert_eq!(field.number, 1);
    assert_eq!(field.kind, FieldKind::Len(&[]));
    assert!(parser.next().unwrap().is_none());
}

#[test]
fn varint_written_and_read_back() {
    for v in [0u64, 1, 127, 128, 300, 86942, u32::MAX as u64, u64::MAX] {
        let mut buf = vec![0xaa];
        write_varint(&mut buf, v);
        assert_eq!(buf.len() as u64, 1 + varint_size(v));
        assert_eq!(read_varint(&buf, 1), Some((v, varint_size(v) as usize)));
    }
}

#[test]
fn varint_bytes_exact() {
    let mut buf = Vec::new();
    write_varint(&mut buf, 300);
    assert_eq!(buf, vec![0xac, 0x02]);
    let mut buf = Vec::new();
    write_varint(&mut buf, u64::MAX);
    assert_eq!(buf, vec![0xff, 0xff, 0xff, 0xff, 0xff, 0xff, 0xff, 0xff, 0xff, 0x01]);
}

#[test]
fn varint_cut_short_is_none() {
    assert_eq!(read_varint(&[0x80, 0x80], 0), None);
    assert_eq!(read_varint(&[], 0), None);
    // eleven continuation bytes do not fit in a u64
    assert_eq!(read_varint(&[0xff; 11], 0), None);
}

#[test]
fn wire_type_from_tag() {
    assert_eq!(WireType::from_tag(0x22).unwrap(), WireType::Len);
    assert_eq!(WireType::from_tag(0x28).unwrap(), WireType::Varint);
    assert_eq!(WireType::from_tag(0x0d).unwrap(), WireType::I32);
    assert_eq!(WireType::from_tag(0x09).unwrap(), WireType::I64);
    assert_eq!(WireType::from_tag(0x0b), Err(DecodeError::InvalidWireType(3)));
    assert_eq!(WireType::Len.as_num(), 2);
    assert!(WireType::Varint.can_be_packed());
    assert!(!WireType::Len.can_be_packed());
}

#[test]
fn decoder_errors() {
    // a length beyond the end
    let mut parser = MessageDecoder::new(&[0x0a, 0x05, 0x01]);
    assert_eq!(parser.next(), Err(DecodeError::UnexpectedEof));
    // a varint that does not end
    let mut parser = MessageDecoder::new(&[0x08, 0x80]);
    assert_eq!(parser.next(), Err(DecodeError::InvalidVarint));
    // finishing with bytes left
    let parser = MessageDecoder::new(&[0x08]);
    assert_eq!(parser.finish(), Err(DecodeError::ExpectedEof));
    let parser = MessageDecoder::new(&[]);
    assert_eq!(parser.finish(), Ok(()));
}

#[test]
fn field_kind_unwrap() {
    assert_eq!(FieldKind::Varint(5).try_unwrap_varint(), Ok(5));
    assert_eq!(FieldKind::I32(5).try_unwrap_varint(), Err(DecodeError::ExpectedVarintWireType));
    assert_eq!(FieldKind::I32(7).try_unwrap_i32(), Ok(7));
    assert_eq!(FieldKind::Varint(7).try_unwrap_i32(), Err(DecodeError::ExpectedI32WireType));
    assert_eq!(FieldKind::I64(9).try_unwrap_i64(), Ok(9));
    assert_eq!(FieldKind::I32(9).try_unwrap_i64(), Err(DecodeError::ExpectedI64WireType));
    assert_eq!(FieldKind::Len(b"ab").try_unwrap_len(), Ok(&b"ab"[..]));
    assert_eq!(FieldKind::I64(1).try_unwrap_len(), Err(DecodeError::ExpectedLenWireType));
    assert!(FieldKind::Len(b"").is_len());
    assert!(!FieldKind::Varint(0).is_len());
}

#[test]
fn encode_u64_field() {
    let mut encoder = MessageEncoder::new_owned();
    150u64.encode(Some(FieldOpt::new(1)), &mut encoder).unwrap();
    assert_eq!(encoder.finish(), vec![0x08, 0x96, 0x01]);

    let mut size = SizeBuilder::new();
    150u64.encoded_size(Some(FieldOpt::new(1)), &mut size).unwrap();
    assert_eq!(size.finish(), 3);
}

#[test]
fn encode_through_reference() {
    let value = 150u64;
    let by_ref = &value;
    let mut encoder = MessageEncoder::new_owned();
    by_ref.encode(Some(FieldOpt::new(1)), &mut encoder).unwrap();
    assert_eq!(encoder.finish(), vec![0x08, 0x96, 0x01]);
}

#[test]
fn encode_string_message() {
    // a tuple is a message whose entry i is field i
    let value = (String::from("hello"), 3u32);
    let bytes = to_vec(&value).unwrap();
    // entry 0 has field number 0: tag 0x02, then entry 1: tag 0x08
    assert_eq!(bytes, vec![0x02, 0x05, b'h', b'e', b'l', b'l', b'o', 0x08, 0x03]);
}

#[test]
fn default_entries_are_left_out() {
    let value = (0u32, String::new());
    assert_eq!(to_vec(&value).unwrap(), Vec::<u8>::new());
}

#[test]
fn packed_repeated_roundtrip() {
    let values: Vec<u64> = vec![3, 270, 86942];
    let bytes = to_vec(&values).unwrap();
    assert_eq!(bytes, vec![0x0a, 0x06, 0x03, 0x8e, 0x02, 0x9e, 0xa7, 0x05]);
    let back: Vec<u64> = from_slice(&bytes).unwrap();
    assert_eq!(back, values);
}

#[test]
fn single_repeated_entry_not_packed() {
    let values: Vec<u64> = vec![7];
    assert_eq!(to_vec(&values).unwrap(), vec![0x08, 0x07]);
}

#[test]
fn bytes_and_string_roundtrip() {
    let bytes_value: Vec<u8> = vec![1, 2, 3];
    let encoded = to_vec(&bytes_value).unwrap();
    let back: Vec<u8> = from_slice(&encoded).unwrap();
    assert_eq!(back, bytes_value);

    let text = String::from("grüße");
    let encoded = to_vec(&text).unwrap();
    let back: String = from_slice(&encoded).unwrap();
    assert_eq!(back, text);
}

#[test]
fn invalid_utf8_is_refused() {
    let r: Result<String, DecodeError> = from_slice(&[0x0a, 0x02, 0xff, 0xfe]);
    assert_eq!(r, Err(DecodeError::ExpectedUtf8));
}

#[test]
fn option_roundtrip() {
    let some: Option<u64> = Some(42);
    let encoded = to_vec(&some).unwrap();
    assert_eq!(encoded, vec![0x08, 0x2a]);
    let back: Option<u64> = from_slice(&encoded).unwrap();
    assert_eq!(back, some);

    let none: Option<u64> = None;
    let encoded = to_vec(&none).unwrap();
    let back: Option<u64> = from_slice(&encoded).unwrap();
    assert_eq!(back, None);
}

#[test]
fn writer_appends() {
    let mut w = vec![9u8];
    to_bytes_writer(&5u32, &mut w).unwrap();
    assert_eq!(w, vec![9, 0x05]);
}

#[test]
fn zigzag_values() {
    let mut v = ZigZag::<i32>::decode_default();
    v.merge(FieldKind::Varint(3), false).unwrap();
    assert_eq!(v, ZigZag(-2));
    let mut v = ZigZag::<i64>::decode_default();
    v.merge(FieldKind::Varint(4), true).unwrap();
    assert_eq!(v, ZigZag(2));
    let mut v = ZigZag::<i64>::decode_default();
    assert_eq!(v.merge(FieldKind::I32(4), true), Err(DecodeError::ExpectedVarintWireType));
}

#[test]
fn fixed_values() {
    let mut v = Fixed::<u32>::decode_default();
    v.merge(FieldKind::I32(0x0201), false).unwrap();
    assert_eq!(v, Fixed(0x0201));
    let mut v = Fixed::<i64>::decode_default();
    v.merge(FieldKind::I64(u64::MAX), false).unwrap();
    assert_eq!(v, Fixed(-1));
    let mut v = Fixed::<u64>::decode_default();
    assert_eq!(v.merge(FieldKind::Varint(1), false), Err(DecodeError::ExpectedI64WireType));
}

#[test]
fn wrong_wire_type_is_refused() {
    let r: Result<u64, DecodeError> = from_slice(&[0x0a, 0x01, 0x00]);
    assert_eq!(r, Err(DecodeError::ExpectedVarintWireType));
}

#[test]
fn scalars_at_the_top_are_written_bare() {
    assert_eq!(to_vec(&true).unwrap(), vec![0x01]);
    assert_eq!(
        to_vec(&(-1i32)).unwrap(),
        vec![0xff, 0xff, 0xff, 0xff, 0xff, 0xff, 0xff, 0xff, 0xff, 0x01]
    );
    // a message is always length delimited, so a bare scalar is no message
    let r: Result<bool, DecodeError> = from_slice(&[0x01]);
    assert_eq!(r, Err(DecodeError::ExpectedVarintWireType));
}

#[test]
fn merging_scalars() {
    let mut b = bool::decode_default();
    b.merge(FieldKind::Varint(2), true).unwrap();
    assert!(b);
    let mut n = i32::decode_default();
    n.merge(FieldKind::Varint(u64::MAX), true).unwrap();
    assert_eq!(n, -1);
    let mut a = <[u8; 2]>::decode_default();
    assert_eq!(a.merge(FieldKind::Len(&[1, 2, 3]), true), Err(DecodeError::ExpectedArrayLen(2)));
    a.merge(FieldKind::Len(&[1, 2]), true).unwrap();
    assert_eq!(a, [1, 2]);
}

/// A message type of a user: field 1 holds a number, field 2 a text.
#[derive(Debug, Default, PartialEq)]
struct Pair {
    num: u64,
    text: String,
}

impl DeepView for Pair {
    type V = ();

    fn deep_view(&self) {}
}

impl<'m> DecodeMessage<'m> for Pair {
    fn wire_type() -> WireType {
        WireType::Len
    }

    fn decode_default() -> Self {
        Self::default()
    }

    fn merge(&mut self, kind: FieldKind<'m>, _is_field: bool) -> Result<(), DecodeError> {
        let mut parser = MessageDecoder::try_from_kind(kind)?;
        while let Some(field) = parser.next()? {
            match field.number {
                1 => self.num.merge(field.kind, true)?,
                2 => self.text.merge(field.kind, true)?,
                _ => {}
            }
        }
        parser.finish()
    }
}

impl EncodeMessage for Pair {
    fn wire_type() -> WireType {
        WireType::Len
    }

    fn is_default(&self) -> bool {
        false
    }

    fn encoded_size(&self, field: Option<FieldOpt>, builder: &mut SizeBuilder) -> Result<(), lafere::protobuf::encode::EncodeError> {
        let mut size = SizeBuilder::new();
        if !self.num.is_default() {
            self.num.encoded_size(Some(FieldOpt::new(1)), &mut size)?;
        }
        if !self.text.is_default() {
            self.text.encoded_size(Some(FieldOpt::new(2)), &mut size)?;
        }
        let size = size.finish();
        if let Some(field) = field {
            builder.write_tag(field.num, WireType::Len);
            builder.write_len(size);
        }
        builder.write_bytes(size);
        Ok(())
    }

    fn encode(&self, field: Option<FieldOpt>, encoder: &mut MessageEncoder) -> Result<(), lafere::protobuf::encode::EncodeError> {
        let mut size = SizeBuilder::new();
        if !self.num.is_default() {
            self.num.encoded_size(Some(FieldOpt::new(1)), &mut size)?;
        }
        if !self.text.is_default() {
            self.text.encoded_size(Some(FieldOpt::new(2)), &mut size)?;
        }
        if let Some(field) = field {
            encoder.write_tag(field.num, WireType::Len)?;
            encoder.write_len(size.finish())?;
        }
        if !self.num.is_default() {
            self.num.encode(Some(FieldOpt::new(1)), encoder)?;
        }
        if !self.text.is_default() {
            self.text.encode(Some(FieldOpt::new(2)), encoder)?;
        }
        Ok(())
    }
}

#[test]
fn user_message_roundtrip() {
    let p = Pair { num: 5, text: "hi".to_string() };
    let bytes = to_vec(&p).unwrap();
    assert_eq!(bytes, vec![0x08, 0x05, 0x12, 0x02, b'h', b'i']);
    let back: Pair = from_slice(&bytes).unwrap();
    assert_eq!(back, p);
    // a list of messages: every entry is a field of its own
    let list = vec![Pair { num: 1, text: String::new() }, Pair { num: 2, text: String::new() }];
    let bytes = to_vec(&list).unwrap();
    assert_eq!(bytes, vec![0x0a, 0x02, 0x08, 0x01, 0x0a, 0x02, 0x08, 0x02]);
    let back: Vec<Pair> = from_slice(&bytes).unwrap();
    assert_eq!(back, list);
}

#[test]
fn zigzag_top_bit_keeps_sign() {
    // the number is halved as a two's complement number
    let mut v = ZigZag::<i32>::decode_default();
    v.merge(FieldKind::Varint(0x8000_0000), false).unwrap();
    assert_eq!(v, ZigZag(-0x4000_0000));
    let mut v = ZigZag::<i32>::decode_default();
    v.merge(FieldKind::Varint(0x7fff_fffe), false).unwrap();
    assert_eq!(v, ZigZag(0x3fff_ffff));
    let mut v = ZigZag::<i64>::decode_default();
    v.merge(FieldKind::Varint(u64::MAX), false).unwrap();
    assert_eq!(v, ZigZag(0));
    let mut v = ZigZag::<i64>::decode_default();
    v.merge(FieldKind::Varint(1), false).unwrap();
    assert_eq!(v, ZigZag(-1));
}

#[test]
fn nested_sequences_read_back() {
    let values: Vec<Vec<u64>> = vec![vec![1, 2], vec![], vec![300]];
    let bytes = to_vec(&values).unwrap();
    let back: Vec<Vec<u64>> = from_slice(&bytes).unwrap();
    assert_eq!(back, values);

    let options: Vec<Option<String>> = vec![Some(String::from("a")), None, Some(String::new())];
    let bytes = to_vec(&options).unwrap();
    let back: Vec<Option<String>> = from_slice(&bytes).unwrap();
    assert_eq!(back, options);
}

#[test]
fn signed_and_bool_sequences_read_back() {
    let ints: Vec<i32> = vec![-1, 0, i32::MIN, i32::MAX];
    let bytes = to_vec(&ints).unwrap();
    let back: Vec<i32> = from_slice(&bytes).unwrap();
    assert_eq!(back, ints);

    let longs: Vec<i64> = vec![i64::MIN, -5];
    let bytes = to_vec(&longs).unwrap();
    let back: Vec<i64> = from_slice(&bytes).unwrap();
    assert_eq!(back, longs);

    let flags: Vec<bool> = vec![true, false, true];
    let bytes = to_vec(&flags).unwrap();
    let back: Vec<bool> = from_slice(&bytes).unwrap();
    assert_eq!(back, flags);
}

#[test]
fn arrays_and_options_read_back() {
    let arrays: Vec<[u8; 3]> = vec![[1, 2, 3], [0, 0, 0]];
    let bytes = to_vec(&arrays).unwrap();
    let back: Vec<[u8; 3]> = from_slice(&bytes).unwrap();
    assert_eq!(back, arrays);

    let nested: Option<Vec<u32>> = Some(vec![5, 6]);
    let bytes = to_vec(&nested).unwrap();
    let back: Option<Vec<u32>> = from_slice(&bytes).unwrap();
    assert_eq!(back, nested);

    let inner_none: Option<Option<u64>> = Some(None);
    let bytes = to_vec(&inner_none).unwrap();
    let back: Option<Option<u64>> = from_slice(&bytes).unwrap();
    assert_eq!(back, inner_none);
}

#[test]
fn bare_varint_is_no_message() {
    let r: Result<u32, DecodeError> = from_slice(&[0x96, 0x01]);
    assert_eq!(r, Err(DecodeError::ExpectedVarintWireType));
}

#[test]
fn size_builder_counts_encoder_calls() {
    let mut size = SizeBuilder::new();
    let mut encoder = MessageEncoder::new_owned();
    size.write_tag(1, WireType::Varint);
    encoder.write_tag(1, WireType::Varint).unwrap();
    size.write_varint(300);
    encoder.write_varint(300).unwrap();
    size.write_tag(100_000, WireType::Len);
    encoder.write_tag(100_000, WireType::Len).unwrap();
    size.write_len(3);
    encoder.write_len(3).unwrap();
    size.write_bytes(3);
    encoder.write_bytes(b"abc").unwrap();
    size.write_i32(7);
    encoder.write_i32(7).unwrap();
    size.write_i64(u64::MAX);
    encoder.write_i64(u64::MAX).unwrap();
    size.write_empty_field(2);
    encoder.write_empty_field(2).unwrap();
    assert_eq!(size.finish(), encoder.written_len());
    assert_eq!(encoder.written_len(), 1 + 2 + 3 + 1 + 3 + 4 + 8 + 2);
}

#[test]
fn fields_written_are_read_in_order() {
    let mut encoder = MessageEncoder::new_owned();
    encoder.write_tag(3, WireType::Varint).unwrap();
    encoder.write_varint(150).unwrap();
    encoder.write_tag(1, WireType::Len).unwrap();
    encoder.write_len(2).unwrap();
    encoder.write_bytes(b"hi").unwrap();
    encoder.write_tag(2_000, WireType::I32).unwrap();
    encoder.write_i32(0x01020304).unwrap();
    encoder.write_tag(4, WireType::I64).unwrap();
    encoder.write_i64(9).unwrap();
    let bytes = encoder.finish();

    let mut parser = MessageDecoder::new(&bytes);
    assert_eq!(parser.next(), Ok(Some(Field { number: 3, kind: FieldKind::Varint(150) })));
    assert_eq!(parser.next(), Ok(Some(Field { number: 1, kind: FieldKind::Len(b"hi") })));
    assert_eq!(parser.next(), Ok(Some(Field { number: 2_000, kind: FieldKind::I32(0x01020304) })));
    assert_eq!(parser.next(), Ok(Some(Field { number: 4, kind: FieldKind::I64(9) })));
    assert_eq!(parser.next(), Ok(None));
    assert_eq!(parser.finish(), Ok(()));
}
