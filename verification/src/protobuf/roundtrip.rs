//! What reading gives back of what was written.
//!
//! A value "reads back" when it is written as the value of one field and
//! the decoder turns that value back into it. The scalars, byte strings,
//! strings and byte arrays read back; a sequence or an option of values that
//! read back reads back too, so the laws compose over nested types. For the
//! types written as length delimited fields this is also the read-back of a
//! whole message: `from_slice` of what `to_vec` wrote.
use super::{kind_bytes, law_field_roundtrip, law_kind_roundtrip};
use super::decode::{
    DecodeError, DecodeMessage, KindModel, spec_kind_wire_type, spec_read_field, spec_read_kind,
    vec_merge_message, vec_merge_packed, vec_merge_field, vec_merge_one, option_merge_message,
    option_merge_field,
};
use super::encode::{EncodeMessage, FieldOpt, concat_encodings, len_field, nested, tag_bytes, option_plain};

use vstd::prelude::*;
use vstd::utf8::encode_utf8;

verus! {

/// `v` is written as the value `k` of a field: after the tag of whatever
/// field number it is given (as one field, `is_nested`), and, where its wire
/// type is packed, also on its own without a tag. Merging `k` into the
/// default value of `V` gives `v` back.
pub open spec fn written_as<'m, V: EncodeMessage + DecodeMessage<'m>>(v: V, k: KindModel) -> bool {
    &&& <V as EncodeMessage>::spec_wire_type() == <V as DecodeMessage<'m>>::spec_wire_type()
    &&& spec_kind_wire_type(k) == <V as DecodeMessage<'m>>::spec_wire_type()
    &&& forall|num: u64|
        num < 0x2000_0000_0000_0000 ==> #[trigger] v.spec_encoding(nested(num)) == tag_bytes(
            num,
            spec_kind_wire_type(k),
        ) + kind_bytes(k)
    &&& spec_kind_wire_type(k).spec_can_be_packed() ==> v.spec_encoding(None) == kind_bytes(k)
    &&& k matches KindModel::Len(b) ==> b.len() <= u64::MAX
    &&& <V as DecodeMessage<'m>>::spec_merge(<V as DecodeMessage<'m>>::spec_decode_default(), k, false)
        == (v.deep_view(), Ok::<(), DecodeError>(()))
}

/// `v` is written as the value of one field, which is read back as `v`.
pub open spec fn reads_back<'m, V: EncodeMessage + DecodeMessage<'m>>(v: V) -> bool {
    exists|k: KindModel| #[trigger] written_as::<V>(v, k)
}

/// The values that the entries of `t` are read as.
pub open spec fn deep_views<'m, V: DecodeMessage<'m>>(t: Seq<V>) -> Seq<V::V> {
    Seq::new(t.len(), |i: int| t[i].deep_view())
}

/// A sequence of entries is written as its first entry followed by the rest.
pub proof fn lemma_concat_front<V: EncodeMessage>(s: Seq<V>, field: Option<FieldOpt>)
    requires
        s.len() > 0,
    ensures
        concat_encodings(s, field) == s[0].spec_encoding(field) + concat_encodings(
            s.drop_first(),
            field,
        ),
    decreases s.len(),
{
    if s.len() == 1 {
        assert(s.drop_last() =~= Seq::<V>::empty());
        assert(s.drop_first() =~= Seq::<V>::empty());
        assert(concat_encodings(s.drop_last(), field) =~= Seq::<u8>::empty());
        assert(concat_encodings(s, field) =~= s[0].spec_encoding(field));
        assert(concat_encodings(s.drop_first(), field) =~= Seq::<u8>::empty());
    } else {
        lemma_concat_front(s.drop_last(), field);
        assert(s.drop_last().drop_first() =~= s.drop_first().drop_last());
        assert(s.drop_first().last() == s.last());
        assert(concat_encodings(s, field) =~= s[0].spec_encoding(field) + concat_encodings(
            s.drop_first(),
            field,
        ));
    }
}

/// The entries after the first read back when all entries do, and the
/// values of `t` are the first one's followed by those of the rest.
proof fn lemma_rest_reads_back<'m, V: EncodeMessage + DecodeMessage<'m>>(t: Seq<V>)
    requires
        t.len() > 0,
        forall|i: int| 0 <= i < t.len() ==> reads_back::<V>(#[trigger] t[i]),
    ensures
        forall|i: int| 0 <= i < t.drop_first().len() ==> reads_back::<V>(#[trigger] t.drop_first()[i]),
        deep_views(t) == seq![t[0].deep_view()] + deep_views(t.drop_first()),
{
    assert forall|i: int| 0 <= i < t.drop_first().len() implies reads_back::<V>(
        #[trigger] t.drop_first()[i],
    ) by {
        assert(t.drop_first()[i] == t[i + 1]);
    }
    assert(deep_views(t) =~= seq![t[0].deep_view()] + deep_views(t.drop_first()));
}

/// Merging the value that an entry that reads back is written as pushes
/// the entry.
proof fn lemma_merge_one<'m, V: EncodeMessage + DecodeMessage<'m>>(
    seq: Seq<V::V>,
    v: V,
    k: KindModel,
)
    requires
        written_as::<V>(v, k),
    ensures
        vec_merge_field::<V>(seq, k) == (seq.push(v.deep_view()), Ok::<(), DecodeError>(())),
        vec_merge_one::<V>(seq, k) == (seq.push(v.deep_view()), Ok::<(), DecodeError>(())),
{
}

/// Entries that read back, written as fields of their own with number 1,
/// are read back one after the other.
proof fn lemma_fields<'m, V: EncodeMessage + DecodeMessage<'m>>(seq: Seq<V::V>, t: Seq<V>)
    requires
        forall|i: int| 0 <= i < t.len() ==> reads_back::<V>(#[trigger] t[i]),
    ensures
        vec_merge_message::<V>(seq, concat_encodings(t, nested(1))) == (seq + deep_views(t), Ok::<
            (),
            DecodeError,
        >(())),
    decreases t.len(),
{
    let bytes = concat_encodings(t, nested(1));
    if t.len() == 0 {
        assert(bytes =~= Seq::<u8>::empty());
        assert(seq + deep_views(t) =~= seq);
    } else {
        lemma_concat_front(t, nested(1));
        lemma_rest_reads_back(t);
        assert(reads_back::<V>(t[0]));
        let k = choose|k: KindModel| written_as::<V>(t[0], k);
        let first = tag_bytes(1, spec_kind_wire_type(k)) + kind_bytes(k);
        assert(t[0].spec_encoding(nested(1)) == first);
        let rest = concat_encodings(t.drop_first(), nested(1));
        assert(bytes =~= first + rest);
        law_field_roundtrip(1, k, rest);
        law_kind_roundtrip(k, rest);
        assert(bytes.skip(first.len() as int) =~= rest);
        lemma_merge_one(seq, t[0], k);
        lemma_fields(seq.push(t[0].deep_view()), t.drop_first());
        assert(seq.push(t[0].deep_view()) + deep_views(t.drop_first()) =~= seq + deep_views(t));
    }
}

/// Entries that read back and whose wire type is packed, written one after
/// the other without tags, are read back one after the other.
proof fn lemma_packed<'m, V: EncodeMessage + DecodeMessage<'m>>(seq: Seq<V::V>, t: Seq<V>)
    requires
        <V as DecodeMessage<'m>>::spec_wire_type().spec_can_be_packed(),
        forall|i: int| 0 <= i < t.len() ==> reads_back::<V>(#[trigger] t[i]),
    ensures
        vec_merge_packed::<V>(seq, concat_encodings(t, None)) == (seq + deep_views(t), Ok::<
            (),
            DecodeError,
        >(())),
    decreases t.len(),
{
    let bytes = concat_encodings(t, None);
    if t.len() == 0 {
        assert(bytes =~= Seq::<u8>::empty());
        assert(seq + deep_views(t) =~= seq);
    } else {
        lemma_concat_front(t, None);
        lemma_rest_reads_back(t);
        assert(reads_back::<V>(t[0]));
        let k = choose|k: KindModel| written_as::<V>(t[0], k);
        let first = kind_bytes(k);
        let rest = concat_encodings(t.drop_first(), None);
        assert(bytes =~= first + rest);
        law_kind_roundtrip(k, rest);
        assert(spec_read_kind(bytes, <V as DecodeMessage<'m>>::spec_wire_type()) == (Ok::<
            KindModel,
            DecodeError,
        >(k), first.len()));
        assert(bytes.skip(first.len() as int) =~= rest);
        lemma_merge_one(seq, t[0], k);
        lemma_packed(seq.push(t[0].deep_view()), t.drop_first());
        assert(seq.push(t[0].deep_view()) + deep_views(t.drop_first()) =~= seq + deep_views(t));
    }
}

/// The bytes of a length delimited field are its tag and its value.
proof fn lemma_len_field_kind(num: u64, body: Seq<u8>)
    ensures
        len_field(num, body) == tag_bytes(num, spec_kind_wire_type(KindModel::Len(body))) + kind_bytes(
            KindModel::Len(body),
        ),
{
    assert(len_field(num, body) =~= tag_bytes(num, spec_kind_wire_type(KindModel::Len(body)))
        + kind_bytes(KindModel::Len(body)));
}

/// A message whose bytes, read as fields, end after its field with number 1
/// is read whole.
proof fn lemma_read_to_end(bytes: Seq<u8>)
    ensures
        bytes.skip(bytes.len() as int) == Seq::<u8>::empty(),
        spec_read_field(Seq::<u8>::empty()).0 == Ok::<Option<(u64, KindModel)>, DecodeError>(None),
{
    assert(bytes.skip(bytes.len() as int) =~= Seq::<u8>::empty());
}

/// A sequence of entries that each read back reads back: written as a
/// message it is read as the same entries, packed or as fields of their own
/// alike, and written as a field it is one length delimited field. Its
/// encoding needs a length that fits in a `u64`.
pub proof fn law_vec_reads_back<'m, V: EncodeMessage + DecodeMessage<'m>>(t: Vec<V>)
    requires
        forall|i: int| 0 <= i < t@.len() ==> reads_back::<V>(#[trigger] t@[i]),
        t.spec_encoding(None).len() <= u64::MAX,
    ensures
        written_as::<Vec<V>>(t, KindModel::Len(t.spec_encoding(None))),
{
    let s = t@;
    let enc = t.spec_encoding(None);
    let k = KindModel::Len(enc);
    assert(t.deep_view() =~= deep_views(s));
    assert forall|num: u64| num < 0x2000_0000_0000_0000 implies #[trigger] t.spec_encoding(
        nested(num),
    ) == tag_bytes(num, spec_kind_wire_type(k)) + kind_bytes(k) by {
        lemma_len_field_kind(num, enc);
    }
    let empty = Seq::<V::V>::empty();
    assert(empty + deep_views(s) =~= deep_views(s));
    if s.len() > 1 && <V as EncodeMessage>::spec_wire_type().spec_can_be_packed() {
        assert(reads_back::<V>(s[0]));
        let k0 = choose|k0: KindModel| written_as::<V>(s[0], k0);
        assert(<V as DecodeMessage<'m>>::spec_wire_type().spec_can_be_packed());
        let packed = concat_encodings(s, None);
        assert(enc == len_field(1, packed));
        let pk = KindModel::Len(packed);
        lemma_len_field_kind(1, packed);
        law_field_roundtrip(1, pk, Seq::empty());
        assert(tag_bytes(1, spec_kind_wire_type(pk)) + kind_bytes(pk) + Seq::<u8>::empty() =~= enc);
        lemma_packed(empty, s);
        assert(vec_merge_field::<V>(empty, pk) == (deep_views(s), Ok::<(), DecodeError>(())));
        lemma_read_to_end(enc);
        assert(vec_merge_message::<V>(deep_views(s), Seq::<u8>::empty()) == (deep_views(s), Ok::<
            (),
            DecodeError,
        >(())));
        assert(spec_read_field(enc).1 == enc.len());
        assert(vec_merge_message::<V>(empty, enc) == (deep_views(s), Ok::<(), DecodeError>(())));
    } else {
        assert(enc == concat_encodings(s, nested(1)));
        lemma_fields(empty, s);
    }
}

/// An option whose value, if any, reads back reads back: written as a
/// message it is read as the same option, and written as a field it is one
/// length delimited field. Its encoding needs a length that fits in a `u64`.
pub proof fn law_option_reads_back<'m, V: EncodeMessage + DecodeMessage<'m>>(o: Option<V>)
    requires
        o matches Some(v) ==> reads_back::<V>(v),
        o.spec_encoding(None).len() <= u64::MAX,
    ensures
        written_as::<Option<V>>(o, KindModel::Len(o.spec_encoding(None))),
{
    let enc = o.spec_encoding(None);
    let k = KindModel::Len(enc);
    assert forall|num: u64| num < 0x2000_0000_0000_0000 implies #[trigger] o.spec_encoding(
        nested(num),
    ) == tag_bytes(num, spec_kind_wire_type(k)) + kind_bytes(k) by {
        lemma_len_field_kind(num, enc);
    }
    assert(enc == option_plain(o, 1));
    match o {
        None => {
            assert(enc =~= Seq::<u8>::empty());
            assert(option_merge_message::<V>(None, enc) == (None::<V::V>, Ok::<(), DecodeError>(())));
        },
        Some(v) => {
            let kv = choose|kv: KindModel| written_as::<V>(v, kv);
            let first = tag_bytes(1, spec_kind_wire_type(kv)) + kind_bytes(kv);
            assert(v.spec_encoding(nested(1)) == first);
            law_field_roundtrip(1, kv, Seq::empty());
            assert(first + Seq::<u8>::empty() =~= enc);
            assert(option_merge_field::<V>(None, kv) == (Some(v.deep_view()), Ok::<(), DecodeError>(())));
            lemma_read_to_end(enc);
            assert(option_merge_message::<V>(Some(v.deep_view()), Seq::<u8>::empty()) == (Some(
                v.deep_view(),
            ), Ok::<(), DecodeError>(())));
            assert(spec_read_field(enc).1 == enc.len());
            assert(option_merge_message::<V>(None, enc) == (Some(v.deep_view()), Ok::<(), DecodeError>(())));
        },
    }
}

/// A `u64` is written as the varint of itself.
pub proof fn law_u64_reads_back<'m>(v: u64)
    ensures
        written_as::<u64>(v, KindModel::Varint(v)),
{
}

/// A `u32` is written as the varint of itself.
pub proof fn law_u32_reads_back<'m>(v: u32)
    ensures
        written_as::<u32>(v, KindModel::Varint(v as u64)),
{
}

/// An `i64` is written as the varint of its two's complement bits.
pub proof fn law_i64_reads_back<'m>(v: i64)
    ensures
        written_as::<i64>(v, KindModel::Varint(v as u64)),
{
    assert((v as u64) as i64 == v) by (bit_vector);
}

/// An `i32` is written as the varint of its bits, sign extended to 64.
pub proof fn law_i32_reads_back<'m>(v: i32)
    ensures
        written_as::<i32>(v, KindModel::Varint(v as u64)),
{
    assert((v as u64) as i32 == v) by (bit_vector);
}

/// A `bool` is written as the varint 1 or 0.
pub proof fn law_bool_reads_back<'m>(v: bool)
    ensures
        written_as::<bool>(v, KindModel::Varint(if v { 1 } else { 0 })),
{
}

/// A byte string is written as a length delimited value of its bytes.
pub proof fn law_bytes_reads_back<'m>(b: Vec<u8>)
    requires
        b@.len() <= u64::MAX,
    ensures
        written_as::<Vec<u8>>(b, KindModel::Len(b@)),
{
    assert(b.deep_view() =~= b@);
    assert forall|num: u64| num < 0x2000_0000_0000_0000 implies #[trigger] b.spec_encoding(nested(num))
        == tag_bytes(num, spec_kind_wire_type(KindModel::Len(b@))) + kind_bytes(KindModel::Len(b@)) by {
        lemma_len_field_kind(num, b@);
    }
}

/// A byte array is written as a length delimited value of its bytes, and
/// read back since it has as many bytes as the array.
pub proof fn law_array_reads_back<'m, const S: usize>(a: [u8; S])
    ensures
        written_as::<[u8; S]>(a, KindModel::Len(a@)),
{
    assert(a.deep_view() =~= a@);
    assert forall|num: u64| num < 0x2000_0000_0000_0000 implies #[trigger] a.spec_encoding(nested(num))
        == tag_bytes(num, spec_kind_wire_type(KindModel::Len(a@))) + kind_bytes(KindModel::Len(a@)) by {
        lemma_len_field_kind(num, a@);
    }
}

/// A string is written as a length delimited value of its UTF-8 bytes.
pub proof fn law_string_reads_back<'m>(s: String)
    requires
        encode_utf8(s@).len() <= u64::MAX,
    ensures
        written_as::<String>(s, KindModel::Len(encode_utf8(s@))),
{
    vstd::utf8::encode_utf8_valid_utf8(s@);
    vstd::utf8::encode_utf8_decode_utf8(s@);
    assert forall|num: u64| num < 0x2000_0000_0000_0000 implies #[trigger] s.spec_encoding(nested(num))
        == tag_bytes(num, spec_kind_wire_type(KindModel::Len(encode_utf8(s@)))) + kind_bytes(
        KindModel::Len(encode_utf8(s@)),
    ) by {
        lemma_len_field_kind(num, encode_utf8(s@));
    }
}

/// A `Vec<u64>` written as a message is read back as the same numbers
/// (packed when there is more than one), as long as its encoding is not
/// longer than a `u64` can count.
pub proof fn law_vec_u64_roundtrip<'m>(t: Vec<u64>)
    requires
        t.spec_encoding(None).len() <= u64::MAX,
    ensures
        <Vec<u64> as DecodeMessage<'m>>::spec_merge(
            <Vec<u64> as DecodeMessage<'m>>::spec_decode_default(),
            KindModel::Len(t.spec_encoding(None)),
            false,
        ) == (t.deep_view(), Ok::<(), DecodeError>(())),
{
    assert forall|i: int| 0 <= i < t@.len() implies reads_back::<u64>(#[trigger] t@[i]) by {
        law_u64_reads_back(t@[i]);
    }
    law_vec_reads_back::<u64>(t);
}

} // verus!
