use crate::packet::{PacketError, Result};
use crate::packet::packet::{Flags, Packet, PacketHeader, flags_from_u8, lemma_flags_from_u8};
use crate::packet::bytes::PacketBytes;
use crate::fixed_bytes::{
    write_be, read_be, be_bytes, be_value, lemma_be_bytes_len, lemma_be_value_bound,
    lemma_pow256_values, lemma_be_roundtrip,
};

use vstd::prelude::*;

verus! {

/// What a message asks for; the number zero is not allowed to be used.
pub trait Action: Sized + Copy {
    open spec fn spec_empty() -> Self {
        arbitrary()
    }

    open spec fn spec_from_u16(num: u16) -> Option<Self> {

        arbitrary()

    }

    open spec fn spec_as_u16(&self) -> u16 {
        arbitrary()
    }

    /// No limit, unless the action sets one.
    open spec fn spec_max_body_size(header: Header<Self>) -> Option<u32> {
        None
    }

    /// returns an Action that will never be returned
    fn empty() -> (r: Self)
        ensures
            r == Self::spec_empty(),
    ;

    /// should try to convert an u16 to the action
    ///
    /// 0 => needs to be converted to Self::empty()
    fn from_u16(num: u16) -> (r: Option<Self>)
        ensures
            r == Self::spec_from_u16(num),
    ;

    fn as_u16(&self) -> (r: u16)
        ensures
            r == self.spec_as_u16(),
    ;

    /// The largest body a message with this header may have, if any.
    fn max_body_size(header: &Header<Self>) -> (r: Option<u32>)
        ensures
            r == Self::spec_max_body_size(*header),
    ;
}

#[derive(Debug)]
pub struct Header<A> {
    body_len: u32,
    flags: Flags,
    id: u32,
    action: A,
}

/// The bytes of a header: the body length, the flags, the id and the
/// action number, numbers in big endian.
pub open spec fn header_bytes(body_len: u32, flags: u8, id: u32, action: u16) -> Seq<u8> {
    be_bytes(body_len as nat, 4) + seq![flags] + be_bytes(id as nat, 4) + be_bytes(action as nat, 2)
}

/// The length of the header's body field in `bytes`.
pub open spec fn bytes_body_len(bytes: Seq<u8>) -> u32 {
    be_value(bytes.subrange(0, 4)) as u32
}

pub open spec fn bytes_id(bytes: Seq<u8>) -> u32 {
    be_value(bytes.subrange(5, 9)) as u32
}

pub open spec fn bytes_action(bytes: Seq<u8>) -> u16 {
    be_value(bytes.subrange(9, 11)) as u16
}

impl<A> Header<A> {
    pub closed spec fn spec_new(body_len: u32, flags: Flags, id: u32, action: A) -> Self {
        Header { body_len, flags, id, action }
    }

    pub closed spec fn spec_action(&self) -> A {
        self.action
    }

    pub closed spec fn spec_body_len32(&self) -> u32 {
        self.body_len
    }

    pub closed spec fn spec_flags_of(&self) -> Flags {
        self.flags
    }

    pub closed spec fn spec_id_of(&self) -> u32 {
        self.id
    }

    /// A header is made of its fields.
    pub proof fn lemma_fields(h: Self)
        ensures
            h == Self::spec_new(h.spec_body_len32(), h.spec_flags_of(), h.spec_id_of(), h.spec_action()),
            Self::spec_new(h.spec_body_len32(), h.spec_flags_of(), h.spec_id_of(), h.spec_action()).spec_action() == h.spec_action(),
    {
    }
}

/// The header read from `bytes`, before the body size check: `None` when
/// the action is unknown.
pub open spec fn spec_parse_header<A: Action>(bytes: Seq<u8>) -> Option<Header<A>> {
    match A::spec_from_u16(bytes_action(bytes)) {
        Some(a) => Some(
            Header::spec_new(bytes_body_len(bytes), flags_from_u8(bytes[4]), bytes_id(bytes), a),
        ),
        None => None,
    }
}

impl<A: Action> Header<A> {
    pub fn empty() -> (r: Self)
        ensures
            r.spec_body_len32() == 0,
            r.spec_flags_of()@ == 0,
            r.spec_id_of() == 0,
            r.spec_action() == A::spec_empty(),
    {
        Header { body_len: 0, flags: Flags::empty(), id: 0, action: A::empty() }
    }

    /// Writes the header after the bytes `bytes` holds.
    pub fn to_bytes(&self, bytes: &mut Vec<u8>)
        ensures
            final(bytes)@ == old(bytes)@ + header_bytes(
                self.spec_body_len32(),
                self.spec_flags_of()@,
                self.spec_id_of(),
                self.spec_action().spec_as_u16(),
            ),
    {
        let ghost start = bytes@;
        write_be(bytes, self.body_len as u64, 4);
        bytes.push(self.flags.as_u8());
        write_be(bytes, self.id as u64, 4);
        write_be(bytes, self.action.as_u16() as u64, 2);
        assert(bytes@ =~= start + header_bytes(
            self.body_len,
            self.flags@,
            self.id,
            self.action.spec_as_u16(),
        ));
    }

    pub fn set_action(&mut self, action: A)
        ensures
            *final(self) == Self::spec_new(
                old(self).spec_body_len32(),
                old(self).spec_flags_of(),
                old(self).spec_id_of(),
                action,
            ),
    {
        self.action = action;
    }
}

impl<A: Action> PacketHeader for Header<A> {
    open spec fn spec_len() -> nat {
        11
    }

    /// An unknown action, or a body longer than the action allows, is no
    /// header.
    open spec fn spec_from_bytes(bytes: Seq<u8>) -> Option<Self> {
        match spec_parse_header::<A>(bytes) {
            Some(h) => match A::spec_max_body_size(h) {
                Some(max) => if bytes_body_len(bytes) > max {
                    None
                } else {
                    Some(h)
                },
                None => Some(h),
            },
            None => None,
        }
    }

    closed spec fn spec_body_len(&self) -> nat {
        self.body_len as nat
    }

    closed spec fn spec_flags(&self) -> Flags {
        self.flags
    }

    closed spec fn spec_id(&self) -> u32 {
        self.id
    }

    fn len() -> (r: usize) {
        4 + 1 + 4 + 2
    }

    fn from_bytes(bytes: &[u8]) -> (r: Result<Self>)
        ensures
            spec_parse_header::<A>(bytes@) is None ==> (r matches Err(PacketError::Header(s)) && s@
                == "Action unknown"@),
            spec_parse_header::<A>(bytes@) is Some && Self::spec_from_bytes(bytes@) is None ==> (
            r matches Err(PacketError::Body(s)) && s@ == "body to big"@),
    {
        proof {
            lemma_be_value_bound(bytes@.subrange(0, 4));
            lemma_be_value_bound(bytes@.subrange(5, 9));
            lemma_be_value_bound(bytes@.subrange(9, 11));
            lemma_pow256_values();
        }
        let body_len = read_be(bytes, 0, 4) as u32;
        let flags = Flags::from_u8(bytes[4])?;
        let id = read_be(bytes, 5, 4) as u32;
        let action = match A::from_u16(read_be(bytes, 9, 2) as u16) {
            Some(a) => a,
            None => return Err(PacketError::Header("Action unknown".to_owned())),
        };
        let me = Header { body_len, flags, id, action };
        if let Some(max) = A::max_body_size(&me) {
            if me.body_len > max {
                return Err(PacketError::Body("body to big".to_owned()));
            }
        }
        Ok(me)
    }

    fn body_len(&self) -> (r: usize) {
        self.body_len as usize
    }

    fn flags(&self) -> (r: &Flags) {
        &self.flags
    }

    fn set_flags(&mut self, flags: Flags)
        ensures
            *final(self) == Self::spec_new(
                old(self).spec_body_len32(),
                flags,
                old(self).spec_id_of(),
                old(self).spec_action(),
            ),
    {
        self.flags = flags;
    }

    fn id(&self) -> (r: u32) {
        self.id
    }

    fn set_id(&mut self, id: u32)
        ensures
            *final(self) == Self::spec_new(
                old(self).spec_body_len32(),
                old(self).spec_flags_of(),
                id,
                old(self).spec_action(),
            ),
    {
        self.id = id;
    }
}

/// A header written with `to_bytes` is read back by `from_bytes` as the same
/// header, when its action reads back as itself and its body fits the limit
/// the action sets.
pub proof fn law_header_roundtrip<A: Action>(h: Header<A>)
    requires
        A::spec_from_u16(h.spec_action().spec_as_u16()) == Some(h.spec_action()),
        A::spec_max_body_size(h) matches Some(max) ==> h.spec_body_len32() <= max,
    ensures
        <Header<A> as PacketHeader>::spec_from_bytes(
            header_bytes(
                h.spec_body_len32(),
                h.spec_flags_of()@,
                h.spec_id_of(),
                h.spec_action().spec_as_u16(),
            ),
        ) == Some(h),
{
    let b = header_bytes(
        h.spec_body_len32(),
        h.spec_flags_of()@,
        h.spec_id_of(),
        h.spec_action().spec_as_u16(),
    );
    lemma_pow256_values();
    lemma_be_bytes_len(h.spec_body_len32() as nat, 4);
    lemma_be_bytes_len(h.spec_id_of() as nat, 4);
    lemma_be_bytes_len(h.spec_action().spec_as_u16() as nat, 2);
    lemma_be_roundtrip(h.spec_body_len32() as nat, 4);
    lemma_be_roundtrip(h.spec_id_of() as nat, 4);
    lemma_be_roundtrip(h.spec_action().spec_as_u16() as nat, 2);
    assert(b.subrange(0, 4) =~= be_bytes(h.spec_body_len32() as nat, 4));
    assert(b.subrange(5, 9) =~= be_bytes(h.spec_id_of() as nat, 4));
    assert(b.subrange(9, 11) =~= be_bytes(h.spec_action().spec_as_u16() as nat, 2));
    lemma_flags_from_u8(b[4], h.spec_flags_of());
    Header::<A>::lemma_fields(h);
}

/// The bytes of a message (`into_bytes`) are read back (`from_bytes`, then
/// `from_bytes_and_header`) as the same message, with the length of its body
/// as the body length of its header: when its action reads back as itself
/// and its body fits the limit the action sets.
pub proof fn law_message_roundtrip<A: Action, B: PacketBytes>(m: Message<A, B>)
    requires
        m.spec_body().len() <= u32::MAX,
        A::spec_from_u16(m.spec_header().spec_action().spec_as_u16()) == Some(m.spec_header().spec_action()),
        ({
            let h = m.spec_header();
            let n = Header::<A>::spec_new(m.spec_body().len() as u32, h.spec_flags_of(), h.spec_id_of(), h.spec_action());
            A::spec_max_body_size(n) matches Some(max) ==> m.spec_body().len() <= max
        }),
    ensures
        ({
            let h = m.spec_header();
            <Header<A> as PacketHeader>::spec_from_bytes(
                header_bytes(
                    m.spec_body().len() as u32,
                    h.spec_flags_of()@,
                    h.spec_id_of(),
                    h.spec_action().spec_as_u16(),
                ),
            ) == Some(Header::<A>::spec_new(m.spec_body().len() as u32, h.spec_flags_of(), h.spec_id_of(), h.spec_action()))
        }),
{
    let h = m.spec_header();
    let n = Header::<A>::spec_new(m.spec_body().len() as u32, h.spec_flags_of(), h.spec_id_of(), h.spec_action());
    law_header_roundtrip(n);
}

#[derive(Debug)]
pub struct Message<A, B> {
    header: Header<A>,
    bytes: B,
}

impl<A: Action, B: PacketBytes> Message<A, B> {
    pub fn new() -> (r: Self)
        ensures
            r.spec_header().spec_body_len32() == 0,
            r.spec_header().spec_flags_of()@ == 0,
            r.spec_header().spec_id_of() == 0,
            r.spec_header().spec_action() == A::spec_empty(),
            r.spec_body() == Seq::<u8>::empty(),
            r.spec_wf(),
    {
        Message { header: Header::empty(), bytes: B::new(Header::<A>::len()) }
    }

    pub fn body(&self) -> (r: &[u8])
        ensures
            r@ == self.spec_body(),
    {
        self.bytes.body()
    }

    /// Writes at the end of the body.
    pub fn write_body(&mut self, bytes: &[u8])
        ensures
            final(self).spec_body() == old(self).spec_body() + bytes@,
            final(self).spec_header() == old(self).spec_header(),
            final(self).spec_wf() == old(self).spec_wf(),
    {
        self.bytes.write_body(bytes);
    }
}

impl<A, B: PacketBytes> Message<A, B> {
    pub closed spec fn spec_body(&self) -> Seq<u8> {
        self.bytes.spec_body()
    }
}

impl<A: Action, B: PacketBytes> Message<A, B> {
    pub fn action(&self) -> (r: &A)
        ensures
            *r == self.spec_header().spec_action(),
    {
        &self.header.action
    }
}

impl<A: Action, B: PacketBytes> Packet<B> for Message<A, B> {
    type Header = Header<A>;

    closed spec fn spec_header(&self) -> Header<A> {
        self.header
    }

    closed spec fn spec_wf(&self) -> bool {
        self.bytes.spec_header().len() == 11
    }

    fn header(&self) -> (r: &Header<A>) {
        &self.header
    }

    fn header_mut(&mut self) -> (r: &mut Header<A>)
        ensures
            final(self).spec_body() == old(self).spec_body(),
    {
        &mut self.header
    }

    fn empty() -> (r: Self)
        ensures
            r.spec_header().spec_flags_of()@ == 0,
            r.spec_header().spec_id_of() == 0,
            r.spec_header().spec_action() == A::spec_empty(),
            r.spec_body() == Seq::<u8>::empty(),
    {
        Message { header: Header::empty(), bytes: B::new(Header::<A>::len()) }
    }

    fn from_bytes_and_header(bytes: B, header: Header<A>) -> (r: Result<Self>)
        ensures
            r matches Ok(m) && m.spec_header() == header && m.spec_body() == bytes.spec_body(),
    {
        Ok(Message { header, bytes })
    }

    /// Sets the body length in the header and writes the header to the
    /// bytes.
    fn into_bytes(self) -> (r: B)
        ensures
            r.spec_body() == self.spec_body(),
            r.spec_header() == header_bytes(
                self.spec_body().len() as u32,
                self.spec_header().spec_flags_of()@,
                self.spec_header().spec_id_of(),
                self.spec_header().spec_action().spec_as_u16(),
            ),
    {
        let mut this = self;
        let body_len = this.bytes.body().len();
        this.header.body_len = body_len as u32;
        let mut header: Vec<u8> = Vec::new();
        this.header.to_bytes(&mut header);
        proof {
            lemma_be_bytes_len(this.header.body_len as nat, 4);
            lemma_be_bytes_len(this.header.id as nat, 4);
            lemma_be_bytes_len(this.header.action.spec_as_u16() as nat, 2);
        }
        this.bytes.set_header(header.as_slice());
        this.bytes
    }
}

} // verus!
