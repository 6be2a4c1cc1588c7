use super::error::MessageError;
use crate::packet::PacketError;
use crate::packet::packet::{Flags, Packet, PacketHeader, flags_from_u8, lemma_flags_from_u8};
use crate::packet::bytes::PacketBytes;
use crate::fixed_bytes::{
    write_be, read_be, be_bytes, be_value, lemma_be_bytes_len, lemma_be_value_bound,
    lemma_pow256_values, lemma_be_roundtrip,
};

use vstd::prelude::*;

verus! {

/// What a message asks for.
///
/// ## Important
/// the number *zero* is not allowed to be used
pub trait Action: Sized + Copy {
    open spec fn spec_from_u16(num: u16) -> Option<Self> {
        arbitrary()
    }

    open spec fn spec_as_u16(&self) -> u16 {
        arbitrary()
    }

    /// No limit, unless the action sets one.
    open spec fn spec_max_body_size(header: Header<Self>) -> Option<u32> {
        None
    }

    /// should try to convert an u16 to the action
    ///
    /// 0 will never be passed as num
    fn from_u16(num: u16) -> (r: Option<Self>)
        ensures
            r == Self::spec_from_u16(num),
    ;

    fn as_u16(&self) -> (r: u16)
        ensures
            r == self.spec_as_u16(),
    ;

    /// The largest body a message with this header may have, if any.
    fn max_body_size(header: &Header<Self>) -> (r: Option<u32>)
        ensures
            r == Self::spec_max_body_size(*header),
    ;
}

/// In bits
/// +----------+---------+
/// | reserved | success |
/// +----------+---------+
/// |    7     |    1    |
/// +----------+---------+
#[derive(Debug, Clone, Copy, PartialEq, Eq)]
pub struct MessageFlags {
    inner: u8,
}

impl View for MessageFlags {
    type V = u8;

    closed spec fn view(&self) -> u8 {
        self.inner
    }
}

pub open spec fn success_bit(flags: u8) -> bool {
    flags % 2 == 1
}

impl MessageFlags {
    pub closed spec fn spec_from_u8(inner: u8) -> Self {
        MessageFlags { inner }
    }

    pub proof fn lemma_from_u8(inner: u8, f: Self)
        ensures
            Self::spec_from_u8(inner)@ == inner,
            Self::spec_from_u8(f@) == f,
    {
    }

    pub fn new(success: bool) -> (r: Self)
        ensures
            r@ == (if success { 1u8 } else { 0u8 }),
            success_bit(r@) == success,
    {
        let mut me = MessageFlags { inner: 0 };
        me.set_success(success);
        assert(0u8 | 1u8 == 1u8) by (bit_vector);
        me
    }

    pub fn from_u8(inner: u8) -> (r: Self)
        ensures
            r@ == inner,
            r == Self::spec_from_u8(inner),
    {
        MessageFlags { inner }
    }

    pub fn is_success(&self) -> (r: bool)
        ensures
            r == success_bit(self@),
    {
        let inner = self.inner;
        assert((inner & 1u8 != 0u8) == (inner % 2 == 1)) by (bit_vector);
        inner & 1u8 != 0
    }

    /// Sets the success bit when `success` is true; it never clears it.
    pub fn set_success(&mut self, success: bool)
        ensures
            success ==> final(self)@ == old(self)@ | 1u8,
            !success ==> final(self)@ == old(self)@,
            success ==> success_bit(final(self)@),
            !success ==> success_bit(final(self)@) == success_bit(old(self)@),
    {
        let inner = self.inner;
        let bit: u8 = if success { 1 } else { 0 };
        assert(inner | 0u8 == inner) by (bit_vector);
        assert((inner | 1u8) % 2 == 1) by (bit_vector);
        self.inner = inner | bit;
    }

    pub fn as_u8(&self) -> (r: u8)
        ensures
            r == self@,
    {
        self.inner
    }
}

/// The action of a header as it was read.
#[derive(Debug, Clone, Copy, PartialEq, Eq)]
pub enum MaybeAction<A> {
    Action(A),
    /// zero will never be here
    Unknown(u16),
    /// Represented as 0
    NoAction,
}

pub open spec fn maybe_action_num<A: Action>(a: MaybeAction<A>) -> u16 {
    match a {
        MaybeAction::Action(a) => a.spec_as_u16(),
        MaybeAction::Unknown(u) => u,
        MaybeAction::NoAction => 0,
    }
}

/// The action a number stands for: 0 for none, a number the action type
/// does not know for an unknown action.
pub open spec fn maybe_action_from_num<A: Action>(num: u16) -> MaybeAction<A> {
    if num == 0 {
        MaybeAction::NoAction
    } else {
        match A::spec_from_u16(num) {
            Some(a) => MaybeAction::Action(a),
            None => MaybeAction::Unknown(num),
        }
    }
}

impl<A: Action> MaybeAction<A> {
    pub fn as_u16(&self) -> (r: u16)
        ensures
            r == maybe_action_num(*self),
    {
        match self {
            MaybeAction::Action(a) => a.as_u16(),
            MaybeAction::Unknown(u) => *u,
            MaybeAction::NoAction => 0,
        }
    }
}

#[derive(Debug, Clone, PartialEq, Eq)]
pub struct Header<A> {
    body_len: u32,
    flags: Flags,
    msg_flags: MessageFlags,
    id: u32,
    action: MaybeAction<A>,
}

/// The bytes of a header: the body length, the flags, the message flags,
/// the id and the action number, numbers in big endian.
pub open spec fn header_bytes(body_len: u32, flags: u8, msg_flags: u8, id: u32, action: u16) -> Seq<u8> {
    be_bytes(body_len as nat, 4) + seq![flags, msg_flags] + be_bytes(id as nat, 4) + be_bytes(
        action as nat,
        2,
    )
}

pub open spec fn bytes_body_len(bytes: Seq<u8>) -> u32 {
    be_value(bytes.subrange(0, 4)) as u32
}

pub open spec fn bytes_id(bytes: Seq<u8>) -> u32 {
    be_value(bytes.subrange(6, 10)) as u32
}

pub open spec fn bytes_action(bytes: Seq<u8>) -> u16 {
    be_value(bytes.subrange(10, 12)) as u16
}

impl<A> Header<A> {
    pub closed spec fn spec_new(
        body_len: u32,
        flags: Flags,
        msg_flags: MessageFlags,
        id: u32,
        action: MaybeAction<A>,
    ) -> Self {
        Header { body_len, flags, msg_flags, id, action }
    }

    pub closed spec fn spec_body_len32(&self) -> u32 {
        self.body_len
    }

    pub closed spec fn spec_flags_of(&self) -> Flags {
        self.flags
    }

    pub closed spec fn spec_msg_flags(&self) -> MessageFlags {
        self.msg_flags
    }

    pub closed spec fn spec_id_of(&self) -> u32 {
        self.id
    }

    pub closed spec fn spec_action(&self) -> MaybeAction<A> {
        self.action
    }

    /// A header is made of its fields.
    pub proof fn lemma_fields(h: Self)
        ensures
            h == Self::spec_new(
                h.spec_body_len32(),
                h.spec_flags_of(),
                h.spec_msg_flags(),
                h.spec_id_of(),
                h.spec_action(),
            ),
            forall|b: u32, f: Flags, m: MessageFlags, i: u32, a: MaybeAction<A>|
                #![trigger Self::spec_new(b, f, m, i, a)]
                {
                    let n = Self::spec_new(b, f, m, i, a);
                    &&& n.spec_body_len32() == b
                    &&& n.spec_flags_of() == f
                    &&& n.spec_msg_flags() == m
                    &&& n.spec_id_of() == i
                    &&& n.spec_action() == a
                },
    {
    }
}

/// The header read from `bytes`, before the body size check.
pub open spec fn spec_parse_header<A: Action>(bytes: Seq<u8>) -> Header<A> {
    Header::spec_new(
        bytes_body_len(bytes),
        flags_from_u8(bytes[4]),
        MessageFlags::spec_from_u8(bytes[5]),
        bytes_id(bytes),
        maybe_action_from_num(bytes_action(bytes)),
    )
}

impl<A: Action> Header<A> {
    /// A header with nothing set but the success flag.
    pub fn empty() -> (r: Self)
        ensures
            r == Self::spec_new(0, flags_from_u8(0), MessageFlags::spec_from_u8(1), 0, MaybeAction::NoAction),
    {
        let flags = Flags::empty();
        proof {
            lemma_flags_from_u8(0, flags);
        }
        let msg_flags = MessageFlags::new(true);
        proof {
            MessageFlags::lemma_from_u8(1, msg_flags);
        }
        Header { body_len: 0, flags, msg_flags, id: 0, action: MaybeAction::NoAction }
    }

    /// Writes the header after the bytes `bytes` holds.
    pub fn to_bytes(&self, bytes: &mut Vec<u8>)
        ensures
            final(bytes)@ == old(bytes)@ + header_bytes(
                self.spec_body_len32(),
                self.spec_flags_of()@,
                self.spec_msg_flags()@,
                self.spec_id_of(),
                maybe_action_num(self.spec_action()),
            ),
    {
        let ghost start = bytes@;
        write_be(bytes, self.body_len as u64, 4);
        bytes.push(self.flags.as_u8());
        bytes.push(self.msg_flags.as_u8());
        write_be(bytes, self.id as u64, 4);
        write_be(bytes, self.action.as_u16() as u64, 2);
        assert(bytes@ =~= start + header_bytes(
            self.body_len,
            self.flags@,
            self.msg_flags@,
            self.id,
            maybe_action_num(self.action),
        ));
    }

    pub fn set_action(&mut self, action: A)
        ensures
            *final(self) == Self::spec_new(
                old(self).spec_body_len32(),
                old(self).spec_flags_of(),
                old(self).spec_msg_flags(),
                old(self).spec_id_of(),
                MaybeAction::Action(action),
            ),
    {
        self.action = MaybeAction::Action(action);
    }
}

impl<A: Action> PacketHeader for Header<A> {
    open spec fn spec_len() -> nat {
        12
    }

    /// A body longer than the action allows is no header.
    open spec fn spec_from_bytes(bytes: Seq<u8>) -> Option<Self> {
        let h = spec_parse_header::<A>(bytes);
        match A::spec_max_body_size(h) {
            Some(max) => if bytes_body_len(bytes) > max {
                None
            } else {
                Some(h)
            },
            None => Some(h),
        }
    }

    closed spec fn spec_body_len(&self) -> nat {
        self.body_len as nat
    }

    closed spec fn spec_flags(&self) -> Flags {
        self.flags
    }

    closed spec fn spec_id(&self) -> u32 {
        self.id
    }

    fn len() -> (r: usize) {
        4 + 1 + 1 + 4 + 2
    }

    fn from_bytes(bytes: &[u8]) -> (r: crate::packet::Result<Self>)
        ensures
            Self::spec_from_bytes(bytes@) is None ==> (r matches Err(PacketError::BodyLimitReached(max))
                && A::spec_max_body_size(spec_parse_header::<A>(bytes@)) matches Some(m) && max == m as usize),
    {
        proof {
            lemma_be_value_bound(bytes@.subrange(0, 4));
            lemma_be_value_bound(bytes@.subrange(6, 10));
            lemma_be_value_bound(bytes@.subrange(10, 12));
            lemma_pow256_values();
        }
        let body_len = read_be(bytes, 0, 4) as u32;
        let flags = Flags::from_u8(bytes[4])?;
        let msg_flags = MessageFlags::from_u8(bytes[5]);
        let id = read_be(bytes, 6, 4) as u32;
        let action_num = read_be(bytes, 10, 2) as u16;
        let action = if action_num == 0 {
            MaybeAction::NoAction
        } else if let Some(action) = A::from_u16(action_num) {
            // we don't return an error here
            // since we wan't to get the package
            // and can still discard it later
            // this allows the connection to continue to exist
            // without closing it
            MaybeAction::Action(action)
        } else {
            MaybeAction::Unknown(action_num)
        };
        let me = Header { body_len, flags, msg_flags, id, action };
        if let Some(max) = A::max_body_size(&me) {
            if me.body_len > max {
                return Err(PacketError::BodyLimitReached(max as usize));
            }
        }
        Ok(me)
    }

    fn body_len(&self) -> (r: usize) {
        self.body_len as usize
    }

    fn flags(&self) -> (r: &Flags) {
        &self.flags
    }

    fn set_flags(&mut self, flags: Flags)
        ensures
            *final(self) == Self::spec_new(
                old(self).spec_body_len32(),
                flags,
                old(self).spec_msg_flags(),
                old(self).spec_id_of(),
                old(self).spec_action(),
            ),
    {
        self.flags = flags;
    }

    fn id(&self) -> (r: u32) {
        self.id
    }

    fn set_id(&mut self, id: u32)
        ensures
            *final(self) == Self::spec_new(
                old(self).spec_body_len32(),
                old(self).spec_flags_of(),
                old(self).spec_msg_flags(),
                id,
                old(self).spec_action(),
            ),
    {
        self.id = id;
    }
}

/// A header written with `to_bytes` is read back by `from_bytes` as the same
/// header, when its action number reads back as the same action and its
/// body fits the limit the action sets.
pub proof fn law_header_roundtrip<A: Action>(h: Header<A>)
    requires
        maybe_action_from_num::<A>(maybe_action_num(h.spec_action())) == h.spec_action(),
        A::spec_max_body_size(h) matches Some(max) ==> h.spec_body_len32() <= max,
    ensures
        <Header<A> as PacketHeader>::spec_from_bytes(
            header_bytes(
                h.spec_body_len32(),
                h.spec_flags_of()@,
                h.spec_msg_flags()@,
                h.spec_id_of(),
                maybe_action_num(h.spec_action()),
            ),
        ) == Some(h),
{
    let an = maybe_action_num(h.spec_action());
    let b = header_bytes(
        h.spec_body_len32(),
        h.spec_flags_of()@,
        h.spec_msg_flags()@,
        h.spec_id_of(),
        an,
    );
    lemma_pow256_values();
    lemma_be_bytes_len(h.spec_body_len32() as nat, 4);
    lemma_be_bytes_len(h.spec_id_of() as nat, 4);
    lemma_be_bytes_len(an as nat, 2);
    lemma_be_roundtrip(h.spec_body_len32() as nat, 4);
    lemma_be_roundtrip(h.spec_id_of() as nat, 4);
    lemma_be_roundtrip(an as nat, 2);
    assert(b.subrange(0, 4) =~= be_bytes(h.spec_body_len32() as nat, 4));
    assert(b.subrange(6, 10) =~= be_bytes(h.spec_id_of() as nat, 4));
    assert(b.subrange(10, 12) =~= be_bytes(an as nat, 2));
    lemma_flags_from_u8(b[4], h.spec_flags_of());
    MessageFlags::lemma_from_u8(b[5], h.spec_msg_flags());
    Header::<A>::lemma_fields(h);
}

/// A message: a header and the bytes of the packet.
#[derive(Debug, Clone, PartialEq, Eq)]
pub struct Message<A, B> {
    header: Header<A>,
    bytes: B,
}

impl<A: Action, B: PacketBytes> Message<A, B> {
    pub closed spec fn spec_body(&self) -> Seq<u8> {
        self.bytes.spec_body()
    }

    pub fn new() -> (r: Self)
        ensures
            r.spec_header() == Header::<A>::spec_new(
                0,
                flags_from_u8(0),
                MessageFlags::spec_from_u8(1),
                0,
                MaybeAction::NoAction,
            ),
            r.spec_body() == Seq::<u8>::empty(),
            r.spec_wf(),
    {
        Message { header: Header::empty(), bytes: B::new(Header::<A>::len()) }
    }

    pub fn set_success(&mut self, success: bool)
        ensures
            success ==> success_bit(final(self).spec_header().spec_msg_flags()@),
            !success ==> final(self).spec_header() == old(self).spec_header(),
            final(self).spec_header().spec_action() == old(self).spec_header().spec_action(),
            final(self).spec_header().spec_id_of() == old(self).spec_header().spec_id_of(),
            final(self).spec_header().spec_flags_of() == old(self).spec_header().spec_flags_of(),
            final(self).spec_body() == old(self).spec_body(),
            final(self).spec_wf() == old(self).spec_wf(),
    {
        self.header.msg_flags.set_success(success);
        proof {
            if !success {
                MessageFlags::lemma_from_u8(self.header.msg_flags@, self.header.msg_flags);
                MessageFlags::lemma_from_u8(old(self).header.msg_flags@, old(self).header.msg_flags);
            }
        }
    }

    pub fn is_success(&self) -> (r: bool)
        ensures
            r == success_bit(self.spec_header().spec_msg_flags()@),
    {
        self.header.msg_flags.is_success()
    }

    pub fn body(&self) -> (r: &[u8])
        ensures
            r@ == self.spec_body(),
    {
        self.bytes.body()
    }

    /// Writes at the end of the body.
    pub fn write_body(&mut self, bytes: &[u8])
        ensures
            final(self).spec_body() == old(self).spec_body() + bytes@,
            final(self).spec_header() == old(self).spec_header(),
            final(self).spec_wf() == old(self).spec_wf(),
    {
        self.bytes.write_body(bytes);
    }

    pub fn action(&self) -> (r: Option<&A>)
        ensures
            match self.spec_header().spec_action() {
                MaybeAction::Action(a) => r == Some(&a),
                _ => r is None,
            },
    {
        match &self.header.action {
            MaybeAction::Action(a) => Some(a),
            _ => None,
        }
    }
}

impl<A: Action, B: PacketBytes> Packet<B> for Message<A, B> {
    type Header = Header<A>;

    closed spec fn spec_header(&self) -> Header<A> {
        self.header
    }

    closed spec fn spec_wf(&self) -> bool {
        self.bytes.spec_header().len() == 12
    }

    fn header(&self) -> (r: &Header<A>) {
        &self.header
    }

    fn header_mut(&mut self) -> (r: &mut Header<A>)
        ensures
            final(self).spec_body() == old(self).spec_body(),
    {
        &mut self.header
    }

    fn empty() -> (r: Self)
        ensures
            r.spec_header() == Header::<A>::spec_new(
                0,
                flags_from_u8(0),
                MessageFlags::spec_from_u8(1),
                0,
                MaybeAction::NoAction,
            ),
            r.spec_body() == Seq::<u8>::empty(),
    {
        Message { header: Header::empty(), bytes: B::new(Header::<A>::len()) }
    }

    fn from_bytes_and_header(bytes: B, header: Header<A>) -> (r: crate::packet::Result<Self>)
        ensures
            r matches Ok(m) && m.spec_header() == header && m.spec_body() == bytes.spec_body(),
    {
        // the action is not checked here
        Ok(Message { header, bytes })
    }

    /// Sets the body length in the header and writes the header to the
    /// bytes.
    fn into_bytes(self) -> (r: B)
        ensures
            r.spec_body() == self.spec_body(),
            r.spec_header() == header_bytes(
                self.spec_body().len() as u32,
                self.spec_header().spec_flags_of()@,
                self.spec_header().spec_msg_flags()@,
                self.spec_header().spec_id_of(),
                maybe_action_num(self.spec_header().spec_action()),
            ),
    {
        let mut this = self;
        let body_len = this.bytes.body().len();
        this.header.body_len = body_len as u32;
        let mut header: Vec<u8> = Vec::new();
        this.header.to_bytes(&mut header);
        proof {
            lemma_be_bytes_len(this.header.body_len as nat, 4);
            lemma_be_bytes_len(this.header.id as nat, 4);
            lemma_be_bytes_len(maybe_action_num(this.header.action) as nat, 2);
        }
        this.bytes.set_header(header.as_slice());
        this.bytes
    }
}

/// The bytes of a message (`into_bytes`) are read back (`from_bytes`, then
/// `from_bytes_and_header`) as the same message, with the length of its body
/// as the body length of its header: when its action number reads back as
/// the same action and its body fits the limit the action sets.
pub proof fn law_message_roundtrip<A: Action, B: PacketBytes>(m: Message<A, B>)
    requires
        m.spec_body().len() <= u32::MAX,
        maybe_action_from_num::<A>(maybe_action_num(m.spec_header().spec_action())) == m.spec_header().spec_action(),
        ({
            let h = m.spec_header();
            let n = Header::<A>::spec_new(
                m.spec_body().len() as u32,
                h.spec_flags_of(),
                h.spec_msg_flags(),
                h.spec_id_of(),
                h.spec_action(),
            );
            A::spec_max_body_size(n) matches Some(max) ==> m.spec_body().len() <= max
        }),
    ensures
        ({
            let h = m.spec_header();
            <Header<A> as PacketHeader>::spec_from_bytes(
                header_bytes(
                    m.spec_body().len() as u32,
                    h.spec_flags_of()@,
                    h.spec_msg_flags()@,
                    h.spec_id_of(),
                    maybe_action_num(h.spec_action()),
                ),
            ) == Some(
                Header::<A>::spec_new(
                    m.spec_body().len() as u32,
                    h.spec_flags_of(),
                    h.spec_msg_flags(),
                    h.spec_id_of(),
                    h.spec_action(),
                ),
            )
        }),
{
    let h = m.spec_header();
    let n = Header::<A>::spec_new(
        m.spec_body().len() as u32,
        h.spec_flags_of(),
        h.spec_msg_flags(),
        h.spec_id_of(),
        h.spec_action(),
    );
    Header::<A>::lemma_fields(n);
    law_header_roundtrip(n);
}

/// Turns a value into a message.
pub trait IntoMessage<A, B> {
    fn into_message(self) -> Result<Message<A, B>, MessageError>;
}

/// Turns a message into a value.
pub trait FromMessage<A, B>: Sized {
    fn from_message(msg: Message<A, B>) -> Result<Self, MessageError>;
}

impl<A, B> IntoMessage<A, B> for Message<A, B> {
    fn into_message(self) -> (r: Result<Self, MessageError>)
        ensures
            r matches Ok(m) && m == self,
    {
        Ok(self)
    }
}

impl<A, B> FromMessage<A, B> for Message<A, B> {
    fn from_message(me: Self) -> (r: Result<Self, MessageError>)
        ensures
            r matches Ok(m) && m == me,
    {
        Ok(me)
    }
}

} // verus!
