use super::PacketError;
use super::bytes::PacketBytes;

use vstd::prelude::*;

verus! {

/// What a packet is for; it is kept in the high four bits of the flags.
#[derive(Debug, Clone, Copy, PartialEq, Eq)]
pub enum Kind {
    Request,
    Response,
    NoResponse,
    Stream,
    NewStream,
    NewSenderStream,
    StreamClosed,
    Close,
    Ping,
    Unknown,
}

/// The number that stands for a kind; `Unknown` stands for the value that
/// is reserved for it and never written.
pub open spec fn kind_num(k: Kind) -> u8 {
    match k {
        Kind::Request => 1,
        Kind::Response => 2,
        Kind::NoResponse => 3,
        Kind::Stream => 4,
        Kind::NewStream => 5,
        Kind::NewSenderStream => 6,
        Kind::StreamClosed => 7,
        Kind::Close => 8,
        Kind::Ping => 9,
        Kind::Unknown => MAX_KIND,
    }
}

pub open spec fn kind_from_num(num: u8) -> Kind {
    if num == 1 {
        Kind::Request
    } else if num == 2 {
        Kind::Response
    } else if num == 3 {
        Kind::NoResponse
    } else if num == 4 {
        Kind::Stream
    } else if num == 5 {
        Kind::NewStream
    } else if num == 6 {
        Kind::NewSenderStream
    } else if num == 7 {
        Kind::StreamClosed
    } else if num == 8 {
        Kind::Close
    } else if num == 9 {
        Kind::Ping
    } else {
        Kind::Unknown
    }
}

// equivalent to expect response
pub const KIND_OFFSET: u8 = 4;

/// The value `Unknown` stands for: `u8::MAX << KIND_OFFSET`.
pub const MAX_KIND: u8 = 0xF0;

/// The bits of the flags that hold the kind.
pub const KIND_MASK: u8 = 0xF0;

impl Kind {
    pub fn from_num(num: u8) -> (r: Self)
        ensures
            r == kind_from_num(num),
    {
        match num {
            1 => Kind::Request,
            2 => Kind::Response,
            3 => Kind::NoResponse,
            4 => Kind::Stream,
            5 => Kind::NewStream,
            6 => Kind::NewSenderStream,
            7 => Kind::StreamClosed,
            8 => Kind::Close,
            9 => Kind::Ping,
            _ => Kind::Unknown,
        }
    }

    pub fn as_num(&self) -> (r: u8)
        ensures
            r == kind_num(*self),
    {
        match self {
            Kind::Request => 1,
            Kind::Response => 2,
            Kind::NoResponse => 3,
            Kind::Stream => 4,
            Kind::NewStream => 5,
            Kind::NewSenderStream => 6,
            Kind::StreamClosed => 7,
            Kind::Close => 8,
            Kind::Ping => 9,
            Kind::Unknown => MAX_KIND,
        }
    }
}

/// Every kind but `Unknown` is read back from its number.
pub proof fn law_kind_num_roundtrip(k: Kind)
    requires
        k != Kind::Unknown,
    ensures
        kind_from_num(kind_num(k)) == k,
        kind_num(k) < 16,
{
}

///  Flags
/// ```dont_run
/// +------+----------+
/// | Kind | Reserved |
/// +------+----------+
/// |  4   |     4    |
/// +------+----------+
///  In bits
/// ```
#[derive(Debug, Clone, Copy, PartialEq, Eq)]
pub struct Flags {
    inner: u8,
}

impl View for Flags {
    type V = u8;

    closed spec fn view(&self) -> u8 {
        self.inner
    }
}

/// The kind that the flags `f` hold.
pub open spec fn flags_kind(f: u8) -> Kind {
    kind_from_num(f / 16)
}

/// The flags whose byte is `num`.
pub closed spec fn flags_from_u8(num: u8) -> Flags {
    Flags { inner: num }
}

/// Flags are their byte.
pub proof fn lemma_flags_from_u8(num: u8, f: Flags)
    ensures
        flags_from_u8(num)@ == num,
        flags_from_u8(f@) == f,
{
}

impl Flags {
    pub fn new(kind: Kind) -> (r: Self)
        requires
            kind != Kind::Unknown,
        ensures
            r@ == kind_num(kind) * 16,
            flags_kind(r@) == kind,
    {
        let mut this = Flags { inner: 0 };
        this.set_kind(kind);
        this
    }

    pub fn empty() -> (r: Self)
        ensures
            r@ == 0,
    {
        Flags { inner: 0 }
    }

    pub fn from_u8(num: u8) -> (r: Result<Self, PacketError>)
        ensures
            r matches Ok(f) && f@ == num && f == flags_from_u8(num),
    {
        Ok(Flags { inner: num })
    }

    pub fn kind(&self) -> (r: Kind)
        ensures
            r == flags_kind(self@),
    {
        let inner = self.inner;
        let num = inner >> 4u8;
        assert(inner >> 4u8 == inner / 16) by (bit_vector);
        Kind::from_num(num)
    }

    /// Sets the kind, keeping the four reserved bits.
    pub fn set_kind(&mut self, kind: Kind)
        requires
            kind != Kind::Unknown,
        ensures
            final(self)@ == kind_num(kind) * 16 + old(self)@ % 16,
            flags_kind(final(self)@) == kind,
    {
        let num = kind.as_num();
        let old_inner = self.inner;
        let cleared = old_inner & !KIND_MASK;
        let new_inner = cleared | (num << 4u8);
        assert(old_inner & !0xF0u8 == old_inner % 16) by (bit_vector);
        assert(num < 16 ==> (old_inner & !0xF0u8) | (num << 4u8) == num * 16 + old_inner % 16)
            by (bit_vector);
        self.inner = new_inner;
    }

    pub fn as_u8(&self) -> (r: u8)
        ensures
            r == self@,
    {
        self.inner
    }

    pub fn is_request(&self) -> (r: bool)
        ensures
            r == (flags_kind(self@) == Kind::Request),
    {
        matches!(self.kind(), Kind::Request)
    }

    pub fn is_response(&self) -> (r: bool)
        ensures
            r == (flags_kind(self@) == Kind::Response),
    {
        matches!(self.kind(), Kind::Response)
    }
}

/// The header of a packet; it should be as small as possible.
pub trait PacketHeader: Sized {
    open spec fn spec_len() -> nat {
        arbitrary()
    }

    /// The header that `bytes` hold, or `None` if they hold none.
    open spec fn spec_from_bytes(bytes: Seq<u8>) -> Option<Self> {
        arbitrary()
    }

    open spec fn spec_body_len(&self) -> nat {

        arbitrary()

    }

    open spec fn spec_flags(&self) -> Flags {

        arbitrary()

    }

    open spec fn spec_id(&self) -> u32 {

        arbitrary()

    }

    /// The number of bytes of a header.
    fn len() -> (r: usize)
        ensures
            r == Self::spec_len(),
    ;

    /// bytes.len() == Self::len()
    fn from_bytes(bytes: &[u8]) -> (r: Result<Self, PacketError>)
        requires
            bytes@.len() == Self::spec_len(),
        ensures
            match Self::spec_from_bytes(bytes@) {
                Some(h) => r matches Ok(x) && x == h,
                None => r is Err,
            },
    ;

    /// Returns the length of the body
    fn body_len(&self) -> (r: usize)
        ensures
            r == self.spec_body_len(),
    ;

    fn flags(&self) -> (r: &Flags)
        ensures
            *r == self.spec_flags(),
    ;

    fn set_flags(&mut self, flags: Flags)
        ensures
            final(self).spec_flags() == flags,
            final(self).spec_id() == old(self).spec_id(),
            final(self).spec_body_len() == old(self).spec_body_len(),
    ;

    /// Returns the internal id of the packet.
    ///
    /// ## Note
    /// This is returned as a number so that outside of this crate
    /// nobody can rely on the information contained within.
    fn id(&self) -> (r: u32)
        ensures
            r == self.spec_id(),
    ;

    fn set_id(&mut self, id: u32)
        ensures
            final(self).spec_id() == id,
            final(self).spec_flags() == old(self).spec_flags(),
            final(self).spec_body_len() == old(self).spec_body_len(),
    ;
}

/// A packet: a header and bytes.
pub trait Packet<B: PacketBytes>: Sized {
    type Header: PacketHeader;

    open spec fn spec_header(&self) -> Self::Header {

        arbitrary()

    }

    /// The bytes of the packet have room for a header.
    open spec fn spec_wf(&self) -> bool {
        arbitrary()
    }

    fn header(&self) -> (r: &Self::Header)
        ensures
            *r == self.spec_header(),
    ;

    fn header_mut(&mut self) -> (r: &mut Self::Header)
        ensures
            *r == old(self).spec_header(),
            final(self).spec_header() == *final(r),
            final(self).spec_wf() == old(self).spec_wf(),
    ;

    /// Returns an empty packet; this is used internally by this crate.
    ///
    /// ## Important
    /// `body_len` needs to return 0
    fn empty() -> (r: Self)
        ensures
            r.spec_header().spec_body_len() == 0,
            r.spec_wf(),
    ;

    fn from_bytes_and_header(bytes: B, header: Self::Header) -> (r: super::Result<Self>)
        requires
            bytes.spec_header().len() == Self::Header::spec_len(),
        ensures
            r matches Ok(p) ==> p.spec_wf() && p.spec_header() == header,
    ;

    /// The bytes of the packet, with room for exactly one header.
    fn into_bytes(self) -> (r: B)
        requires
            self.spec_wf(),
        ensures
            r.spec_header().len() == Self::Header::spec_len(),
    ;
}

} // verus!
