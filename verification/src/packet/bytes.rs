//! The bytes of a packet: header, then body.
use vstd::prelude::*;

verus! {

/// The bytes of a packet, which may be stored in a way that suits
/// encryption or not.
pub trait PacketBytes: Sized {
    open spec fn spec_header(&self) -> Seq<u8> {
        arbitrary()
    }

    open spec fn spec_body(&self) -> Seq<u8> {

        arbitrary()

    }

    /// Creates a new Bytes instance.
    ///
    /// It must always have header len available and initialized
    fn new(header_len: usize) -> (r: Self)
        ensures
            r.spec_header() == Seq::new(header_len as nat, |i: int| 0u8),
            r.spec_body() == Seq::<u8>::empty(),
    ;

    /// Returns the header bytes.
    fn header(&self) -> (r: &[u8])
        ensures
            r@ == self.spec_header(),
    ;

    /// Overwrites the header.
    fn set_header(&mut self, header: &[u8])
        requires
            header@.len() == old(self).spec_header().len(),
        ensures
            final(self).spec_header() == header@,
            final(self).spec_body() == old(self).spec_body(),
    ;

    /// Returns the body.
    fn body(&self) -> (r: &[u8])
        ensures
            r@ == self.spec_body(),
    ;

    /// Writes at the end of the body.
    fn write_body(&mut self, bytes: &[u8])
        ensures
            final(self).spec_header() == old(self).spec_header(),
            final(self).spec_body() == old(self).spec_body() + bytes@,
    ;
}

/// Packet bytes without encryption: the header and the body.
#[derive(Debug, Clone, PartialEq, Eq)]
pub struct PlainBytes {
    header: Vec<u8>,
    body: Vec<u8>,
}

impl PlainBytes {
    /// All the bytes, as they are sent: header, then body.
    pub fn as_slice(&self) -> (r: Vec<u8>)
        ensures
            r@ == self.spec_header() + self.spec_body(),
    {
        let mut all = self.header.clone();
        let mut i: usize = 0;
        while i < self.body.len()
            invariant
                i <= self.body@.len(),
                all@ == self.header@ + self.body@.take(i as int),
            decreases self.body@.len() - i,
        {
            all.push(self.body[i]);
            assert(self.body@.take(i + 1) =~= self.body@.take(i as int).push(self.body@[i as int]));
            i = i + 1;
        }
        assert(self.body@.take(i as int) =~= self.body@);
        all
    }
}

pub(crate) fn copy_bytes(dst: &mut Vec<u8>, src: &[u8])
    ensures
        final(dst)@ == old(dst)@ + src@,
{
    let mut i: usize = 0;
    while i < src.len()
        invariant
            i <= src@.len(),
            dst@ == old(dst)@ + src@.take(i as int),
        decreases src@.len() - i,
    {
        dst.push(src[i]);
        assert(src@.take(i + 1) =~= src@.take(i as int).push(src@[i as int]));
        i = i + 1;
    }
    assert(src@.take(i as int) =~= src@);
}

impl PacketBytes for PlainBytes {
    closed spec fn spec_header(&self) -> Seq<u8> {
        self.header@
    }

    closed spec fn spec_body(&self) -> Seq<u8> {
        self.body@
    }

    fn new(header_len: usize) -> (r: Self) {
        let mut header: Vec<u8> = Vec::new();
        let mut i: usize = 0;
        while i < header_len
            invariant
                i <= header_len,
                header@ == Seq::new(i as nat, |j: int| 0u8),
            decreases header_len - i,
        {
            header.push(0u8);
            i = i + 1;
            assert(header@ =~= Seq::new(i as nat, |j: int| 0u8));
        }
        PlainBytes { header, body: Vec::new() }
    }

    fn header(&self) -> (r: &[u8]) {
        self.header.as_slice()
    }

    fn set_header(&mut self, header: &[u8]) {
        let mut h: Vec<u8> = Vec::new();
        copy_bytes(&mut h, header);
        assert(h@ =~= header@);
        self.header = h;
    }

    fn body(&self) -> (r: &[u8]) {
        self.body.as_slice()
    }

    fn write_body(&mut self, bytes: &[u8]) {
        copy_bytes(&mut self.body, bytes);
    }
}

} // verus!
