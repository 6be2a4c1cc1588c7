//! Puts packets together from what arrives on a connection: first the bytes
//! of a header, then the body whose length the header gives.
use super::PacketError;
use super::bytes::PacketBytes;
use super::packet::{Packet, PacketHeader};

use vstd::prelude::*;

verus! {

pub enum PacketReceiverError<H> {
    Io(std::io::Error),
    /// If this error is returned the packet state is broken and the connection
    /// needs to be opened again
    Hard(PacketError),
    /// If this error is returned this means the packet is malformed but
    /// the header is intact and the connection can be kept open
    Soft(H, PacketError),
}

/// Whether a body of `len` bytes is over the limit (a limit of zero means
/// no limit).
pub open spec fn over_limit(len: nat, body_limit: u32) -> bool {
    body_limit != 0 && len > body_limit
}

/// Receives one packet after the other: a header is read, then its body.
pub struct PacketReceiver<P, B> where P: Packet<B>, B: PacketBytes {
    /// the header bytes are always there, the body is empty
    bytes: B,
    header: Option<P::Header>,
    /// if size is zero it's not limited
    body_limit: u32,
}

impl<P, B> PacketReceiver<P, B> where P: Packet<B>, B: PacketBytes {
    /// The header that was read and waits for its body.
    pub closed spec fn header(&self) -> Option<P::Header> {
        self.header
    }

    /// The bytes of the last header that was read.
    pub closed spec fn header_bytes(&self) -> Seq<u8> {
        self.bytes.spec_header()
    }

    pub closed spec fn body_limit(&self) -> u32 {
        self.body_limit
    }

    /// There is room for exactly one header and no body yet.
    pub closed spec fn wf(&self) -> bool {
        &&& self.bytes.spec_header().len() == P::Header::spec_len()
        &&& self.bytes.spec_body() == Seq::<u8>::empty()
    }

    pub fn new(body_limit: u32) -> (r: Self)
        ensures
            r.wf(),
            r.header() is None,
            r.body_limit() == body_limit,
    {
        PacketReceiver { bytes: B::new(P::Header::len()), header: None, body_limit }
    }

    pub fn set_body_limit(&mut self, body_limit: u32)
        ensures
            final(self).body_limit() == body_limit,
            final(self).header() == old(self).header(),
            final(self).header_bytes() == old(self).header_bytes(),
            final(self).wf() == old(self).wf(),
    {
        self.body_limit = body_limit;
    }

    /// Takes the bytes of a header; may be called again while the header
    /// waits for its body, which changes nothing.
    ///
    /// ## Error
    /// if an error occurs, you should probably
    /// not call this function again.
    pub fn read_header(&mut self, header: &[u8]) -> (r: Result<(), PacketReceiverError<P::Header>>)
        requires
            old(self).wf(),
            header@.len() == P::Header::spec_len(),
        ensures
            final(self).wf(),
            final(self).body_limit() == old(self).body_limit(),
            old(self).header() is Some ==> {
                &&& r is Ok
                &&& final(self).header() == old(self).header()
                &&& final(self).header_bytes() == old(self).header_bytes()
            },
            old(self).header() is None ==> final(self).header_bytes() == header@ && match P::Header::spec_from_bytes(header@) {
                Some(h) => r is Ok && final(self).header() == Some(h),
                None => r matches Err(PacketReceiverError::Hard(_)) && final(self).header() is None,
            },
    {
        if self.header.is_some() {
            return Ok(());
        }
        self.bytes.set_header(header);
        let h = match P::Header::from_bytes(self.bytes.header()) {
            Ok(h) => h,
            Err(e) => return Err(PacketReceiverError::Hard(e)),
        };
        self.header = Some(h);
        Ok(())
    }

    /// The number of body bytes to read for the header that was read, or
    /// the error for a body over the limit.
    pub fn body_len(&self) -> (r: Result<usize, PacketReceiverError<P::Header>>)
        requires
            self.header() is Some,
        ensures
            ({
                let len = self.header()->0.spec_body_len();
                if over_limit(len, self.body_limit()) {
                    r matches Err(PacketReceiverError::Hard(PacketError::BodyLimitReached(n))) && n == len
                } else {
                    r matches Ok(n) && n == len
                }
            }),
    {
        let len = match &self.header {
            Some(h) => h.body_len(),
            None => 0,
        };
        if self.body_limit != 0 && len > self.body_limit as usize {
            return Err(PacketReceiverError::Hard(PacketError::BodyLimitReached(len)));
        }
        Ok(len)
    }

    /// Takes the body of the header that was read and returns the finished
    /// packet; afterwards the next header can be read.
    pub fn read_body(&mut self, body: &[u8]) -> (r: Result<P, PacketReceiverError<P::Header>>)
        where P::Header: Clone
        requires
            old(self).wf(),
            old(self).header() is Some,
            body@.len() == old(self).header()->0.spec_body_len(),
        ensures
            final(self).wf(),
            final(self).body_limit() == old(self).body_limit(),
            ({
                let h = old(self).header()->0;
                if h.spec_body_len() != 0 && over_limit(h.spec_body_len(), old(self).body_limit()) {
                    &&& r matches Err(PacketReceiverError::Hard(PacketError::BodyLimitReached(n)))
                        && n == h.spec_body_len()
                    &&& final(self).header() == old(self).header()
                    &&& final(self).header_bytes() == old(self).header_bytes()
                } else {
                    &&& final(self).header() is None
                    &&& match r {
                        Ok(p) => p.spec_wf() && p.spec_header() == h,
                        Err(e) => e matches PacketReceiverError::Soft(eh, _) && cloned(h, eh),
                    }
                }
            }),
    {
        let len = match &self.header {
            Some(h) => h.body_len(),
            None => 0,
        };
        if len == 0 {
            return self.take_message();
        }
        if self.body_limit != 0 && len > self.body_limit as usize {
            return Err(PacketReceiverError::Hard(PacketError::BodyLimitReached(len)));
        }
        self.bytes.write_body(body);
        self.take_message()
    }

    /// Builds the packet from the bytes and the header and starts over.
    fn take_message(&mut self) -> (r: Result<P, PacketReceiverError<P::Header>>)
        where P::Header: Clone
        requires
            old(self).header() is Some,
            old(self).bytes.spec_header().len() == P::Header::spec_len(),
        ensures
            final(self).wf(),
            final(self).header() is None,
            final(self).body_limit() == old(self).body_limit(),
            match r {
                Ok(p) => p.spec_wf() && p.spec_header() == old(self).header()->0,
                Err(e) => e matches PacketReceiverError::Soft(eh, _) && cloned(old(self).header()->0, eh),
            },
    {
        let mut bytes = B::new(P::Header::len());
        std::mem::swap(&mut bytes, &mut self.bytes);
        let header = self.header.take().unwrap();
        let kept = header.clone();
        // this is soft since we know the header is intact
        match P::from_bytes_and_header(bytes, header) {
            Ok(p) => Ok(p),
            Err(e) => Err(PacketReceiverError::Soft(kept, e)),
        }
    }
}

} // verus!
