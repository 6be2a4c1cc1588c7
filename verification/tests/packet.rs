use lafere::packet::builder::{PacketReceiver, PacketReceiverError};
use lafere::packet::bytes::{PacketBytes, PlainBytes};
use lafere::packet::packet::{Flags, Kind, Packet, PacketHeader};
use lafere::packet::{PacketError, Result};

use std::marker::PhantomData;

fn u32_be(n: u32) -> [u8; 4] {
    n.to_be_bytes()
}

fn read_u32(b: &[u8]) -> u32 {
    u32::from_be_bytes([b[0], b[1], b[2], b[3]])
}

fn read_u64(b: &[u8]) -> u64 {
    let mut a = [0u8; 8];
    a.copy_from_slice(&b[..8]);
    u64::from_be_bytes(a)
}

#[derive(Debug, Clone, PartialEq, Eq)]
pub struct TestPacket<B> {
    header: TestPacketHeader,
    pub num1: u32,
    pub num2: u64,
    marker: PhantomData<B>,
}

impl<B> TestPacket<B> {
    pub fn new(num1: u32, num2: u64) -> Self {
        Self { header: TestPacketHeader::empty(), num1, num2, marker: PhantomData }
    }
}

impl<B> Packet<B> for TestPacket<B>
where
    B: PacketBytes,
{
    type Header = TestPacketHeader;

    fn header(&self) -> &Self::Header {
        &self.header
    }

    fn header_mut(&mut self) -> &mut Self::Header {
        &mut self.header
    }

    fn empty() -> Self {
        Self { header: TestPacketHeader::empty(), num1: 0, num2: 0, marker: PhantomData }
    }

    fn from_bytes_and_header(bytes: B, header: Self::Header) -> Result<Self> {
        let body = bytes.body();
        assert_eq!(header.body_len(), body.len());

        if header.body_len() == 0 {
            let mut me = Self::empty();
            me.header = header;
            Ok(me)
        } else {
            Ok(Self { header, num1: read_u32(body), num2: read_u64(&body[4..]), marker: PhantomData })
        }
    }

    fn into_bytes(mut self) -> B {
        let mut bytes = B::new(Self::Header::len());
        bytes.write_body(&self.num1.to_be_bytes());
        bytes.write_body(&self.num2.to_be_bytes());
        self.header.length = bytes.body().len() as u32;
        bytes.set_header(&self.header.to_bytes());
        bytes
    }
}

#[derive(Debug, Clone, PartialEq, Eq)]
pub struct TestPacketHeader {
    length: u32,
    flags: Flags,
    id: u32,
}

impl TestPacketHeader {
    fn to_bytes(&self) -> Vec<u8> {
        let mut bytes = Vec::new();
        bytes.extend_from_slice(&u32_be(self.length));
        bytes.push(self.flags.as_u8());
        bytes.extend_from_slice(&u32_be(self.id));
        bytes
    }

    fn empty() -> Self {
        Self { length: 0, flags: Flags::empty(), id: 0 }
    }
}

impl PacketHeader for TestPacketHeader {
    fn len() -> usize {
        4 + 4 + 1
    }

    fn from_bytes(bytes: &[u8]) -> Result<Self> {
        assert_eq!(bytes.len(), Self::len());
        Ok(Self {
            length: read_u32(bytes),
            flags: Flags::from_u8(bytes[4])?,
            id: read_u32(&bytes[5..]),
        })
    }

    fn body_len(&self) -> usize {
        self.length as usize
    }

    fn flags(&self) -> &Flags {
        &self.flags
    }

    fn set_flags(&mut self, flags: Flags) {
        self.flags = flags;
    }

    fn id(&self) -> u32 {
        self.id
    }

    fn set_id(&mut self, id: u32) {
        self.id = id;
    }
}

fn test_gen_msg<B: PacketBytes>() {
    let header = [10u8; 30];
    let mut bytes = B::new(header.len());
    bytes.set_header(&header);
    assert_eq!(bytes.body().len(), 0);

    bytes.write_body(&10u32.to_be_bytes());
    bytes.write_body(&20u32.to_be_bytes());

    assert_eq!(bytes.header(), &header[..]);

    let mut body = Vec::new();
    body.extend_from_slice(&10u32.to_be_bytes());
    body.extend_from_slice(&20u32.to_be_bytes());
    assert_eq!(bytes.body(), body.as_slice());
    assert_eq!(bytes.body().len(), body.len());
}

#[test]
fn plain_bytes() {
    test_gen_msg::<PlainBytes>();
}

#[test]
fn plain_bytes_as_slice() {
    let mut bytes = PlainBytes::new(2);
    assert_eq!(bytes.header(), &[0, 0][..]);
    bytes.set_header(&[1, 2]);
    bytes.write_body(&[3]);
    bytes.write_body(&[4, 5]);
    assert_eq!(bytes.as_slice(), vec![1, 2, 3, 4, 5]);
}

#[test]
fn test_message() {
    let mut msg = TestPacket::new(10, 20);
    // doing this manually since body_len() is valid after into_bytes()
    msg.header.length = 4 + 8;
    let bytes: PlainBytes = msg.clone().into_bytes();

    // header
    let header_bytes = bytes.header();
    let msg_header = TestPacketHeader::from_bytes(header_bytes).unwrap();
    let n_msg = TestPacket::from_bytes_and_header(bytes.clone(), msg_header).unwrap();

    assert_eq!(msg, n_msg);
    assert_eq!(bytes, n_msg.into_bytes());
}

#[test]
fn test_flags() {
    let mut flags = Flags::new(Kind::Request);
    assert_eq!(flags.kind(), Kind::Request);
    flags.set_kind(Kind::Close);
    assert_eq!(flags.kind(), Kind::Close);
}

#[test]
fn flags_keep_reserved_bits() {
    assert_eq!(Flags::from_u8(0x0f).unwrap().kind(), Kind::Unknown);
    let mut flags = Flags::from_u8(0x1f).unwrap();
    assert_eq!(flags.kind(), Kind::Request);
    flags.set_kind(Kind::Ping);
    assert_eq!(flags.as_u8(), 0x9f);
    assert_eq!(flags.kind(), Kind::Ping);
    assert!(Flags::new(Kind::Request).is_request());
    assert!(Flags::new(Kind::Response).is_response());
    assert!(!Flags::new(Kind::Response).is_request());
    assert_eq!(Flags::empty().as_u8(), 0);
    // a kind number that is reserved reads as unknown
    assert_eq!(Flags::from_u8(0xf0).unwrap().kind(), Kind::Unknown);
}

#[test]
fn kind_numbers() {
    let kinds = [
        Kind::Request,
        Kind::Response,
        Kind::NoResponse,
        Kind::Stream,
        Kind::NewStream,
        Kind::NewSenderStream,
        Kind::StreamClosed,
        Kind::Close,
        Kind::Ping,
    ];
    for (i, k) in kinds.iter().enumerate() {
        assert_eq!(k.as_num(), i as u8 + 1);
        assert_eq!(Kind::from_num(i as u8 + 1), *k);
    }
    assert_eq!(Kind::from_num(0), Kind::Unknown);
    assert_eq!(Kind::from_num(10), Kind::Unknown);
}

fn header_of(len: u32, kind: Kind, id: u32) -> Vec<u8> {
    let mut h = Vec::new();
    h.extend_from_slice(&u32_be(len));
    h.push(Flags::new(kind).as_u8());
    h.extend_from_slice(&u32_be(id));
    h
}

#[test]
fn receiver_reads_a_packet() {
    let mut receiver: PacketReceiver<TestPacket<PlainBytes>, PlainBytes> = PacketReceiver::new(100);
    receiver.read_header(&header_of(12, Kind::Request, 7)).ok().unwrap();
    // reading the header again while it waits for its body changes nothing
    receiver.read_header(&header_of(3, Kind::Ping, 1)).ok().unwrap();
    assert_eq!(receiver.body_len().ok().unwrap(), 12);
    let mut body = Vec::new();
    body.extend_from_slice(&5u32.to_be_bytes());
    body.extend_from_slice(&6u64.to_be_bytes());
    let packet = receiver.read_body(&body).ok().unwrap();
    assert_eq!(packet.num1, 5);
    assert_eq!(packet.num2, 6);
    assert_eq!(packet.header().id(), 7);
    assert_eq!(packet.header().flags().kind(), Kind::Request);

    // an empty body
    receiver.read_header(&header_of(0, Kind::Ping, 9)).ok().unwrap();
    let packet = receiver.read_body(&[]).ok().unwrap();
    assert_eq!(packet.header().id(), 9);
    assert_eq!(packet.num1, 0);
}

#[test]
fn receiver_refuses_a_body_over_the_limit() {
    let mut receiver: PacketReceiver<TestPacket<PlainBytes>, PlainBytes> = PacketReceiver::new(4);
    receiver.read_header(&header_of(12, Kind::Request, 1)).ok().unwrap();
    match receiver.body_len() {
        Err(PacketReceiverError::Hard(PacketError::BodyLimitReached(12))) => {}
        _ => panic!("expected the body limit"),
    }
    match receiver.read_body(&[0; 12]) {
        Err(PacketReceiverError::Hard(PacketError::BodyLimitReached(12))) => {}
        _ => panic!("expected the body limit"),
    }
    // no limit
    receiver.set_body_limit(0);
    assert_eq!(receiver.body_len().ok().unwrap(), 12);
}

/// A packet that refuses any body but the twelve bytes of two numbers.
#[derive(Debug, Clone, PartialEq, Eq)]
pub struct StrictPacket {
    header: TestPacketHeader,
    body: Vec<u8>,
}

impl Packet<PlainBytes> for StrictPacket {
    type Header = TestPacketHeader;

    fn header(&self) -> &Self::Header {
        &self.header
    }

    fn header_mut(&mut self) -> &mut Self::Header {
        &mut self.header
    }

    fn empty() -> Self {
        Self { header: TestPacketHeader::empty(), body: Vec::new() }
    }

    fn from_bytes_and_header(bytes: PlainBytes, header: Self::Header) -> Result<Self> {
        if bytes.body().len() != 12 {
            return Err(PacketError::Body("expected two numbers".to_string()));
        }
        Ok(Self { header, body: bytes.body().to_vec() })
    }

    fn into_bytes(self) -> PlainBytes {
        let mut bytes = PlainBytes::new(TestPacketHeader::len());
        bytes.write_body(&self.body);
        bytes.set_header(&self.header.to_bytes());
        bytes
    }
}

#[test]
fn receiver_soft_error_keeps_the_header() {
    let mut receiver: PacketReceiver<StrictPacket, PlainBytes> = PacketReceiver::new(0);
    receiver.read_header(&header_of(1, Kind::Request, 3)).ok().unwrap();
    match receiver.read_body(&[9]) {
        Err(PacketReceiverError::Soft(h, PacketError::Body(s))) => {
            assert_eq!(h.id(), 3);
            assert_eq!(h.body_len(), 1);
            assert_eq!(s, "expected two numbers");
        }
        _ => panic!("expected a soft error"),
    }
    // the next packet can be read
    receiver.read_header(&header_of(12, Kind::Response, 4)).ok().unwrap();
    let packet = receiver.read_body(&[0; 12]).ok().unwrap();
    assert_eq!(packet.header().id(), 4);
}
