use lafere::basic::message::{Action, Header, Message};
use lafere::packet::bytes::{PacketBytes, PlainBytes};
use lafere::packet::packet::{Flags, Kind, Packet, PacketHeader};
use lafere::packet::PacketError;

#[derive(Debug, Clone, Copy, PartialEq, Eq)]
enum Act {
    Empty,
    Hello,
}

impl Action for Act {
    fn empty() -> Self {
        Self::Empty
    }

    fn from_u16(num: u16) -> Option<Self> {
        match num {
            0 => Some(Self::Empty),
            1 => Some(Self::Hello),
            _ => None,
        }
    }

    fn as_u16(&self) -> u16 {
        match self {
            Self::Empty => 0,
            Self::Hello => 1,
        }
    }

    fn max_body_size(_header: &Header<Self>) -> Option<u32> {
        Some(3)
    }
}

#[test]
fn basic_message_roundtrip() {
    let mut msg = Message::<Act, PlainBytes>::new();
    msg.header_mut().set_action(Act::Hello);
    msg.header_mut().set_flags(Flags::new(Kind::Request));
    msg.header_mut().set_id(5);
    msg.write_body(&[1, 2]);
    let bytes = msg.into_bytes();
    assert_eq!(bytes.header(), &[0, 0, 0, 2, 0x10, 0, 0, 0, 5, 0, 1][..]);
    let header = Header::<Act>::from_bytes(bytes.header()).unwrap();
    assert_eq!(header.body_len(), 2);
    assert_eq!(header.id(), 5);
    let back = Message::<Act, PlainBytes>::from_bytes_and_header(bytes, header).unwrap();
    assert_eq!(*back.action(), Act::Hello);
    assert_eq!(back.body(), &[1, 2][..]);
}

#[test]
fn basic_header_errors() {
    match Header::<Act>::from_bytes(&[0, 0, 0, 0, 0x10, 0, 0, 0, 5, 0, 7]) {
        Err(PacketError::Header(s)) => assert_eq!(s, "Action unknown"),
        _ => panic!("expected unknown action"),
    }
    match Header::<Act>::from_bytes(&[0, 0, 0, 4, 0x10, 0, 0, 0, 5, 0, 1]) {
        Err(PacketError::Body(s)) => assert_eq!(s, "body to big"),
        _ => panic!("expected the body limit"),
    }
    let empty = Header::<Act>::empty();
    assert_eq!(empty.body_len(), 0);
    let mut bytes = Vec::new();
    empty.to_bytes(&mut bytes);
    assert_eq!(bytes, vec![0; 11]);
}
