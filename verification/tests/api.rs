use lafere::api::encdec::{decode, encode};
use lafere::api::error::{ApiError, MessageError};
use lafere::api::message::{Action, FromMessage, Header, IntoMessage, MaybeAction, Message, MessageFlags};
use lafere::api::request::{request_message, response_result, Request};
use lafere::api::server::{answer, dispatch, Dispatch};
use lafere::api::util::DataManager;
use lafere::error::RequestError;
use lafere::packet::builder::{PacketReceiver, PacketReceiverError};
use lafere::packet::bytes::{PacketBytes, PlainBytes};
use lafere::packet::packet::{Flags, Kind, Packet, PacketHeader};
use lafere::packet::PacketError;

#[derive(Debug, Clone, Copy, PartialEq, Eq, Hash)]
enum SomeAction {
    One,
    Two,
}

impl Action for SomeAction {
    fn from_u16(num: u16) -> Option<Self> {
        match num {
            1 => Some(Self::One),
            2 => Some(Self::Two),
            _ => None,
        }
    }

    fn as_u16(&self) -> u16 {
        match self {
            Self::One => 1,
            Self::Two => 2,
        }
    }

    fn max_body_size(_header: &Header<Self>) -> Option<u32> {
        None
    }
}

#[derive(Debug, Clone, Copy, PartialEq, Eq)]
enum SmallAction {
    Only,
}

impl Action for SmallAction {
    fn from_u16(num: u16) -> Option<Self> {
        match num {
            1 => Some(Self::Only),
            _ => None,
        }
    }

    fn as_u16(&self) -> u16 {
        1
    }

    fn max_body_size(_header: &Header<Self>) -> Option<u32> {
        Some(4)
    }
}

#[test]
fn msg_from_to_bytes() {
    let mut msg = Message::<_, PlainBytes>::new();
    msg.header_mut().set_action(SomeAction::Two);
    msg.write_body(&u16::MAX.to_be_bytes());

    let bytes = msg.clone().into_bytes();
    let header = Header::from_bytes(bytes.header()).unwrap();
    let n_msg = Message::from_bytes_and_header(bytes, header).unwrap();
    assert_eq!(msg.action(), n_msg.action());
    assert_eq!(msg.header().flags(), n_msg.header().flags());

    assert_eq!(n_msg.body(), &u16::MAX.to_be_bytes()[..]);
}

#[test]
fn header_bytes_layout() {
    let mut msg = Message::<SomeAction, PlainBytes>::new();
    msg.header_mut().set_action(SomeAction::One);
    msg.header_mut().set_flags(Flags::new(Kind::Request));
    msg.header_mut().set_id(0x01020304);
    msg.write_body(&[7, 8, 9]);
    let bytes = msg.into_bytes();
    assert_eq!(bytes.header(), &[0, 0, 0, 3, 0x10, 1, 1, 2, 3, 4, 0, 1][..]);
    assert_eq!(bytes.body(), &[7, 8, 9][..]);
}

#[test]
fn unknown_and_missing_actions() {
    let header = Header::<SomeAction>::from_bytes(&[0, 0, 0, 0, 0x10, 1, 0, 0, 0, 1, 0, 9]).unwrap();
    let msg = Message::<SomeAction, PlainBytes>::from_bytes_and_header(PlainBytes::new(12), header)
        .unwrap();
    assert_eq!(msg.action(), None);
    let header = Header::<SomeAction>::from_bytes(&[0, 0, 0, 0, 0x10, 1, 0, 0, 0, 1, 0, 0]).unwrap();
    let mut h2 = Header::<SomeAction>::empty();
    h2.set_action(SomeAction::One);
    assert_ne!(header, h2);
    assert_eq!(MaybeAction::<SomeAction>::Unknown(9).as_u16(), 9);
    assert_eq!(MaybeAction::<SomeAction>::NoAction.as_u16(), 0);
    assert_eq!(MaybeAction::Action(SomeAction::Two).as_u16(), 2);
}

#[test]
fn body_over_the_limit() {
    let r = Header::<SmallAction>::from_bytes(&[0, 0, 0, 5, 0x10, 1, 0, 0, 0, 1, 0, 1]);
    match r {
        Err(PacketError::BodyLimitReached(4)) => {}
        _ => panic!("expected the body limit"),
    }
    assert!(Header::<SmallAction>::from_bytes(&[0, 0, 0, 4, 0x10, 1, 0, 0, 0, 1, 0, 1]).is_ok());
}

#[test]
fn message_flags() {
    assert!(MessageFlags::new(true).is_success());
    assert!(!MessageFlags::new(false).is_success());
    let mut f = MessageFlags::from_u8(0b10);
    assert!(!f.is_success());
    f.set_success(true);
    assert_eq!(f.as_u8(), 0b11);
    // setting false never clears the bit
    f.set_success(false);
    assert!(f.is_success());

    let mut msg = Message::<SomeAction, PlainBytes>::new();
    assert!(msg.is_success());
    msg.set_success(false);
    assert!(msg.is_success());
}

#[test]
fn protobuf_body() {
    let values: Vec<u64> = vec![1, 2, 3];
    let msg: Message<SomeAction, PlainBytes> = encode(values.clone()).unwrap();
    assert_eq!(msg.body(), &[0x0a, 0x03, 1, 2, 3][..]);
    let back: Vec<u64> = decode(&msg).unwrap();
    assert_eq!(back, values);

    let mut bad = Message::<SomeAction, PlainBytes>::new();
    bad.write_body(&[0xff, 0xfe]);
    match decode::<_, _, String>(&bad) {
        Err(MessageError::DecodeError(_)) => {}
        _ => panic!("expected a decode error"),
    }
}

#[derive(Debug)]
struct Ping(u8);

#[derive(Debug, PartialEq)]
struct Pong(u8);

#[derive(Debug, PartialEq)]
enum PingError {
    Request,
    Message,
    Refused(u8),
}

impl ApiError for PingError {
    fn from_request_error(_e: RequestError) -> Self {
        Self::Request
    }

    fn from_message_error(_e: MessageError) -> Self {
        Self::Message
    }
}

impl Request for Ping {
    type Action = SomeAction;
    type Response = Pong;
    type Error = PingError;

    const ACTION: SomeAction = SomeAction::Two;
}

impl IntoMessage<SomeAction, PlainBytes> for Ping {
    fn into_message(self) -> Result<Message<SomeAction, PlainBytes>, MessageError> {
        if self.0 == 0 {
            return Err(MessageError::Other("zero".to_string()));
        }
        let mut msg = Message::new();
        msg.write_body(&[self.0]);
        Ok(msg)
    }
}

impl FromMessage<SomeAction, PlainBytes> for Pong {
    fn from_message(msg: Message<SomeAction, PlainBytes>) -> Result<Self, MessageError> {
        match msg.body() {
            [b] => Ok(Pong(*b)),
            _ => Err(MessageError::Other("len".to_string())),
        }
    }
}

impl FromMessage<SomeAction, PlainBytes> for PingError {
    fn from_message(msg: Message<SomeAction, PlainBytes>) -> Result<Self, MessageError> {
        match msg.body() {
            [b] => Ok(PingError::Refused(*b)),
            _ => Err(MessageError::Other("len".to_string())),
        }
    }
}

#[test]
fn request_sets_the_action() {
    let msg = request_message::<Ping, PlainBytes>(Ping(5)).unwrap();
    assert_eq!(msg.action(), Some(&SomeAction::Two));
    assert_eq!(msg.body(), &[5][..]);
    match request_message::<Ping, PlainBytes>(Ping(0)) {
        Err(PingError::Message) => {}
        _ => panic!("expected the message error"),
    }
}

#[test]
fn response_holds_the_result() {
    let mut ok = Message::<SomeAction, PlainBytes>::new();
    ok.write_body(&[4]);
    assert_eq!(response_result::<Ping, PlainBytes>(ok), Ok(Pong(4)));

    let mut failed = Message::<SomeAction, PlainBytes>::new();
    failed.header_mut().set_action(SomeAction::Two);
    let mut bytes = failed.into_bytes();
    // clear the success bit
    let mut header = bytes.header().to_vec();
    header[5] = 0;
    bytes.set_header(&header);
    bytes.write_body(&[6]);
    let h = Header::from_bytes(bytes.header()).unwrap();
    let failed = Message::from_bytes_and_header(bytes, h).unwrap();
    assert!(!failed.is_success());
    assert_eq!(response_result::<Ping, PlainBytes>(failed), Err(PingError::Refused(6)));

    let mut garbled = Message::<SomeAction, PlainBytes>::new();
    garbled.write_body(&[1, 2]);
    assert_eq!(response_result::<Ping, PlainBytes>(garbled), Err(PingError::Message));
}

#[test]
fn data_manager_hands_out_once() {
    let mut d = DataManager::new(String::from("req"));
    assert_eq!(d.as_ref(), "req");
    assert_eq!(d.take(), "req");
    let d = DataManager::new(3u8);
    assert_eq!(d.take_owned(), 3);
}

#[test]
fn receiver_refuses_a_header_over_the_limit() {
    let mut receiver: PacketReceiver<Message<SmallAction, PlainBytes>, PlainBytes> = PacketReceiver::new(0);
    match receiver.read_header(&[0, 0, 0, 5, 0x10, 1, 0, 0, 0, 1, 0, 1]) {
        Err(PacketReceiverError::Hard(PacketError::BodyLimitReached(4))) => {}
        _ => panic!("expected the body limit"),
    }
    receiver.read_header(&[0, 0, 0, 2, 0x10, 1, 0, 0, 0, 7, 0, 1]).ok().unwrap();
    let msg = receiver.read_body(&[1, 2]).ok().unwrap();
    assert_eq!(msg.action(), Some(&SmallAction::Only));
    assert_eq!(msg.header().id(), 7);
    assert_eq!(msg.body(), &[1, 2][..]);
}

#[test]
fn setting_flags_and_id_keeps_the_action() {
    let mut msg = Message::<SomeAction, PlainBytes>::new();
    msg.header_mut().set_action(SomeAction::Two);
    msg.header_mut().set_flags(Flags::new(Kind::Response));
    msg.header_mut().set_id(7);
    assert_eq!(msg.action(), Some(&SomeAction::Two));
    assert_eq!(msg.header().id(), 7);
    assert_eq!(msg.header().flags(), &Flags::new(Kind::Response));
}

#[test]
fn server_dispatches_requests_by_action() {
    assert!(matches!(dispatch::<SomeAction, PlainBytes>(None), Dispatch::Skip));

    let no_action = Message::<SomeAction, PlainBytes>::new();
    assert!(matches!(dispatch(Some(&no_action)), Dispatch::NoAction));

    let mut request = Message::<SomeAction, PlainBytes>::new();
    request.header_mut().set_action(SomeAction::One);
    assert!(matches!(dispatch(Some(&request)), Dispatch::Handle(SomeAction::One)));
}

#[test]
fn answer_carries_the_request_action() {
    let mut response = Message::<SomeAction, PlainBytes>::new();
    response.header_mut().set_id(3);
    response.write_body(&[1, 2]);
    let answered = answer(response, SomeAction::Two);
    assert_eq!(answered.action(), Some(&SomeAction::Two));
    assert_eq!(answered.header().id(), 3);
    assert_eq!(answered.body(), &[1, 2][..]);
}
