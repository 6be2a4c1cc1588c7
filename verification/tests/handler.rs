use lafere::api::message::{Action, Header, Message};
use lafere::handler::client::{ClientAction, ClientState, MessageKind};
use lafere::handler::server::{ServerAction, ServerState};
use lafere::handler::{
    close_packet, kind_packet, not_supported, outgoing, ping_packet, stamp, stream_close_packet,
    ChannelEvent, ResponseKind,
};
use lafere::packet::bytes::PlainBytes;
use lafere::packet::packet::{Kind, Packet, PacketHeader};
use lafere::packet::PacketError;
use lafere::stream::{ping_margin_secs, StreamControl};

#[derive(Debug, Clone, Copy, PartialEq, Eq)]
enum Act {
    A,
}

impl Action for Act {
    fn from_u16(num: u16) -> Option<Self> {
        match num {
            1 => Some(Self::A),
            _ => None,
        }
    }

    fn as_u16(&self) -> u16 {
        1
    }

    fn max_body_size(_header: &Header<Self>) -> Option<u32> {
        None
    }
}

type Msg = Message<Act, PlainBytes>;

#[test]
fn client_ids_count_up() {
    let mut client = ClientState::new();
    assert_eq!(client.register(MessageKind::Request), Some((1, Kind::Request)));
    assert_eq!(client.register(MessageKind::OpenStream), Some((2, Kind::NewStream)));
    assert_eq!(client.register(MessageKind::CreateStream), Some((3, Kind::NewSenderStream)));
    assert_eq!(client.next_id(), Some(4));
}

#[test]
fn client_answers_packets() {
    let mut client = ClientState::new();
    let (req, _) = client.register(MessageKind::Request).unwrap();
    let (stream, _) = client.register(MessageKind::OpenStream).unwrap();
    let (sender, _) = client.register(MessageKind::CreateStream).unwrap();

    assert!(matches!(client.on_packet(Kind::Stream, stream), ClientAction::ToStream));
    // a response for a stream is no response
    match client.on_packet(Kind::Response, stream) {
        ClientAction::Error(PacketError::Header(s)) => assert_eq!(s, "Handler not found"),
        _ => panic!("expected an error"),
    }
    // nobody waits anymore
    assert!(matches!(client.on_packet(Kind::Stream, stream), ClientAction::SendStreamClosed));
    assert!(matches!(client.on_packet(Kind::Response, req), ClientAction::Respond));
    // answered once
    assert!(matches!(client.on_packet(Kind::Response, req), ClientAction::Error(_)));
    assert!(matches!(client.on_packet(Kind::StreamClosed, sender), ClientAction::CloseSenderStream));
    assert_eq!(client.on_sender_stream(sender, ChannelEvent::Item), Kind::Stream);
    assert_eq!(client.on_sender_stream(sender, ChannelEvent::Closed), Kind::StreamClosed);
    assert!(matches!(client.on_packet(Kind::Close, 0), ClientAction::Close));
    assert!(matches!(client.on_packet(Kind::Ping, 0), ClientAction::Ignore));
    assert!(matches!(client.on_packet(Kind::NoResponse, 0), ClientAction::Ignore));
    match client.on_packet(Kind::Request, 1) {
        ClientAction::Error(PacketError::Header(s)) => assert_eq!(s, "Request not supported"),
        _ => panic!("expected an error"),
    }
}

#[test]
fn client_reset_starts_over() {
    let mut client = ClientState::new();
    client.register(MessageKind::Request).unwrap();
    client.close_all_started();
    assert_eq!(client.register(MessageKind::Request), Some((1, Kind::Request)));
}

#[test]
fn server_answers_packets() {
    let mut server = ServerState::new();
    assert!(matches!(server.on_packet(Kind::Request, 5), ServerAction::Request));
    assert!(matches!(server.on_packet(Kind::NewStream, 6), ServerAction::OpenStream));
    assert!(matches!(server.on_packet(Kind::NewSenderStream, 7), ServerAction::CreateStream));
    assert!(matches!(server.on_packet(Kind::Stream, 7), ServerAction::ToStream));
    assert!(matches!(server.on_packet(Kind::Stream, 8), ServerAction::SendStreamClosed));
    assert!(matches!(server.on_packet(Kind::StreamClosed, 7), ServerAction::CloseStream));
    assert!(matches!(server.on_packet(Kind::Stream, 7), ServerAction::SendStreamClosed));
    assert!(matches!(server.on_packet(Kind::Close, 0), ServerAction::Close));
    assert!(matches!(server.on_packet(Kind::Ping, 0), ServerAction::Ignore));
    match server.on_packet(Kind::Response, 1) {
        ServerAction::Error(PacketError::Header(s)) => assert_eq!(s, "Response not supported"),
        _ => panic!("expected an error"),
    }

    assert_eq!(server.on_outgoing(6, ChannelEvent::Item), Some((Kind::Stream, false)));
    assert_eq!(server.on_outgoing(6, ChannelEvent::Item), Some((Kind::Stream, false)));
    assert_eq!(server.on_outgoing(6, ChannelEvent::Closed), Some((Kind::StreamClosed, true)));
    assert_eq!(server.on_outgoing(6, ChannelEvent::Item), None);
    assert_eq!(server.on_outgoing(5, ChannelEvent::Item), Some((Kind::Response, true)));
    assert_eq!(server.on_outgoing(5, ChannelEvent::Closed), None);
    server.on_packet(Kind::Request, 9);
    assert_eq!(server.on_outgoing(9, ChannelEvent::Closed), Some((Kind::NoResponse, true)));
}

#[test]
fn outgoing_kinds() {
    assert_eq!(outgoing(ResponseKind::Request, ChannelEvent::Item), (Kind::Response, true));
    assert_eq!(outgoing(ResponseKind::Request, ChannelEvent::Closed), (Kind::NoResponse, true));
    assert_eq!(outgoing(ResponseKind::Receiver, ChannelEvent::Item), (Kind::Stream, false));
    assert_eq!(outgoing(ResponseKind::Receiver, ChannelEvent::Closed), (Kind::StreamClosed, true));
}

#[test]
fn control_packets() {
    let p: Msg = ping_packet();
    assert_eq!(p.header().flags().kind(), Kind::Ping);
    let p: Msg = close_packet();
    assert_eq!(p.header().flags().kind(), Kind::Close);
    let p: Msg = stream_close_packet(12);
    assert_eq!(p.header().flags().kind(), Kind::StreamClosed);
    assert_eq!(p.header().id(), 12);
    let p: Msg = kind_packet(Kind::NoResponse, 3);
    assert_eq!(p.header().flags().kind(), Kind::NoResponse);
    assert_eq!(p.header().id(), 3);
    let mut p: Msg = Message::new();
    p.write_body(&[1, 2]);
    stamp(&mut p, Kind::Response, 44);
    assert_eq!(p.header().flags().kind(), Kind::Response);
    assert_eq!(p.header().id(), 44);
    assert_eq!(p.body(), &[1, 2][..]);
    assert_eq!(not_supported(Kind::NewStream), "NewStream not supported");
}

#[test]
fn ping_margins() {
    assert_eq!(ping_margin_secs(0), 0);
    assert_eq!(ping_margin_secs(1), 0);
    assert_eq!(ping_margin_secs(2), 1);
    assert_eq!(ping_margin_secs(10), 1);
    assert_eq!(ping_margin_secs(11), 5);
}

#[test]
fn stream_closes_once() {
    let mut c = StreamControl::new();
    assert!(c.is_open());
    c.on_local_close();
    assert!(!c.is_open());
    assert!(c.finish());
    assert!(!c.finish());

    let mut c = StreamControl::new();
    c.on_remote_close();
    assert!(!c.is_open());
    assert!(!c.finish());
}
