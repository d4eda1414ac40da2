use sqa::clients::{Clients, Requester, SendPlan, Transport};
use sqa::codec::SocketAddress;
use sqa::duration::Duration;
use sqa::errors::BackendError;
use sqa::routes::{CommandKind, OscArg, ReplyKind};
use sqa::waveform::{WaveformOutcome, WaveformRegistry, WaveformRequest};
use sqa::wire::{SqaClientCodec, SqaWireCodec};
use sqa::link::{on_reply, LinkOutput, LinkReply, LinkState};
use sqa::codec::Command;
use sqa::routes::parse_command_route;

fn addr(port: u16) -> SocketAddress {
    SocketAddress::V4 { ip: 0x7f000001, port }
}

#[test]
fn server_decodes_datagram_bytes() {
    let m = SqaWireCodec.decode_bytes(addr(1), b"/ping\0\0\0,\0\0\0");
    assert_eq!(m.addr, addr(1));
    let (a, c) = m.pkt.unwrap();
    assert_eq!(a, "/ping");
    assert_eq!(c.route.kind, CommandKind::Ping);
    assert!(matches!(SqaWireCodec.decode_bytes(addr(1), b"xyz").pkt, Err(BackendError::OSC(_))));
}

#[test]
fn client_decodes_datagram_bytes() {
    let client = SqaClientCodec::new(addr(1));
    assert_eq!(
        client.decode_bytes(addr(2), b"/pong\0\0\0,\0\0\0").unwrap_err().message(),
        "Received a message from another server."
    );
    assert_eq!(client.decode_bytes(addr(1), b"/pong\0\0\0,\0\0\0").unwrap().route.kind, ReplyKind::Pong);
}

#[test]
fn send_raw_encodes_and_routes() {
    let mut c = Clients::new();
    let p = c.send_raw(addr(53001), "/pong", &vec![]);
    assert_eq!(p, SendPlan::Udp(addr(53001), b"/pong\0\0\0,\0\0\0".to_vec()));
    let big = OscArg::Str("x".repeat(600));
    let p = c.send_raw(addr(53001), "/pong", &vec![big]);
    assert_eq!(p, SendPlan::Udp(addr(53001), b"/error/oversized\0\0\0\0,\0\0\0".to_vec()));
}

#[test]
fn failed_tcp_send_unsubscribes() {
    let mut c = Clients::new();
    c.tcp_connected(addr(9));
    c.subscribe(Requester { transport: Transport::Tcp, addr: addr(9) }, 0);
    assert_eq!(c.broadcast_targets(0).1, vec![addr(9)]);
    c.tcp_send_failed(addr(9));
    assert!(c.broadcast_targets(0).1.is_empty());
    assert!(c.send_tcp(addr(9), "/pong", &vec![]).is_some());
    assert!(c.send_tcp(addr(8), "/pong", &vec![]).is_none());
}

#[test]
fn waveform_requests_are_tracked() {
    let req = WaveformRequest {
        file: "file:///a.wav".into(),
        samples_per_pixel: 100,
        range_start: None,
        range_end: None,
    };
    let mut w = WaveformRegistry::new();
    assert!(matches!(w.execute_request(7, &req, None), WaveformOutcome::NeedLength(_)));
    assert_eq!(
        w.execute_request(7, &req, Some(Err(BackendError::Msg("cannot open".into())))),
        WaveformOutcome::Fail(BackendError::Msg("cannot open".into()))
    );
    assert_eq!(
        w.execute_request(7, &req, Some(Ok(Duration::new(3, 0)))),
        WaveformOutcome::Started(Duration::zero(), Duration::new(3, 0))
    );
    assert_eq!(w.execute_request(7, &req, None), WaveformOutcome::InProgress);
    w.finish(7, true);
    assert_eq!(w.execute_request(7, &req, None), WaveformOutcome::Resend);
    let empty = WaveformRequest { range_start: Some(Duration::new(5, 0)), ..req.clone() };
    assert_eq!(
        w.execute_request(8, &empty, Some(Ok(Duration::new(3, 0)))).clone_msg(),
        Some("Waveform request start point is greater than or equal to end point.".to_string())
    );
    let bad = WaveformRequest { file: "http://x/a.wav".into(), ..req };
    assert!(matches!(w.execute_request(9, &bad, None), WaveformOutcome::Fail(BackendError::Msg(_))));
}

trait FailText {
    fn clone_msg(&self) -> Option<String>;
}

impl FailText for WaveformOutcome {
    fn clone_msg(&self) -> Option<String> {
        match self {
            WaveformOutcome::Fail(e) => Some(e.message()),
            _ => None,
        }
    }
}

#[test]
fn message_bytes_follow_osc_layout() {
    let mut c = Clients::new();
    let args = vec![OscArg::Str("hi".into()), OscArg::Blob(vec![1, 2, 3, 4, 5]), OscArg::Bool(true)];
    let mut want: Vec<u8> = b"/a\0\0,sbT\0\0\0\0hi\0\0".to_vec();
    want.extend_from_slice(&[0, 0, 0, 5, 1, 2, 3, 4, 5, 0, 0, 0]);
    assert_eq!(c.send_raw(addr(53001), "/a", &args), SendPlan::Udp(addr(53001), want));
    let args = vec![OscArg::Str("\u{e9}".into()), OscArg::Bool(false)];
    let want: Vec<u8> = b"/a\0\0,sF\0\xc3\xa9\0\0".to_vec();
    assert_eq!(c.send_raw(addr(53001), "/a", &args), SendPlan::Udp(addr(53001), want));
}

#[test]
fn uuid_refusal_carries_parser_message() {
    let e = parse_command_route("/action/not-a-uuid").unwrap_err();
    let want = format!("{:?}", uuid::Uuid::parse_str("not-a-uuid").unwrap_err());
    assert_eq!(e, BackendError::Uuid(want));
}

#[test]
fn accepted_subscription_connects() {
    let mut s = LinkState::SubscriptionQuerySent { addr: addr(1234), ver: "1".into() };
    let out = on_reply(&mut s, LinkReply::Associated(Ok(())), addr(40000));
    assert!(matches!(s, LinkState::Connected { .. }));
    assert_eq!(out[0], LinkOutput::Send(Command::Ping));
}
