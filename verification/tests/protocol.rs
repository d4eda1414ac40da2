use sqa::actions::{ActionMetadata, ActionParameters, AudioParams};
use sqa::codec::{Command, SocketAddress};
use sqa::errors::BackendError;
use sqa::routes::{
    command_from_osc, command_route_address, parse_command_route, parse_reply_route, reply_from_osc,
    reply_route_address, take_args, wrong_args_error, ArgKind, CommandKind, CommandRoute, OscArg, ReplyKind,
    ReplyRoute,
};
use sqa::oscpath::{join_address, split_address};
use sqa::wire::{OscPacket, SqaClientCodec, SqaWireCodec};

const UU: u128 = 0x0123_4567_89ab_cdef_0123_4567_89ab_cdef;
const UU_TEXT: &str = "01234567-89ab-cdef-0123-456789abcdef";

#[test]
fn split_address_segments() {
    assert_eq!(split_address("/a/b"), vec!["", "a", "b"]);
    assert_eq!(split_address(""), vec![""]);
    assert_eq!(split_address("//x/"), vec!["", "", "x", ""]);
}

#[test]
fn join_address_segments() {
    assert_eq!(join_address(&vec!["system".to_string(), "undo".to_string()]), "/system/undo");
    assert_eq!(join_address(&vec![]), "");
}

#[test]
fn parse_plain_routes() {
    let r = parse_command_route("/ping").unwrap();
    assert_eq!(r.kind, CommandKind::Ping);
    assert_eq!(r.uuid, 0);
    assert_eq!(r.typ, "");
    assert_eq!(parse_command_route("/system/undostate").unwrap().kind, CommandKind::GetUndoState);
    assert_eq!(parse_command_route("/mixer/config/set").unwrap().kind, CommandKind::SetMixerConf);
    assert_eq!(parse_command_route("/subscribe/associate").unwrap().kind, CommandKind::SubscribeAndAssociate);
}

#[test]
fn parse_routes_with_uuid_and_type() {
    let r = parse_command_route(&format!("/action/{}/update", UU_TEXT)).unwrap();
    assert_eq!(r.kind, CommandKind::UpdateActionParams);
    assert_eq!(r.uuid, UU);
    let r = parse_command_route(&format!("/action/{}/revive/fade", UU_TEXT)).unwrap();
    assert_eq!(r.kind, CommandKind::ReviveAction);
    assert_eq!(r.uuid, UU);
    assert_eq!(r.typ, "fade");
    let r = parse_command_route("/actions/audio/new").unwrap();
    assert_eq!(r.kind, CommandKind::CreateAction);
    assert_eq!(r.typ, "audio");
    let r = parse_command_route(&format!("/waveform/{}/generate", UU_TEXT)).unwrap();
    assert_eq!(r.kind, CommandKind::GenerateWaveform);
    assert_eq!(r.uuid, UU);
}

#[test]
fn parse_route_errors() {
    assert_eq!(parse_command_route(""), Err(BackendError::Msg("Blank OSC path.".to_string())));
    assert_eq!(parse_command_route("ping"), Err(BackendError::Msg("Blank OSC path.".to_string())));
    assert_eq!(parse_command_route("/nothing/here"), Err(BackendError::UnknownOSCPath));
    assert_eq!(parse_command_route("/ping/"), Err(BackendError::UnknownOSCPath));
    assert!(matches!(parse_command_route("/action/not-a-uuid"), Err(BackendError::Uuid(_))));
}

#[test]
fn command_address_round_trip() {
    let route = CommandRoute { kind: CommandKind::CreateActionWithExtras, uuid: UU, typ: "audio".to_string() };
    let addr = command_route_address(&route);
    assert_eq!(addr, format!("/action/{}/create_extra/audio", UU_TEXT));
    assert_eq!(parse_command_route(&addr).unwrap(), route);
    let route = CommandRoute { kind: CommandKind::Version, uuid: 0, typ: String::new() };
    assert_eq!(command_route_address(&route), "/version");
}

#[test]
fn reply_address_round_trip() {
    let route = ReplyRoute { kind: ReplyKind::WaveformGenerated, uuid: UU };
    let addr = reply_route_address(&route);
    assert_eq!(addr, format!("/reply/waveform/{}/generated", UU_TEXT));
    assert_eq!(parse_reply_route(&addr).unwrap(), route);
    assert_eq!(parse_reply_route("/error/oversized").unwrap().kind, ReplyKind::OversizedReply);
    assert_eq!(parse_reply_route(&format!("/update/action/{}/delete", UU_TEXT)).unwrap().kind, ReplyKind::UpdateActionDeleted);
}

#[test]
fn command_routes_of_values() {
    let c = Command::ReorderAction { uuid: UU, new_pos: 3 };
    let r = c.route();
    assert_eq!((r.kind, r.uuid), (CommandKind::ReorderAction, UU));
    let c = Command::CreateActionWithUuid { typ: "fade".to_string(), uuid: UU };
    assert_eq!(command_route_address(&c.route()), format!("/action/{}/create/fade", UU_TEXT));
    let c = Command::LoadSavefile { load_from: "x.sqa".to_string(), force: true };
    assert_eq!(c.plain_args(), vec![OscArg::Str("x.sqa".to_string()), OscArg::Bool(true)]);
    assert_eq!(Command::Ping.plain_args(), vec![]);
}

#[test]
fn take_args_in_order() {
    let (taken, err) = take_args(&vec![ArgKind::Str, ArgKind::Bool], vec![OscArg::Str("f".into()), OscArg::Bool(false), OscArg::Other]);
    assert_eq!(taken, vec![OscArg::Str("f".into()), OscArg::Bool(false)]);
    assert_eq!(err, None);
    let (taken, err) = take_args(&vec![ArgKind::Blob, ArgKind::Blob], vec![OscArg::Blob(vec![1])]);
    assert_eq!(taken, vec![OscArg::Blob(vec![1])]);
    assert_eq!(err, Some(BackendError::OSCWrongArgs("blob".into())));
    let (taken, err) = take_args(&vec![ArgKind::Str], vec![OscArg::Bool(true)]);
    assert_eq!(taken, vec![]);
    assert_eq!(err, Some(BackendError::OSCWrongArgs("string".into())));
    assert_eq!(wrong_args_error(ArgKind::Bool), BackendError::OSCWrongArgs("bool".into()));
}

#[test]
fn commands_from_osc_messages() {
    let c = command_from_osc("/system/load", vec![OscArg::Str("a".into()), OscArg::Bool(true)]).unwrap();
    assert_eq!(c.route.kind, CommandKind::LoadSavefile);
    assert_eq!(c.args.len(), 2);
    assert_eq!(c.arg_error, None);
    let c = command_from_osc("/system/save", vec![]).unwrap();
    assert_eq!(c.arg_error, Some(BackendError::OSCWrongArgs("string".into())));
    assert_eq!(command_from_osc("/nope", vec![]).unwrap_err(), BackendError::UnknownOSCPath);
    let r = reply_from_osc("/reply/version", vec![OscArg::Str("1.0".into())]).unwrap();
    assert_eq!(r.route.kind, ReplyKind::ServerVersion);
    assert_eq!(r.args, vec![OscArg::Str("1.0".into())]);
}

#[test]
fn wire_codecs() {
    let here = SocketAddress::V4 { ip: 0x7f000001, port: 1234 };
    let other = SocketAddress::V4 { ip: 0x7f000001, port: 9 };
    let codec = SqaWireCodec;
    let m = codec.decode(here, OscPacket::Message { addr: "/ping".into(), args: vec![] });
    assert_eq!(m.addr, here);
    let (path, cmd) = m.pkt.unwrap();
    assert_eq!(path, "/ping");
    assert_eq!(cmd.route.kind, CommandKind::Ping);
    assert_eq!(codec.decode(here, OscPacket::Bundle).pkt.unwrap_err(), BackendError::UnsupportedOSCBundle);
    assert_eq!(codec.decode(here, OscPacket::Malformed("bad".into())).pkt.unwrap_err(), BackendError::OSC("bad".into()));
    let client = SqaClientCodec::new(here);
    assert_eq!(
        client.decode(other, OscPacket::Message { addr: "/pong".into(), args: vec![] }).unwrap_err(),
        BackendError::Msg("Received a message from another server.".into())
    );
    assert_eq!(client.decode(here, OscPacket::Message { addr: "/pong".into(), args: vec![] }).unwrap().route.kind, ReplyKind::Pong);
}

#[test]
fn error_messages() {
    assert_eq!(BackendError::UnknownOSCPath.message(), "The OSC path provided was unknown.");
    assert_eq!(BackendError::OSCWrongType(3, "blob".into()).message(), "Argument 3 should be a blob");
    assert_eq!(BackendError::OSCWrongArgs("bool".into()).message(), "expected a bool");
    assert_eq!(BackendError::Uuid("X".into()).message(), "Error parsing UUID: X");
    assert_eq!(BackendError::msg("plain").message(), "plain");
    assert_eq!(BackendError::UnsupportedOSCBundle.message(), "OSC bundles are not yet supported.");
}

#[test]
fn command_values_compare() {
    let meta = ActionMetadata::default();
    assert_eq!(meta.name, None);
    let p = ActionParameters::Audio(AudioParams { url: None, chans: vec![] });
    let c = Command::ReviveAction { uuid: 1, typ: "audio".into(), meta: meta.clone(), params: p.clone() };
    assert_eq!(c.route().typ, "audio");
}
