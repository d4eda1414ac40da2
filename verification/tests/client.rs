use sqa::actions::{ActionMetadata, ActionParameters, AudioParams, OpaqueAction, PlaybackState};
use sqa::actionview::{
    dnd_reorder, dropped_file_command, outcome_notice, paste_command, progress_text, renamed, state_icon, type_icon,
    with_prewait, ActionStore, Notice,
};
use sqa::codec::{Command, SocketAddress};
use sqa::duration::{Duration, DurationInfo};
use sqa::link::{
    make_public, on_ping_timer, on_reply_at, on_request, on_tcp_opened, reply_destination, send_over_tcp, LinkOutput,
    LinkReply, LinkRequest, LinkState, PublicState, ReplyDestination,
};
use sqa::routes::ReplyKind;
use sqa::undo::{cmd_as_undoable, prior_state_needed, PriorState, PriorStateKind};
use sqa::session::{labels_for, on_save_request, SaveOutput, SaveRequest};
use sqa::session::{on_prefs_request, PrefsRequest, ServerPrefs};
use sqa::actions::AudioChannel;
use sqa::actionview::{patch_index, waveform_request, with_patch_change};

fn server() -> SocketAddress {
    SocketAddress::V4 { ip: 0x7f000001, port: 1234 }
}

fn local() -> SocketAddress {
    SocketAddress::V4 { ip: 0x7f000001, port: 40000 }
}

fn action(uu: u128, name: Option<&str>, state: PlaybackState) -> OpaqueAction {
    OpaqueAction {
        state,
        params: ActionParameters::Audio(AudioParams { url: None, chans: vec![] }),
        desc: format!("desc {}", uu),
        meta: ActionMetadata { name: name.map(|n| n.to_string()), prewait: Duration::zero(), number: None },
        uu,
    }
}

#[test]
fn handshake_to_connected() {
    let mut s = LinkState::Disconnected;
    assert_eq!(on_request(&mut s, LinkRequest::Connect(server())), vec![LinkOutput::OpenTcp(server()), LinkOutput::Notify]);
    match make_public(&s) {
        PublicState::Connecting { status, .. } => assert_eq!(status, "Establishing TCP connection"),
        _ => panic!("expected connecting"),
    }
    assert_eq!(on_tcp_opened(&mut s, Ok(())), vec![LinkOutput::Send(Command::Version)]);
    let out = on_reply_at(&mut s, LinkReply::ServerVersion("1.0".into()), local(), 0, 0, 0, 0);
    assert_eq!(out, vec![LinkOutput::Send(Command::SubscribeAndAssociate { addr: local() }), LinkOutput::Notify]);
    let out = on_reply_at(&mut s, LinkReply::Associated(Ok(())), local(), 10, 11, 12, 0);
    assert_eq!(
        out,
        vec![
            LinkOutput::Send(Command::Ping),
            LinkOutput::Notify,
            LinkOutput::ArmPingTimer,
            LinkOutput::Send(Command::GetMixerConf),
            LinkOutput::Send(Command::GetUndoState),
            LinkOutput::Send(Command::ActionList),
            LinkOutput::NewlyConnected,
            LinkOutput::Notify,
        ]
    );
    assert_eq!(s, LinkState::Connected { addr: server(), ver: "1.0".into(), last_ping: 12, last_pong: 11 });
    assert_eq!(on_reply_at(&mut s, LinkReply::Pong, local(), 0, 0, 0, 20), vec![LinkOutput::Notify]);
    assert_eq!(
        on_reply_at(&mut s, LinkReply::Other(ReplyKind::UpdateOrder), local(), 0, 0, 0, 0),
        vec![LinkOutput::Forward(ReplyDestination::Actions)]
    );
    assert_eq!(on_ping_timer(&mut s, 30), vec![LinkOutput::Send(Command::Ping), LinkOutput::Notify, LinkOutput::ArmPingTimer]);
    assert_eq!(on_ping_timer(&mut s, 40), vec![LinkOutput::NewlyDisconnected, LinkOutput::Notify, LinkOutput::ArmPingTimer]);
    assert_eq!(s, LinkState::Disconnected);
}

#[test]
fn handshake_failures() {
    let mut s = LinkState::TcpConnecting { addr: server() };
    assert_eq!(
        on_tcp_opened(&mut s, Err("refused".into())),
        vec![LinkOutput::ShowError("Error connecting to server: refused".into()), LinkOutput::Notify]
    );
    let mut s = LinkState::SubscriptionQuerySent { addr: server(), ver: "1".into() };
    assert_eq!(
        on_reply_at(&mut s, LinkReply::Associated(Err("no".into())), local(), 0, 0, 0, 0),
        vec![LinkOutput::ShowError("Associating with server failed: no".into()), LinkOutput::Notify]
    );
    assert_eq!(s, LinkState::Disconnected);
    let mut s = LinkState::Disconnected;
    assert_eq!(
        on_request(&mut s, LinkRequest::Send(Command::Ping)),
        vec![LinkOutput::ShowError("Not connected, but tried to send messages.".into())]
    );
    assert!(send_over_tcp(509));
    assert!(!send_over_tcp(508));
    assert_eq!(reply_destination(ReplyKind::SavefileLoaded), ReplyDestination::Save);
    assert_eq!(reply_destination(ReplyKind::Pong), ReplyDestination::Ignored);
}

#[test]
fn store_rows_follow_order() {
    let mut st = ActionStore::new();
    assert!(st.update_info(1, action(1, Some("First"), PlaybackState::Inactive)));
    assert!(st.update_info(2, action(2, None, PlaybackState::Loaded)));
    assert!(!st.update_info(1, action(1, Some("Renamed"), PlaybackState::Inactive)));
    st.set_order(vec![2, 3, 1]);
    let rows = st.rows();
    assert_eq!(rows.len(), 2);
    assert_eq!(rows[0].uuid, 2);
    assert_eq!(rows[0].name, "desc 2");
    assert_eq!(rows[0].state_icon, "gtk-home");
    assert_eq!(rows[0].type_icon, "audio-x-generic");
    assert_eq!(rows[1].name, "Renamed");
    st.deleted(2);
    assert_eq!(st.rows().len(), 1);
}

#[test]
fn store_replaced_by_list() {
    let mut st = ActionStore::new();
    st.update_info(1, action(1, None, PlaybackState::Inactive));
    st.update_info(2, action(2, None, PlaybackState::Inactive));
    let gone = st.replace_all(vec![(2, action(2, Some("two"), PlaybackState::Inactive)), (3, action(3, None, PlaybackState::Inactive))], vec![3, 2]);
    assert_eq!(gone, vec![1]);
    assert!(st.get(1).is_none());
    assert_eq!(st.get(2).unwrap().meta.name, Some("two".to_string()));
    assert_eq!(st.order(), &vec![3, 2]);
}

#[test]
fn progress_texts() {
    let info = DurationInfo { elapsed: Duration::new(61, 600_000_000), pos: true, est_duration: None };
    assert_eq!(progress_text(&PlaybackState::Active(Some(info))), "T+01:02");
    let info = DurationInfo { elapsed: Duration::new(5, 0), pos: false, est_duration: None };
    assert_eq!(progress_text(&PlaybackState::Paused(Some(info))), "T-00:05");
    assert_eq!(progress_text(&PlaybackState::Active(None)), "");
    assert_eq!(state_icon(&PlaybackState::Errored("x".into())), "gtk-dialog-error");
    assert_eq!(type_icon(&ActionParameters::Audio(AudioParams { url: None, chans: vec![] })), "audio-x-generic");
}

#[test]
fn dnd_positions() {
    let order = vec![10, 20, 30, 40];
    assert_eq!(dnd_reorder(&order, 40, 30, false), Some(Command::ReorderAction { uuid: 40, new_pos: 1 }));
    assert_eq!(dnd_reorder(&order, 40, 10, false), Some(Command::ReorderAction { uuid: 40, new_pos: 0 }));
    assert_eq!(dnd_reorder(&order, 10, 20, true), Some(Command::ReorderAction { uuid: 10, new_pos: 2 }));
    assert_eq!(dnd_reorder(&order, 10, 30, true), Some(Command::ReorderAction { uuid: 10, new_pos: 2 }));
    assert_eq!(dnd_reorder(&order, 99, 30, true), None);
    assert_eq!(dnd_reorder(&order, 10, 99, true), None);
}

#[test]
fn gestures_make_commands() {
    let a = action(7, Some("x"), PlaybackState::Inactive);
    match paste_command(a.clone(), true, 99) {
        Command::ReviveAction { uuid, typ, .. } => {
            assert_eq!(uuid, 99);
            assert_eq!(typ, "audio");
        },
        _ => panic!("expected a revive"),
    }
    match paste_command(a, false, 99) {
        Command::ReviveAction { uuid, .. } => assert_eq!(uuid, 7),
        _ => panic!("expected a revive"),
    }
    match dropped_file_command("file:///a.wav".into(), 5) {
        Command::CreateActionWithExtras { typ, uuid, params: ActionParameters::Audio(p) } => {
            assert_eq!((typ.as_str(), uuid), ("audio", 5));
            assert_eq!(p.url, Some("file:///a.wav".to_string()));
        },
        _ => panic!("expected a create"),
    }
    let m = ActionMetadata { name: None, prewait: Duration::new(1, 0), number: Some("3".into()) };
    let r = renamed(&m, Some("n".into()));
    assert_eq!((r.name.clone(), r.prewait, r.number.clone()), (Some("n".to_string()), Duration::new(1, 0), Some("3".to_string())));
    let w = with_prewait(&m, Duration::new(4, 0));
    assert_eq!(w.prewait, Duration::new(4, 0));
    assert_eq!(w.number, Some("3".to_string()));
    assert_eq!(outcome_notice("Loading action", "Action loaded.", &Ok(())), Notice::Status("Action loaded.".into()));
    assert_eq!(
        outcome_notice("Loading action", "Action loaded.", &Err("boom".into())),
        Notice::Error("Loading action failed: boom".into())
    );
}

#[test]
fn undoable_changes_of_commands() {
    let cmd = Command::ReorderAction { uuid: 4, new_pos: 0 };
    assert_eq!(prior_state_needed(&cmd), PriorStateKind::Position(4));
    let ch = cmd_as_undoable(cmd.clone(), PriorState::Position(Some(2))).unwrap();
    assert_eq!(ch.undo, Command::ReorderAction { uuid: 4, new_pos: 2 });
    assert_eq!(ch.redo, cmd);
    assert_eq!(ch.desc, "reorder action");
    assert!(cmd_as_undoable(Command::ReorderAction { uuid: 4, new_pos: 0 }, PriorState::Position(None)).is_none());
    let ch = cmd_as_undoable(Command::CreateActionWithUuid { typ: "fade".into(), uuid: 9 }, PriorState::Nothing).unwrap();
    assert_eq!(ch.undo, Command::DeleteAction { uuid: 9 });
    assert_eq!(ch.desc, "create action with type fade");
    let old = action(9, None, PlaybackState::Inactive);
    let ch = cmd_as_undoable(Command::DeleteAction { uuid: 9 }, PriorState::Action(Some(old))).unwrap();
    match ch.undo {
        Command::ReviveAction { uuid, typ, .. } => assert_eq!((uuid, typ.as_str()), (9, "audio")),
        _ => panic!("expected a revive"),
    }
    assert!(cmd_as_undoable(Command::Ping, PriorState::Nothing).is_none());
}

#[test]
fn save_controller_requests() {
    let mut cur: Option<String> = None;
    assert_eq!(on_save_request(&mut cur, SaveRequest::SaveDialog), vec![SaveOutput::ShowDialog { open: false, force: false }]);
    assert_eq!(on_save_request(&mut cur, SaveRequest::Autosave), vec![]);
    let out = on_save_request(&mut cur, SaveRequest::Open("file:///shows/a.sqa".into(), true));
    assert_eq!(out, vec![SaveOutput::Send(Command::LoadSavefile { load_from: "/shows/a.sqa".into(), force: true })]);
    assert_eq!(cur, Some("/shows/a.sqa".to_string()));
    assert_eq!(
        on_save_request(&mut cur, SaveRequest::Autosave),
        vec![SaveOutput::Send(Command::MakeSavefile { save_to: "/shows/a.sqa".into() })]
    );
    assert_eq!(
        on_save_request(&mut cur, SaveRequest::Made(Ok(()))),
        vec![SaveOutput::Tell(Notice::Status("Saved to /shows/a.sqa.".into()))]
    );
    let (title, label) = labels_for("0.1.0", &cur);
    assert_eq!(title, "SQA (0.1.0): a.sqa");
    assert_eq!(label, "Save a.sqa");
    assert_eq!(
        on_save_request(&mut cur, SaveRequest::Loaded(Err("bad".into()))),
        vec![SaveOutput::Tell(Notice::Error("Loading savefile failed: bad".into()))]
    );
    assert_eq!(cur, None);
    let (title, label) = labels_for("0.1.0", &cur);
    assert_eq!((title.as_str(), label.as_str()), ("SQA (0.1.0): no file", "Save..."));
    let out = on_save_request(&mut cur, SaveRequest::Save("http://x/y".into()));
    assert_eq!(
        out,
        vec![SaveOutput::Tell(Notice::Error(
            "Error parsing filename: The URL scheme http is not yet supported; only file:// URLs currently work.".into()
        ))]
    );
    assert_eq!(on_save_request(&mut cur, SaveRequest::OpenDialog(true)), vec![SaveOutput::ShowDialog { open: true, force: true }]);
}

#[test]
fn server_preferences() {
    let p = ServerPrefs { server: None, current: None };
    let (p, save, ticked) = on_prefs_request(p, PrefsRequest::NewlyConnected(server()));
    assert_eq!(p.current, Some(server()));
    assert!(!save);
    assert!(!ticked);
    let (p, save, ticked) = on_prefs_request(p, PrefsRequest::SetServerCurrent(true));
    assert_eq!(p.server, Some(server()));
    assert!(save && ticked);
    let (p, _, ticked) = on_prefs_request(p, PrefsRequest::SetServer(None));
    assert_eq!(p.server, None);
    assert!(!ticked);
}

#[test]
fn patch_menu_and_waveforms() {
    let defs = vec![5, 6, 5];
    assert_eq!(patch_index(Some(6), &defs), 2);
    assert_eq!(patch_index(Some(5), &defs), 1);
    assert_eq!(patch_index(Some(9), &defs), 0);
    assert_eq!(patch_index(None, &defs), 0);
    let p = AudioParams { url: None, chans: vec![AudioChannel { patch: None, vol: 3 }] };
    let q = with_patch_change(&p, &defs, 1, 2).unwrap();
    assert_eq!(q.chans, vec![AudioChannel { patch: Some(6), vol: 3 }]);
    assert!(with_patch_change(&p, &defs, 0, 2).is_none());
    assert!(with_patch_change(&p, &defs, 1, 0).is_none());
    assert!(with_patch_change(&p, &defs, 2, 1).is_none());
    assert!(with_patch_change(&p, &defs, 1, 4).is_none());
    match waveform_request(&Some("file:///a.wav".into()), false, 3) {
        Some(Command::GenerateWaveform { uuid, req }) => {
            assert_eq!(uuid, 3);
            assert_eq!(req.samples_per_pixel, 44_100);
        },
        _ => panic!("expected a request"),
    }
    assert!(waveform_request(&Some("file:///a.wav".into()), true, 3).is_none());
    assert!(waveform_request(&None, false, 3).is_none());
}
