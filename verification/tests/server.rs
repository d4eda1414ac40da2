use sqa::action_manager::ActionManager;
use sqa::clients::{broadcast_sent_count, reply_address, Clients, Requester, Route, Transport, UDP_MAX_PACKET_SIZE};
use sqa::codec::{Command, SocketAddress};
use sqa::dispatch::{announce_changes, process_command, register_undoable, Backend, Output, Response};
use sqa::undo::{UndoContext, UndoableChange};

fn addr(port: u16) -> SocketAddress {
    SocketAddress::V4 { ip: 0x7f000001, port }
}

fn udp(port: u16) -> Requester {
    Requester { transport: Transport::Udp, addr: addr(port) }
}

fn backend() -> Backend<String> {
    Backend { actions: ActionManager::new(), undo: UndoContext::new(), clients: Clients::new() }
}

#[test]
fn subscribe_and_associate_flow() {
    let mut c = Clients::new();
    assert_eq!(c.associate(udp(1), addr(2)), Err("Can't associate a non-subscribed client.".to_string()));
    c.subscribe(udp(1), 100);
    assert_eq!(
        c.associate(udp(1), addr(2)),
        Err("Address to associate isn't an active TCP connection source address.".to_string())
    );
    c.tcp_connected(addr(2));
    assert_eq!(c.tcp_client(addr(2)), Some(false));
    assert_eq!(c.associate(udp(1), addr(2)), Ok(()));
    assert_eq!(c.udp_client(addr(1)).unwrap().tcp_addr, Some(addr(2)));
    let tcp_rd = Requester { transport: Transport::Tcp, addr: addr(2) };
    assert_eq!(c.associate(tcp_rd, addr(2)), Err("Can't associate on a TCP connection.".to_string()));
    c.subscribe(tcp_rd, 0);
    assert_eq!(c.tcp_client(addr(2)), Some(true));
}

#[test]
fn large_messages_route() {
    let mut c = Clients::new();
    assert_eq!(c.route_message(addr(1), UDP_MAX_PACKET_SIZE), Route::Udp);
    assert_eq!(c.route_message(addr(1), UDP_MAX_PACKET_SIZE + 1), Route::Oversized);
    c.subscribe(udp(1), 0);
    c.tcp_connected(addr(2));
    c.associate(udp(1), addr(2)).unwrap();
    assert_eq!(c.route_message(addr(1), 4000), Route::Tcp(addr(2)));
    c.tcp_disconnected(addr(2));
    assert_eq!(c.route_message(addr(1), 4000), Route::Oversized);
    assert_eq!(c.udp_client(addr(1)).unwrap().tcp_addr, None);
}

#[test]
fn subscriptions_expire_after_thirty_seconds() {
    let mut c = Clients::new();
    c.subscribe(udp(1), 0);
    c.subscribe(udp(2), 10_000_000_000);
    c.tcp_connected(addr(3));
    c.subscribe(Requester { transport: Transport::Tcp, addr: addr(3) }, 0);
    c.tcp_connected(addr(4));
    let (u, t) = c.broadcast_targets(30_000_000_000);
    assert_eq!(u.len(), 2);
    assert_eq!(t, vec![addr(3)]);
    let (u, _) = c.broadcast_targets(30_000_000_001);
    assert_eq!(u, vec![addr(2)]);
    assert!(c.udp_client(addr(1)).is_none());
    c.heard_from(udp(9), 35_000_000_000);
    assert_eq!(c.udp_client(addr(2)).unwrap().subscribed_at, 35_000_000_000);
    assert_eq!(broadcast_sent_count(1, 3), 4);
    assert_eq!(reply_address(addr(7)), addr(53001));
}

#[test]
fn ping_and_version() {
    let mut b = backend();
    let out = process_command(&mut b, udp(1), 0, "1.2.3", Command::Ping);
    assert_eq!(out, vec![Output::Respond(Response::Pong)]);
    let out = process_command(&mut b, udp(1), 0, "1.2.3", Command::Version);
    assert_eq!(out, vec![Output::Respond(Response::ServerVersion("1.2.3".into()))]);
}

#[test]
fn subscribe_command_associates() {
    let mut b = backend();
    b.clients.tcp_connected(addr(5));
    let out = process_command(&mut b, udp(1), 7, "v", Command::SubscribeAndAssociate { addr: addr(5) });
    assert_eq!(out, vec![Output::Respond(Response::Subscribed), Output::Respond(Response::Associated(Ok(())))]);
    assert_eq!(b.clients.udp_client(addr(1)).unwrap().subscribed_at, 7);
}

#[test]
fn delete_and_reorder_commands() {
    let mut b = backend();
    b.actions.insert(1, "one".to_string());
    b.actions.insert(2, "two".to_string());
    let out = process_command(&mut b, udp(1), 0, "v", Command::ReorderAction { uuid: 2, new_pos: 0 });
    assert_eq!(out, vec![Output::Respond(Response::ActionReordered { uuid: 2, res: Ok(()) })]);
    assert_eq!(b.actions.order(), &vec![2, 1]);
    let out = process_command(&mut b, udp(1), 0, "v", Command::ReorderAction { uuid: 2, new_pos: 5 });
    assert_eq!(out, vec![Output::Respond(Response::ActionReordered { uuid: 2, res: Err("New position is out of bounds".into()) })]);
    let out = process_command(&mut b, udp(1), 0, "v", Command::DeleteAction { uuid: 2 });
    assert_eq!(
        out,
        vec![
            Output::Respond(Response::ActionDeleted { uuid: 2, deleted: true }),
            Output::Broadcast(Response::UpdateActionDeleted { uuid: 2 }),
            Output::BroadcastActionList,
        ]
    );
    let out = process_command(&mut b, udp(1), 0, "v", Command::DeleteAction { uuid: 2 });
    assert_eq!(out, vec![Output::Respond(Response::ActionDeleted { uuid: 2, deleted: false })]);
    assert_eq!(b.actions.order(), &vec![1]);
}

#[test]
fn other_commands_are_performed() {
    let mut b = backend();
    let cmd = Command::LoadAction { uuid: 3 };
    assert_eq!(process_command(&mut b, udp(1), 0, "v", cmd.clone()), vec![Output::Perform(cmd)]);
    assert_eq!(process_command(&mut b, udp(1), 0, "v", Command::VerifyAction { uuid: 3 }), vec![]);
    assert_eq!(process_command(&mut b, udp(1), 0, "v", Command::ActionList), vec![Output::BroadcastActionList]);
}

#[test]
fn undo_and_redo_commands() {
    let mut b = backend();
    b.actions.insert(1, "one".to_string());
    b.actions.insert(2, "two".to_string());
    let ch = UndoableChange {
        undo: Command::ReorderAction { uuid: 2, new_pos: 1 },
        redo: Command::ReorderAction { uuid: 2, new_pos: 0 },
        desc: "reorder action".into(),
    };
    let note = register_undoable(&mut b, ch);
    match note {
        Output::Broadcast(Response::ReplyUndoState(s)) => {
            assert_eq!(s.undo, Some("reorder action".to_string()));
            assert_eq!(s.redo, None);
        },
        _ => panic!("expected an undo state"),
    }
    process_command(&mut b, udp(1), 0, "v", Command::ReorderAction { uuid: 2, new_pos: 0 });
    let out = process_command(&mut b, udp(1), 0, "v", Command::Undo);
    assert_eq!(out.len(), 2);
    assert_eq!(out[1], Output::Respond(Response::ActionReordered { uuid: 2, res: Ok(()) }));
    assert_eq!(b.actions.order(), &vec![1, 2]);
    assert!(!b.undo.can_undo_safely() || b.undo.state().undo.is_none());
    let out = process_command(&mut b, udp(1), 0, "v", Command::Redo);
    assert_eq!(out.len(), 2);
    assert_eq!(b.actions.order(), &vec![2, 1]);
    let out = process_command(&mut b, udp(1), 0, "v", Command::Redo);
    assert_eq!(out, vec![]);
}

#[test]
fn announce_changes_after_command() {
    let mut b = backend();
    b.actions.insert(1, "one".to_string());
    b.actions.mark_changed(1);
    b.actions.mark_changed(9);
    let out = announce_changes(&mut b);
    assert_eq!(out, vec![Output::BroadcastActionChanged(1), Output::Broadcast(Response::UpdateOrder(vec![1]))]);
    assert_eq!(announce_changes(&mut b), vec![]);
}

#[test]
fn undo_history_states() {
    let mut u = UndoContext::new();
    assert_eq!(u.state().undo, None);
    assert_eq!(u.undo(), None);
    u.register_change(UndoableChange { undo: Command::Ping, redo: Command::Version, desc: "first".into() });
    assert_eq!(u.undo(), Some(Command::Ping));
    assert_eq!(u.state().redo, Some("first".into()));
    assert_eq!(u.redo(), Some(Command::Version));
    assert_eq!(u.redo(), None);
}

#[test]
fn action_manager_order() {
    let mut m: ActionManager<u8> = ActionManager::new();
    m.insert(10, 1);
    m.insert_with_order(20, 2, 0);
    assert_eq!(m.order(), &vec![20, 10]);
    assert_eq!(m.position_of(10), Some(1));
    assert_eq!(m.restore_order(vec![10, 20]), Ok(()));
    assert!(m.restore_order(vec![10, 30]).is_err());
    assert_eq!(m.order(), &vec![10, 20]);
    assert_eq!(m.reorder(99, 0).unwrap_err().message(), "UUID not present in order");
    assert_eq!(m.remove(10), Some(1));
    assert_eq!(m.order(), &vec![20]);
    assert!(m.clear_order_changed());
    assert!(!m.clear_order_changed());
    let mut l = m.action_list();
    l.sort();
    assert_eq!(l, vec![20]);
}

#[test]
fn action_manager_wakeup_keeps_only_actions_that_ask() {
    let mut m: ActionManager<u8> = ActionManager::new();
    m.insert(1, 1);
    m.insert(2, 2);
    m.insert(3, 3);
    m.register_interest(1);
    m.register_interest(2);
    m.register_interest(3);
    m.register_interest(4);
    m.on_wakeup(&vec![(1, true), (2, false), (4, true)]);
    let mut l = m.interested_list();
    l.sort();
    assert_eq!(l, vec![1]);
}

#[test]
fn registering_after_undo_discards_undone_change() {
    let mut u = UndoContext::new();
    u.register_change(UndoableChange { undo: Command::Ping, redo: Command::Version, desc: "a".into() });
    assert_eq!(u.undo(), Some(Command::Ping));
    u.register_change(UndoableChange { undo: Command::Subscribe, redo: Command::ActionList, desc: "b".into() });
    assert_eq!(u.state().undo, Some("b".into()));
    assert_eq!(u.state().redo, None);
    assert_eq!(u.redo(), None);
    assert_eq!(u.undo(), Some(Command::Subscribe));
    assert_eq!(u.undo(), None);
}
