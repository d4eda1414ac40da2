//! What the server does with each command a client sends: the changes it makes
//! to the state this library keeps (actions and their order, the undo
//! history, the clients), and the messages it sends in reply, in order.
//!
//! Commands that act on what only the running server holds (the audio engine,
//! media files, save files) are handed back to be performed.
use vstd::prelude::*;
use crate::actions::Uuid;
use crate::codec::{Command, SocketAddress};
use crate::errors::{BackendError, error_message};
use crate::undo::{UndoContext, UndoState, UndoableChange};
use crate::copies::same_command;
use crate::action_manager::{ActionManager, first_position, moved};
use crate::clients::{Clients, Requester, Transport, UdpClient};
use vstd::std_specs::iter::IteratorSpec;

verus! {

broadcast use vstd::std_specs::hash::group_hash_axioms;

/// A reply that the library composes itself.
#[derive(Debug, PartialEq)]
pub enum Response {
    Pong,
    ServerVersion(String),
    Subscribed,
    Associated(Result<(), String>),
    ActionDeleted { uuid: Uuid, deleted: bool },
    ActionReordered { uuid: Uuid, res: Result<(), String> },
    UpdateActionDeleted { uuid: Uuid },
    ReplyUndoState(UndoState),
    UpdateOrder(Vec<Uuid>),
}

/// Something the server sends or does, in the order given.
#[derive(Debug, PartialEq)]
pub enum Output {
    /// Reply to the client whose request is being handled.
    Respond(Response),
    /// Send to every subscribed client.
    Broadcast(Response),
    /// Send the whole action list, with every action's data, to every
    /// subscribed client.
    BroadcastActionList,
    /// Send the current data of this action to every subscribed client.
    BroadcastActionChanged(Uuid),
    /// Carry out a command on what the running server holds, and reply to it.
    Perform(Command),
}

/// The state of the server that this library keeps.
pub struct Backend<A> {
    pub actions: ActionManager<A>,
    pub undo: UndoContext,
    pub clients: Clients,
}

/// A request over TCP comes from an open TCP connection.
pub open spec fn requester_known(c: Clients, rd: Requester) -> bool {
    rd.transport == Transport::Tcp ==> c.tcp_clients().contains_key(rd.addr)
}

/// The UDP clients after `rd` subscribed at `now`.
pub open spec fn udp_after_subscribe(c: Clients, rd: Requester, now: u64) -> Map<SocketAddress, UdpClient> {
    if rd.transport == Transport::Udp {
        c.udp_clients().insert(rd.addr, UdpClient { subscribed_at: now, tcp_addr: None })
    } else {
        c.udp_clients()
    }
}

/// The TCP connections after `rd` subscribed.
pub open spec fn tcp_after_subscribe(c: Clients, rd: Requester) -> Map<SocketAddress, bool> {
    if rd.transport == Transport::Tcp {
        c.tcp_clients().insert(rd.addr, true)
    } else {
        c.tcp_clients()
    }
}

/// Why associating `rd` with the TCP connection from `addr` fails, if it does.
pub open spec fn association_error(
    udp: Map<SocketAddress, UdpClient>,
    tcp: Map<SocketAddress, bool>,
    rd: Requester,
    addr: SocketAddress,
) -> Option<Seq<char>> {
    if rd.transport == Transport::Tcp {
        Some("Can't associate on a TCP connection."@)
    } else if !udp.contains_key(rd.addr) {
        Some("Can't associate a non-subscribed client."@)
    } else if !tcp.contains_key(addr) {
        Some("Address to associate isn't an active TCP connection source address."@)
    } else {
        None
    }
}

/// The UDP clients after associating `rd` with the TCP connection from `addr`.
pub open spec fn udp_after_association(
    udp: Map<SocketAddress, UdpClient>,
    tcp: Map<SocketAddress, bool>,
    rd: Requester,
    addr: SocketAddress,
) -> Map<SocketAddress, UdpClient> {
    if association_error(udp, tcp, rd, addr) is None {
        udp.insert(rd.addr, UdpClient { subscribed_at: udp[rd.addr].subscribed_at, tcp_addr: Some(addr) })
    } else {
        udp
    }
}

/// `s` tells what `u` can undo and redo, by description.
pub open spec fn describes(u: UndoContext, s: UndoState) -> bool {
    &&& (s.undo is Some <==> u.undo_index() is Some)
    &&& (s.undo matches Some(d) ==> d@ == u.changes()[u.undo_index().unwrap()].desc@)
    &&& (s.redo is Some <==> u.redo_index() is Some)
    &&& (s.redo matches Some(d) ==> d@ == u.changes()[u.redo_index().unwrap()].desc@)
}

/// `m1` is `m0` after removing the action `uuid` (and its first place in the
/// order).
pub open spec fn removed_from<A>(m0: ActionManager<A>, m1: ActionManager<A>, uuid: Uuid) -> bool {
    &&& m1.actions() == m0.actions().remove(uuid)
    &&& m1.order_seq() == match first_position(m0.order_seq(), uuid) {
        Some(p) => m0.order_seq().remove(p),
        None => m0.order_seq(),
    }
    &&& m1.order_changed() == (m0.order_changed() || m0.order_seq().contains(uuid))
    &&& m1.changed() == m0.changed()
    &&& m1.interested() == m0.interested()
}

/// Why moving `uuid` to `new_pos` in `order` fails, if it does.
pub open spec fn reorder_error(order: Seq<Uuid>, uuid: Uuid, new_pos: usize) -> Option<Seq<char>> {
    if !order.contains(uuid) {
        Some("UUID not present in order"@)
    } else if new_pos >= order.len() {
        Some("New position is out of bounds"@)
    } else {
        None
    }
}

/// `m1` is `m0` after moving `uuid` to `new_pos` in the order (or unchanged,
/// if that fails).
pub open spec fn reordered<A>(m0: ActionManager<A>, m1: ActionManager<A>, uuid: Uuid, new_pos: usize) -> bool {
    &&& m1.actions() == m0.actions()
    &&& m1.changed() == m0.changed()
    &&& m1.interested() == m0.interested()
    &&& if reorder_error(m0.order_seq(), uuid, new_pos) is None {
        &&& m1.order_seq() == moved(m0.order_seq(), first_position(m0.order_seq(), uuid).unwrap(), new_pos as int)
        &&& m1.order_changed()
    } else {
        &&& m1.order_seq() == m0.order_seq()
        &&& m1.order_changed() == m0.order_changed()
    }
}

/// A result carrying the message `err` if there is one.
pub open spec fn result_with(r: Result<(), String>, err: Option<Seq<char>>) -> bool {
    match err {
        None => r is Ok,
        Some(m) => r matches Err(s) && s@ == m,
    }
}

/// What handling `cmd` (other than an undo or a redo) does: from state `b0`
/// to state `b1`, sending `out`.
pub open spec fn plain_handled<A>(
    b0: Backend<A>,
    b1: Backend<A>,
    rd: Requester,
    now: u64,
    version: Seq<char>,
    cmd: Command,
    out: Seq<Output>,
) -> bool {
    match cmd {
        Command::Ping => b1 == b0 && out == seq![Output::Respond(Response::Pong)],
        Command::Version => b1 == b0 && out.len() == 1 && (out[0] matches Output::Respond(
            Response::ServerVersion(v),
        ) && v@ == version),
        Command::Subscribe => {
            &&& b1.actions == b0.actions
            &&& b1.undo == b0.undo
            &&& b1.clients.udp_clients() == udp_after_subscribe(b0.clients, rd, now)
            &&& b1.clients.tcp_clients() == tcp_after_subscribe(b0.clients, rd)
            &&& out == seq![Output::Respond(Response::Subscribed)]
        },
        Command::SubscribeAndAssociate { addr } => {
            let udp = udp_after_subscribe(b0.clients, rd, now);
            let tcp = tcp_after_subscribe(b0.clients, rd);
            &&& b1.actions == b0.actions
            &&& b1.undo == b0.undo
            &&& b1.clients.udp_clients() == udp_after_association(udp, tcp, rd, addr)
            &&& b1.clients.tcp_clients() == tcp
            &&& out.len() == 2
            &&& out[0] == Output::Respond(Response::Subscribed)
            &&& out[1] matches Output::Respond(Response::Associated(res)) && result_with(
                res,
                association_error(udp, tcp, rd, addr),
            )
        },
        Command::ActionList => b1 == b0 && out == seq![Output::BroadcastActionList],
        Command::DeleteAction { uuid } => {
            &&& b1.undo == b0.undo
            &&& b1.clients == b0.clients
            &&& removed_from(b0.actions, b1.actions, uuid)
            &&& out == if b0.actions.actions().contains_key(uuid) {
                seq![
                    Output::Respond(Response::ActionDeleted { uuid, deleted: true }),
                    Output::Broadcast(Response::UpdateActionDeleted { uuid }),
                    Output::BroadcastActionList,
                ]
            } else {
                seq![Output::Respond(Response::ActionDeleted { uuid, deleted: false })]
            }
        },
        Command::ReorderAction { uuid, new_pos } => {
            &&& b1.undo == b0.undo
            &&& b1.clients == b0.clients
            &&& reordered(b0.actions, b1.actions, uuid, new_pos)
            &&& out.len() == 1
            &&& out[0] matches Output::Respond(Response::ActionReordered { uuid: u, res }) && u == uuid
                && result_with(res, reorder_error(b0.actions.order_seq(), uuid, new_pos))
        },
        Command::GetUndoState => b1 == b0 && out.len() == 1 && (out[0] matches Output::Respond(
            Response::ReplyUndoState(s),
        ) && describes(b0.undo, s)),
        Command::VerifyAction { .. } => b1 == b0 && out.len() == 0,
        Command::Undo => b1 == b0 && out.len() == 0,
        Command::Redo => b1 == b0 && out.len() == 0,
        _ => b1 == b0 && out == seq![Output::Perform(cmd)],
    }
}

/// The error message of a result, as a client is told it.
fn message_of(r: Result<(), BackendError>) -> (s: Result<(), String>)
    ensures
        r is Ok <==> s is Ok,
        r matches Err(e) ==> (s matches Err(m) && m@ == error_message(e)),
{
    match r {
        Ok(()) => Ok(()),
        Err(e) => Err(e.message()),
    }
}

/// Handles a command other than an undo or a redo (see `plain_handled`).
/// Undo and redo, which only `process_command` carries out, do nothing here.
pub fn handle_plain<A>(b: &mut Backend<A>, rd: Requester, now: u64, version: &str, cmd: Command) -> (out: Vec<Output>)
    requires
        old(b).undo.wf(),
        requester_known(old(b).clients, rd),
    ensures
        plain_handled(*old(b), *final(b), rd, now, version@, cmd, out@),
{
    match cmd {
        Command::Ping => {
            let out = vec![Output::Respond(Response::Pong)];
            proof {
                assert(out@ =~= seq![Output::Respond(Response::Pong)]);
            }
            out
        },
        Command::Version => vec![Output::Respond(Response::ServerVersion(String::from_str(version)))],
        Command::Subscribe => {
            b.clients.subscribe(rd, now);
            let out = vec![Output::Respond(Response::Subscribed)];
            proof {
                assert(out@ =~= seq![Output::Respond(Response::Subscribed)]);
            }
            out
        },
        Command::SubscribeAndAssociate { addr } => {
            b.clients.subscribe(rd, now);
            let res = b.clients.associate(rd, addr);
            vec![Output::Respond(Response::Subscribed), Output::Respond(Response::Associated(res))]
        },
        Command::ActionList => {
            let out = vec![Output::BroadcastActionList];
            proof {
                assert(out@ =~= seq![Output::BroadcastActionList]);
            }
            out
        },
        Command::DeleteAction { uuid } => {
            if b.actions.remove(uuid).is_some() {
                let out = vec![
                    Output::Respond(Response::ActionDeleted { uuid, deleted: true }),
                    Output::Broadcast(Response::UpdateActionDeleted { uuid }),
                    Output::BroadcastActionList,
                ];
                proof {
                    assert(out@ =~= seq![
                        Output::Respond(Response::ActionDeleted { uuid, deleted: true }),
                        Output::Broadcast(Response::UpdateActionDeleted { uuid }),
                        Output::BroadcastActionList,
                    ]);
                }
                out
            } else {
                let out = vec![Output::Respond(Response::ActionDeleted { uuid, deleted: false })];
                proof {
                    assert(out@ =~= seq![Output::Respond(Response::ActionDeleted { uuid, deleted: false })]);
                }
                out
            }
        },
        Command::ReorderAction { uuid, new_pos } => {
            let res = message_of(b.actions.reorder(uuid, new_pos));
            vec![Output::Respond(Response::ActionReordered { uuid, res })]
        },
        Command::GetUndoState => {
            let s = b.undo.state();
            vec![Output::Respond(Response::ReplyUndoState(s))]
        },
        Command::VerifyAction { .. } => Vec::new(),
        Command::Undo => Vec::new(),
        Command::Redo => Vec::new(),
        _ => {
            let ghost c = cmd;
            let out = vec![Output::Perform(cmd)];
            proof {
                assert(out@ =~= seq![Output::Perform(c)]);
            }
            out
        },
    }
}


/// What an undo (or, if `redo`, a redo) does: when the history has a change to
/// step over, it steps over it, tells every client what can now be undone and
/// redone, and then handles the command that the change gives (a copy of it)
/// as `plain_handled` says; otherwise nothing happens.
pub open spec fn undo_handled<A>(
    b0: Backend<A>,
    b1: Backend<A>,
    rd: Requester,
    now: u64,
    version: Seq<char>,
    redo: bool,
    out: Seq<Output>,
) -> bool {
    let u0 = b0.undo;
    let step = if redo { u0.redo_index() } else { u0.undo_index() };
    match step {
        None => {
            &&& b1.actions == b0.actions
            &&& b1.clients == b0.clients
            &&& b1.undo.changes() == u0.changes()
            &&& b1.undo.index() == u0.index()
            &&& out.len() == 0
        },
        Some(k) => exists|mid: Backend<A>, c: Command|
            {
                &&& mid.actions == b0.actions
                &&& mid.clients == b0.clients
                &&& mid.undo.changes() == u0.changes()
                &&& mid.undo.index() == if redo { u0.index_after_redo() } else { u0.index_after_undo() }
                &&& same_command(if redo { u0.changes()[k].redo } else { u0.changes()[k].undo }, c)
                &&& out.len() >= 1
                &&& (out[0] matches Output::Broadcast(Response::ReplyUndoState(s)) && describes(mid.undo, s))
                &&& #[trigger] plain_handled(mid, b1, rd, now, version, c, out.drop_first())
            },
    }
}

/// Handles a command from `rd`, received at `now`; `version` is the server's
/// version.
pub fn process_command<A>(b: &mut Backend<A>, rd: Requester, now: u64, version: &str, cmd: Command) -> (out: Vec<Output>)
    requires
        old(b).undo.wf(),
        requester_known(old(b).clients, rd),
        cmd is Undo ==> old(b).undo.undo_index() != Some(0int),
    ensures
        final(b).undo.wf(),
        match cmd {
            Command::Undo => undo_handled(*old(b), *final(b), rd, now, version@, false, out@),
            Command::Redo => undo_handled(*old(b), *final(b), rd, now, version@, true, out@),
            _ => plain_handled(*old(b), *final(b), rd, now, version@, cmd, out@),
        },
{
    let ghost b0 = *b;
    let redo = match cmd {
        Command::Undo => false,
        Command::Redo => true,
        _ => {
            return handle_plain(b, rd, now, version, cmd);
        },
    };
    let next = if redo {
        b.undo.redo()
    } else {
        b.undo.undo()
    };
    match next {
        None => Vec::new(),
        Some(c) => {
            let ghost mid = *b;
            let s = b.undo.state();
            let mut out = vec![Output::Broadcast(Response::ReplyUndoState(s))];
            let mut rest = handle_plain(b, rd, now, version, c);
            let ghost rest_seq = rest@;
            out.append(&mut rest);
            proof {
                assert(out@.drop_first() =~= rest_seq);
                assert(plain_handled(mid, *b, rd, now, version@, c, out@.drop_first()));
            }
            out
        },
    }
}

/// Records a change that can be undone, and tells every client what can now
/// be undone and redone.
pub fn register_undoable<A>(b: &mut Backend<A>, ch: UndoableChange) -> (out: Output)
    requires
        old(b).undo.wf(),
    ensures
        final(b).undo.wf(),
        final(b).undo.changes() == old(b).undo.changes_after_register(ch),
        final(b).undo.index() is None,
        final(b).actions == old(b).actions,
        final(b).clients == old(b).clients,
        out matches Output::Broadcast(Response::ReplyUndoState(s)) && describes(final(b).undo, s),
{
    b.undo.register_change(ch);
    Output::Broadcast(Response::ReplyUndoState(b.undo.state()))
}

/// `out` announces the actions in `present` (each once, in that order) and
/// then, if `order_changed`, the order `order`.
pub open spec fn announces(out: Seq<Output>, present: Seq<Uuid>, order_changed: bool, order: Seq<Uuid>) -> bool {
    &&& present.no_duplicates()
    &&& out.len() == present.len() + if order_changed { 1int } else { 0int }
    &&& forall|i: int| 0 <= i < present.len() ==> #[trigger] out[i] == Output::BroadcastActionChanged(present[i])
    &&& order_changed ==> (out.last() matches Output::Broadcast(Response::UpdateOrder(o)) && o@ == order)
}

/// After a command: every action that changed, and still exists, is sent to
/// every client (in no particular order), then the order, if it changed. Both
/// marks are cleared.
pub fn announce_changes<A>(b: &mut Backend<A>) -> (out: Vec<Output>)
    ensures
        final(b).actions.changed() == Set::<Uuid>::empty(),
        !final(b).actions.order_changed(),
        final(b).actions.actions() == old(b).actions.actions(),
        final(b).actions.order_seq() == old(b).actions.order_seq(),
        final(b).actions.interested() == old(b).actions.interested(),
        final(b).undo == old(b).undo,
        final(b).clients == old(b).clients,
        exists|present: Seq<Uuid>|
            {
                &&& #[trigger] announces(out@, present, old(b).actions.order_changed(), old(b).actions.order_seq())
                &&& forall|u: Uuid| present.contains(u) <==> old(b).actions.changed().contains(u)
                    && old(b).actions.actions().contains_key(u)
            },
{
    let changed = b.actions.clear_changed();
    let mut out: Vec<Output> = Vec::new();
    let ghost keys_seq = changed.iter().remaining().unref();
    let ghost set0 = changed@;
    let ghost acts = b.actions.actions();
    let ghost mut present: Seq<Uuid> = Seq::empty();
    for k in iter: changed.iter()
        invariant
            keys_seq == iter.seq().unref(),
            keys_seq.to_set() == set0,
            keys_seq.no_duplicates(),
            acts == b.actions.actions(),
            out@.len() == present.len(),
            forall|i: int| 0 <= i < present.len() ==> #[trigger] out@[i] == Output::BroadcastActionChanged(present[i]),
            present.no_duplicates(),
            forall|u: Uuid| present.contains(u) <==> keys_seq.take(iter.index() as int).contains(u) && acts.contains_key(u),
    {
        let u = *k;
        let ghost idx = iter.index() as int;
        proof {
            assert(keys_seq.take(idx + 1) =~= keys_seq.take(idx).push(u));
            assert forall|v: Uuid| #[trigger] keys_seq.take(idx + 1).contains(v) <==> keys_seq.take(idx).contains(v) || v == u by {
                vstd::seq_lib::lemma_seq_contains_after_push(keys_seq.take(idx), u, v);
            }
        }
        if b.actions.get(&u).is_some() {
            proof {
                assert(!keys_seq.take(idx).contains(u)) by {
                    if keys_seq.take(idx).contains(u) {
                        let j = choose|j: int| 0 <= j < idx && keys_seq.take(idx)[j] == u;
                        assert(keys_seq[j] == keys_seq[idx]);
                    }
                }
                assert forall|v: Uuid| #[trigger] present.push(u).contains(v) <==> present.contains(v) || v == u by {
                    vstd::seq_lib::lemma_seq_contains_after_push(present, u, v);
                }
                assert forall|x: int, y: int| 0 <= x < present.push(u).len() && 0 <= y < present.push(u).len() && x != y
                    implies present.push(u)[x] != present.push(u)[y] by {
                    if x == present.len() {
                        assert(present.contains(present[y]));
                    } else if y == present.len() {
                        assert(present.contains(present[x]));
                    }
                }
                present = present.push(u);
            }
            out.push(Output::BroadcastActionChanged(u));
        }
    }
    proof {
        assert(keys_seq.take(keys_seq.len() as int) =~= keys_seq);
        assert forall|v: Uuid| keys_seq.contains(v) <==> set0.contains(v) by {
            assert(keys_seq.to_set().contains(v) == keys_seq.contains(v));
        }
    }
    let ghost changed_part = out@;
    if b.actions.clear_order_changed() {
        let order = b.actions.order().clone();
        out.push(Output::Broadcast(Response::UpdateOrder(order)));
        proof {
            assert forall|i: int| 0 <= i < present.len() implies #[trigger] out@[i] == Output::BroadcastActionChanged(present[i]) by {
                assert(out@[i] == changed_part[i]);
            }
        }
    }
    proof {
        assert(announces(out@, present, old(b).actions.order_changed(), old(b).actions.order_seq()));
    }
    out
}


/// Handling any command other than an undo or a redo leaves the undo history
/// as it was.
pub proof fn lemma_plain_commands_keep_history<A>(
    b0: Backend<A>,
    b1: Backend<A>,
    rd: Requester,
    now: u64,
    version: Seq<char>,
    cmd: Command,
    out: Seq<Output>,
)
    requires
        plain_handled(b0, b1, rd, now, version, cmd, out),
    ensures
        b1.undo == b0.undo,
{
}

/// A command handled by the running server (anything but the protocol's own
/// commands, those on the action list, and the undo history) changes nothing
/// the library keeps and is handed back as it came.
pub proof fn lemma_performed_commands_change_nothing<A>(
    b0: Backend<A>,
    b1: Backend<A>,
    rd: Requester,
    now: u64,
    version: Seq<char>,
    cmd: Command,
    out: Seq<Output>,
)
    requires
        plain_handled(b0, b1, rd, now, version, cmd, out),
        out.len() > 0,
        out[0] is Perform,
    ensures
        b1 == b0,
        out == seq![Output::Perform(cmd)],
{
}

} // verus!
