//! The client's side of a connection to the server: connecting over TCP, the
//! handshake over UDP (version query, then subscription), keeping the
//! connection alive with pings, and where each reply goes.
use vstd::prelude::*;
use crate::codec::{Command, SocketAddress};
use crate::routes::ReplyKind;
use crate::clients::UDP_MAX_PACKET_SIZE;
use crate::duration::clock_readings;

verus! {

/// Where the client is in connecting to a server at `addr`.
#[derive(Clone, Debug, PartialEq)]
pub enum LinkState {
    /// Not connected.
    Disconnected,
    /// Opening a TCP connection.
    TcpConnecting { addr: SocketAddress },
    /// Connected over TCP; the version query went out over UDP.
    VersionQuerySent { addr: SocketAddress },
    /// The server answered with its version; the subscription went out.
    SubscriptionQuerySent { addr: SocketAddress, ver: String },
    /// Connected and subscribed. `last_ping` is when a ping last went out,
    /// `last_pong` when one was last answered (monotonic clock, ns).
    Connected { addr: SocketAddress, ver: String, last_ping: u64, last_pong: u64 },
}

/// The connection state as the user is shown it.
#[derive(Clone, Debug, PartialEq)]
pub enum PublicState {
    Disconnected,
    /// Connecting, with a description of the step under way.
    Connecting { addr: SocketAddress, status: String },
    Connected { addr: SocketAddress, ver: String, last_ping: u64, last_pong: u64 },
}

/// Where a reply that needs no handshake goes.
#[derive(Clone, Copy, Debug, PartialEq, Eq)]
pub enum ReplyDestination {
    /// To the actions view.
    Actions,
    /// To the mixer view (a new mixer configuration).
    Mixer,
    /// To the undo and redo menu items (a new undo state).
    Undo,
    /// To the save controller.
    Save,
    /// Nowhere.
    Ignored,
}

/// A reply from the server, as far as the connection reads it.
#[derive(Debug, PartialEq)]
pub enum LinkReply {
    ServerVersion(String),
    Associated(Result<(), String>),
    Pong,
    /// Any other reply, by kind.
    Other(ReplyKind),
}

/// A request to the connection from the rest of the client.
#[derive(Clone, Debug, PartialEq)]
pub enum LinkRequest {
    Disconnect,
    Connect(SocketAddress),
    Send(Command),
}

/// Something the connection sends or does, in the order given.
#[derive(Clone, Debug, PartialEq)]
pub enum LinkOutput {
    /// Open a TCP connection to the server at this address.
    OpenTcp(SocketAddress),
    /// Send this command to the server.
    Send(Command),
    /// Tell the user the connection state has changed.
    Notify,
    /// Show this error message.
    ShowError(String),
    /// Tell the rest of the client that the connection is up.
    NewlyConnected,
    /// Tell the rest of the client that the connection is down.
    NewlyDisconnected,
    /// Wake the connection up again in ten seconds, to ping.
    ArmPingTimer,
    /// Pass the reply on.
    Forward(ReplyDestination),
}

/// The description of a connecting state.
pub open spec fn connecting_status(s: LinkState) -> Seq<char> {
    match s {
        LinkState::TcpConnecting { .. } => "Establishing TCP connection"@,
        LinkState::VersionQuerySent { .. } => "Performing UDP handshake"@,
        _ => "Subscribing over UDP"@,
    }
}

/// The connection state as the user is shown it.
pub fn make_public(s: &LinkState) -> (p: PublicState)
    ensures
        match *s {
            LinkState::Disconnected => p == PublicState::Disconnected,
            LinkState::Connected { addr, ver, last_ping, last_pong } => p == (PublicState::Connected {
                addr,
                ver,
                last_ping,
                last_pong,
            }),
            LinkState::TcpConnecting { addr } => p matches PublicState::Connecting { addr: a, status }
                && a == addr && status@ == connecting_status(*s),
            LinkState::VersionQuerySent { addr } => p matches PublicState::Connecting { addr: a, status }
                && a == addr && status@ == connecting_status(*s),
            LinkState::SubscriptionQuerySent { addr, .. } => p matches PublicState::Connecting {
                addr: a,
                status,
            } && a == addr && status@ == connecting_status(*s),
        },
{
    match s {
        LinkState::Disconnected => PublicState::Disconnected,
        LinkState::Connected { addr, ver, last_ping, last_pong } => {
            let v = ver.clone();
            PublicState::Connected { addr: *addr, ver: v, last_ping: *last_ping, last_pong: *last_pong }
        },
        LinkState::TcpConnecting { addr } => PublicState::Connecting {
            addr: *addr,
            status: String::from_str("Establishing TCP connection"),
        },
        LinkState::VersionQuerySent { addr } => PublicState::Connecting {
            addr: *addr,
            status: String::from_str("Performing UDP handshake"),
        },
        LinkState::SubscriptionQuerySent { addr, .. } => PublicState::Connecting {
            addr: *addr,
            status: String::from_str("Subscribing over UDP"),
        },
    }
}


/// Whether the connection is up.
pub open spec fn is_connected(s: LinkState) -> bool {
    s is Connected
}

/// What a request does: a disconnect drops the connection; a connect drops it
/// and starts a TCP connection to the new address; both change the state the
/// user is shown. A command goes out when connected, and is refused with an
/// error otherwise.
pub fn on_request(s: &mut LinkState, req: LinkRequest) -> (out: Vec<LinkOutput>)
    ensures
        match req {
            LinkRequest::Disconnect => *final(s) == LinkState::Disconnected && out@ == seq![LinkOutput::Notify],
            LinkRequest::Connect(addr) => *final(s) == (LinkState::TcpConnecting { addr }) && out@ == seq![
                LinkOutput::OpenTcp(addr),
                LinkOutput::Notify,
            ],
            LinkRequest::Send(cmd) => *final(s) == *old(s) && if is_connected(*old(s)) {
                out@ == seq![LinkOutput::Send(cmd)]
            } else {
                out@.len() == 1 && (out@[0] matches LinkOutput::ShowError(m)
                    && m@ == "Not connected, but tried to send messages."@)
            },
        },
{
    match req {
        LinkRequest::Disconnect => {
            *s = LinkState::Disconnected;
            let out = vec![LinkOutput::Notify];
            proof {
                assert(out@ =~= seq![LinkOutput::Notify]);
            }
            out
        },
        LinkRequest::Connect(addr) => {
            *s = LinkState::TcpConnecting { addr };
            let out = vec![LinkOutput::OpenTcp(addr), LinkOutput::Notify];
            proof {
                assert(out@ =~= seq![LinkOutput::OpenTcp(addr), LinkOutput::Notify]);
            }
            out
        },
        LinkRequest::Send(cmd) => {
            if let LinkState::Connected { .. } = s {
                let ghost c = cmd;
                let out = vec![LinkOutput::Send(cmd)];
                proof {
                    assert(out@ =~= seq![LinkOutput::Send(c)]);
                }
                out
            } else {
                vec![LinkOutput::ShowError(String::from_str("Not connected, but tried to send messages."))]
            }
        },
    }
}

/// What the outcome of opening the TCP connection does, while one is being
/// opened: on success the version query goes out (over UDP); on failure the
/// error is shown and the connection is dropped. In any other state nothing
/// happens.
pub fn on_tcp_opened(s: &mut LinkState, res: Result<(), String>) -> (out: Vec<LinkOutput>)
    ensures
        match *old(s) {
            LinkState::TcpConnecting { addr } => match res {
                Ok(()) => *final(s) == (LinkState::VersionQuerySent { addr }) && out@ == seq![
                    LinkOutput::Send(Command::Version),
                ],
                Err(e) => *final(s) == LinkState::Disconnected && out@.len() == 2 && (out@[0] matches LinkOutput::ShowError(m)
                    && m@ == "Error connecting to server: "@ + e@) && out@[1] == LinkOutput::Notify,
            },
            _ => *final(s) == *old(s) && out@.len() == 0,
        },
{
    if let LinkState::TcpConnecting { addr } = s {
        let addr = *addr;
        match res {
            Ok(()) => {
                *s = LinkState::VersionQuerySent { addr };
                let out = vec![LinkOutput::Send(Command::Version)];
                proof {
                    assert(out@ =~= seq![LinkOutput::Send(Command::Version)]);
                }
                out
            },
            Err(e) => {
                *s = LinkState::Disconnected;
                let mut m = String::from_str("Error connecting to server: ");
                m.append(e.as_str());
                vec![LinkOutput::ShowError(m), LinkOutput::Notify]
            },
        }
    } else {
        Vec::new()
    }
}

/// What the ping timer firing at `now` does, when connected: if the last ping
/// went unanswered, the connection is dropped; otherwise another ping goes out
/// (sent at `now`). Either way the timer is armed again. When not connected,
/// nothing happens.
pub fn on_ping_timer(s: &mut LinkState, now: u64) -> (out: Vec<LinkOutput>)
    ensures
        match *old(s) {
            LinkState::Connected { addr, ver, last_ping, last_pong } => if last_pong < last_ping {
                *final(s) == LinkState::Disconnected && out@ == seq![
                    LinkOutput::NewlyDisconnected,
                    LinkOutput::Notify,
                    LinkOutput::ArmPingTimer,
                ]
            } else {
                *final(s) == (LinkState::Connected { addr, ver, last_ping: now, last_pong }) && out@ == seq![
                    LinkOutput::Send(Command::Ping),
                    LinkOutput::Notify,
                    LinkOutput::ArmPingTimer,
                ]
            },
            _ => *final(s) == *old(s) && out@.len() == 0,
        },
{
    let mut st = LinkState::Disconnected;
    std::mem::swap(&mut st, s);
    match st {
        LinkState::Connected { addr, ver, last_ping, last_pong } => {
            if last_pong < last_ping {
                let out = vec![LinkOutput::NewlyDisconnected, LinkOutput::Notify, LinkOutput::ArmPingTimer];
                proof {
                    assert(out@ =~= seq![LinkOutput::NewlyDisconnected, LinkOutput::Notify, LinkOutput::ArmPingTimer]);
                }
                out
            } else {
                *s = LinkState::Connected { addr, ver, last_ping: now, last_pong };
                let out = vec![LinkOutput::Send(Command::Ping), LinkOutput::Notify, LinkOutput::ArmPingTimer];
                proof {
                    assert(out@ =~= seq![LinkOutput::Send(Command::Ping), LinkOutput::Notify, LinkOutput::ArmPingTimer]);
                }
                out
            }
        },
        other => {
            *s = other;
            Vec::new()
        },
    }
}

/// Where a reply that needs no handshake goes, by its kind: replies about
/// actions to the actions view, mixer configurations to the mixer, undo
/// states to the undo menu, replies about save files to the save controller;
/// the rest nowhere.
pub open spec fn reply_destination_spec(k: ReplyKind) -> ReplyDestination {
    match k {
        ReplyKind::ActionCreated | ReplyKind::ActionInfoRetrieved | ReplyKind::ActionParamsUpdated
        | ReplyKind::ActionDeleted | ReplyKind::ActionLoaded | ReplyKind::ActionExecuted
        | ReplyKind::UpdateActionInfo | ReplyKind::UpdateActionDeleted | ReplyKind::UpdateOrder
        | ReplyKind::ActionReordered | ReplyKind::ReplyActionList | ReplyKind::WaveformGenerated => ReplyDestination::Actions,
        ReplyKind::UpdateMixerConf => ReplyDestination::Mixer,
        ReplyKind::ReplyUndoState => ReplyDestination::Undo,
        ReplyKind::SavefileMade | ReplyKind::SavefileLoaded => ReplyDestination::Save,
        _ => ReplyDestination::Ignored,
    }
}

/// Where a reply that needs no handshake goes (see `reply_destination_spec`).
pub fn reply_destination(k: ReplyKind) -> (d: ReplyDestination)
    ensures
        d == reply_destination_spec(k),
{
    match k {
        ReplyKind::ActionCreated | ReplyKind::ActionInfoRetrieved | ReplyKind::ActionParamsUpdated
        | ReplyKind::ActionDeleted | ReplyKind::ActionLoaded | ReplyKind::ActionExecuted
        | ReplyKind::UpdateActionInfo | ReplyKind::UpdateActionDeleted | ReplyKind::UpdateOrder
        | ReplyKind::ActionReordered | ReplyKind::ReplyActionList | ReplyKind::WaveformGenerated => ReplyDestination::Actions,
        ReplyKind::UpdateMixerConf => ReplyDestination::Mixer,
        ReplyKind::ReplyUndoState => ReplyDestination::Undo,
        ReplyKind::SavefileMade | ReplyKind::SavefileLoaded => ReplyDestination::Save,
        _ => ReplyDestination::Ignored,
    }
}

/// What a reply from the server does, given the clock readings the client
/// takes along the way (`t1`, `t2`: when a newly made connection counts as
/// pinged and answered; `t3`: when the first ping goes out; `t4`: when a pong
/// arrives) and the local address of the TCP connection (`local`):
///
/// - after the version query, the version: the subscription (with the TCP
///   connection to associate) goes out;
/// - after the subscription, its outcome: a refusal is shown and the
///   connection dropped; otherwise the connection is up, the first ping goes
///   out, the timer is armed, and the mixer configuration, undo state and
///   action list are asked for;
/// - when connected, a pong is noted, and any other reply is passed on;
/// - anything else is ignored.
pub open spec fn reply_handled(
    s0: LinkState,
    s1: LinkState,
    reply: LinkReply,
    local: SocketAddress,
    t1: u64,
    t2: u64,
    t3: u64,
    t4: u64,
    out: Seq<LinkOutput>,
) -> bool {
    match s0 {
        LinkState::VersionQuerySent { addr } => match reply {
            LinkReply::ServerVersion(ver) => s1 == (LinkState::SubscriptionQuerySent { addr, ver }) && out == seq![
                LinkOutput::Send(Command::SubscribeAndAssociate { addr: local }),
                LinkOutput::Notify,
            ],
            _ => s1 == s0 && out.len() == 0,
        },
        LinkState::SubscriptionQuerySent { addr, ver } => match reply {
            LinkReply::Associated(Err(e)) => s1 == LinkState::Disconnected && out.len() == 2 && (out[0] matches LinkOutput::ShowError(m)
                && m@ == "Associating with server failed: "@ + e@) && out[1] == LinkOutput::Notify,
            LinkReply::Associated(Ok(())) => {
                let pinged = t2 < t1;
                &&& s1 == if pinged {
                    LinkState::Disconnected
                } else {
                    LinkState::Connected { addr, ver, last_ping: t3, last_pong: t2 }
                }
                &&& out == if pinged {
                    seq![LinkOutput::NewlyDisconnected, LinkOutput::Notify, LinkOutput::ArmPingTimer]
                } else {
                    seq![LinkOutput::Send(Command::Ping), LinkOutput::Notify, LinkOutput::ArmPingTimer]
                } + seq![
                    LinkOutput::Send(Command::GetMixerConf),
                    LinkOutput::Send(Command::GetUndoState),
                    LinkOutput::Send(Command::ActionList),
                    LinkOutput::NewlyConnected,
                    LinkOutput::Notify,
                ]
            },
            _ => s1 == s0 && out.len() == 0,
        },
        LinkState::Connected { addr, ver, last_ping, last_pong } => match reply {
            LinkReply::Pong => s1 == (LinkState::Connected { addr, ver, last_ping, last_pong: t4 }) && out == seq![
                LinkOutput::Notify,
            ],
            LinkReply::Other(k) => s1 == s0 && out == seq![LinkOutput::Forward(reply_destination_spec(k))],
            _ => s1 == s0 && out == seq![LinkOutput::Forward(ReplyDestination::Ignored)],
        },
        _ => s1 == s0 && out.len() == 0,
    }
}

/// Handles a reply from the server, given the clock readings (see
/// `reply_handled`).
pub fn on_reply_at(
    s: &mut LinkState,
    reply: LinkReply,
    local: SocketAddress,
    t1: u64,
    t2: u64,
    t3: u64,
    t4: u64,
) -> (out: Vec<LinkOutput>)
    ensures
        reply_handled(*old(s), *final(s), reply, local, t1, t2, t3, t4, out@),
{
    let mut st = LinkState::Disconnected;
    std::mem::swap(&mut st, s);
    match st {
        LinkState::VersionQuerySent { addr } => match reply {
            LinkReply::ServerVersion(ver) => {
                *s = LinkState::SubscriptionQuerySent { addr, ver };
                let out = vec![LinkOutput::Send(Command::SubscribeAndAssociate { addr: local }), LinkOutput::Notify];
                proof {
                    assert(out@ =~= seq![
                        LinkOutput::Send(Command::SubscribeAndAssociate { addr: local }),
                        LinkOutput::Notify,
                    ]);
                }
                out
            },
            _ => {
                *s = LinkState::VersionQuerySent { addr };
                Vec::new()
            },
        },
        LinkState::SubscriptionQuerySent { addr, ver } => match reply {
            LinkReply::Associated(Err(e)) => {
                let mut m = String::from_str("Associating with server failed: ");
                m.append(e.as_str());
                vec![LinkOutput::ShowError(m), LinkOutput::Notify]
            },
            LinkReply::Associated(Ok(())) => {
                *s = LinkState::Connected { addr, ver, last_ping: t1, last_pong: t2 };
                let mut out = on_ping_timer(s, t3);
                out.push(LinkOutput::Send(Command::GetMixerConf));
                out.push(LinkOutput::Send(Command::GetUndoState));
                out.push(LinkOutput::Send(Command::ActionList));
                out.push(LinkOutput::NewlyConnected);
                out.push(LinkOutput::Notify);
                proof {
                    let pinged = t2 < t1;
                    assert(out@ =~= if pinged {
                        seq![LinkOutput::NewlyDisconnected, LinkOutput::Notify, LinkOutput::ArmPingTimer]
                    } else {
                        seq![LinkOutput::Send(Command::Ping), LinkOutput::Notify, LinkOutput::ArmPingTimer]
                    } + seq![
                        LinkOutput::Send(Command::GetMixerConf),
                        LinkOutput::Send(Command::GetUndoState),
                        LinkOutput::Send(Command::ActionList),
                        LinkOutput::NewlyConnected,
                        LinkOutput::Notify,
                    ]);
                }
                out
            },
            other => {
                *s = LinkState::SubscriptionQuerySent { addr, ver };
                Vec::new()
            },
        },
        LinkState::Connected { addr, ver, last_ping, last_pong } => match reply {
            LinkReply::Pong => {
                *s = LinkState::Connected { addr, ver, last_ping, last_pong: t4 };
                let out = vec![LinkOutput::Notify];
                proof {
                    assert(out@ =~= seq![LinkOutput::Notify]);
                }
                out
            },
            LinkReply::Other(k) => {
                *s = LinkState::Connected { addr, ver, last_ping, last_pong };
                let out = vec![LinkOutput::Forward(reply_destination(k))];
                proof {
                    assert(out@ =~= seq![LinkOutput::Forward(reply_destination_spec(k))]);
                }
                out
            },
            _ => {
                *s = LinkState::Connected { addr, ver, last_ping, last_pong };
                let out = vec![LinkOutput::Forward(ReplyDestination::Ignored)];
                proof {
                    assert(out@ =~= seq![LinkOutput::Forward(ReplyDestination::Ignored)]);
                }
                out
            },
        },
        other => {
            *s = other;
            Vec::new()
        },
    }
}

/// Handles a reply from the server, reading the monotonic clock where the
/// client does (see `reply_handled`; the readings are whatever the clock
/// gives, one after another, so that a connection made is never taken to
/// have been pinged without answer: an accepted subscription connects).
pub fn on_reply(s: &mut LinkState, reply: LinkReply, local: SocketAddress) -> (out: Vec<LinkOutput>)
    ensures
        exists|t1: u64, t2: u64, t3: u64, t4: u64| t1 <= t2 && #[trigger] reply_handled(*old(s), *final(s), reply, local, t1, t2, t3, t4, out@),
        *old(s) is SubscriptionQuerySent && reply == LinkReply::Associated(Ok(())) ==> *final(s) is Connected
            && out@[0] == LinkOutput::Send(Command::Ping),
{
    let (t1, t2, t3, t4) = match s {
        LinkState::SubscriptionQuerySent { .. } => {
            let (t1, t2) = clock_readings();
            let (t3, _) = clock_readings();
            (t1, t2, t3, 0)
        },
        LinkState::Connected { .. } => (0, 0, 0, clock_readings().0),
        _ => (0, 0, 0, 0),
    };
    on_reply_at(s, reply, local, t1, t2, t3, t4)
}

/// Whether a command of `len` encoded bytes goes to the server over TCP (too
/// large for UDP) rather than UDP.
pub fn send_over_tcp(len: usize) -> (b: bool)
    ensures
        b == (len > UDP_MAX_PACKET_SIZE),
{
    len > UDP_MAX_PACKET_SIZE
}

/// Where each reply goes once connected: replies about actions (created,
/// retrieved, updated, deleted, loaded, executed, reordered, the action
/// list, waveforms) to the actions view; a new mixer configuration to the
/// mixer; a new undo state to the undo menu; replies about save files to the
/// save controller; the rest (handshake replies, metadata and reset and pause
/// outcomes, oversized and deserialisation errors) nowhere.
pub proof fn lemma_reply_destinations()
    ensures
        reply_destination_spec(ReplyKind::Pong) == ReplyDestination::Ignored,
        reply_destination_spec(ReplyKind::ServerVersion) == ReplyDestination::Ignored,
        reply_destination_spec(ReplyKind::Subscribed) == ReplyDestination::Ignored,
        reply_destination_spec(ReplyKind::Associated) == ReplyDestination::Ignored,
        reply_destination_spec(ReplyKind::DeserFailed) == ReplyDestination::Ignored,
        reply_destination_spec(ReplyKind::ActionCreated) == ReplyDestination::Actions,
        reply_destination_spec(ReplyKind::ActionInfoRetrieved) == ReplyDestination::Actions,
        reply_destination_spec(ReplyKind::ActionParamsUpdated) == ReplyDestination::Actions,
        reply_destination_spec(ReplyKind::ActionMetadataUpdated) == ReplyDestination::Ignored,
        reply_destination_spec(ReplyKind::ActionDeleted) == ReplyDestination::Actions,
        reply_destination_spec(ReplyKind::ActionLoaded) == ReplyDestination::Actions,
        reply_destination_spec(ReplyKind::ActionExecuted) == ReplyDestination::Actions,
        reply_destination_spec(ReplyKind::ActionMaybePaused) == ReplyDestination::Ignored,
        reply_destination_spec(ReplyKind::ActionReset) == ReplyDestination::Ignored,
        reply_destination_spec(ReplyKind::ActionReordered) == ReplyDestination::Actions,
        reply_destination_spec(ReplyKind::MixerConfSet) == ReplyDestination::Ignored,
        reply_destination_spec(ReplyKind::ReplyActionList) == ReplyDestination::Actions,
        reply_destination_spec(ReplyKind::UpdateOrder) == ReplyDestination::Actions,
        reply_destination_spec(ReplyKind::UpdateActionInfo) == ReplyDestination::Actions,
        reply_destination_spec(ReplyKind::UpdateActionDeleted) == ReplyDestination::Actions,
        reply_destination_spec(ReplyKind::UpdateMixerConf) == ReplyDestination::Mixer,
        reply_destination_spec(ReplyKind::SavefileMade) == ReplyDestination::Save,
        reply_destination_spec(ReplyKind::SavefileLoaded) == ReplyDestination::Save,
        reply_destination_spec(ReplyKind::ReplyUndoState) == ReplyDestination::Undo,
        reply_destination_spec(ReplyKind::WaveformGenerated) == ReplyDestination::Actions,
        reply_destination_spec(ReplyKind::OversizedReply) == ReplyDestination::Ignored,
{
}

} // verus!
