//! The addresses of the OSC protocol spoken between clients and the server:
//! which command or reply an address names, the address each is sent to, and
//! the arguments each carries after its address.
use vstd::prelude::*;
use crate::oscpath::{
    split_slash, address_of, plain_segments, seg_views, split_address, join_address, segment_is,
    lemma_split_address,
};
use crate::errors::BackendError;
use crate::codec::Command;
use crate::ids::{uuid_parse, uuid_hyphenated, parse_uuid, uuid_to_string, lemma_uuid_no_slash};

verus! {

/// The types of OSC argument the protocol uses.
#[derive(Clone, Copy, Debug, PartialEq, Eq, Structural)]
pub enum ArgKind {
    /// A binary blob (a serialised value).
    Blob,
    /// A string.
    Str,
    /// A boolean.
    Bool,
}

/// An OSC argument, as far as the protocol reads it: the types it uses, and
/// any other.
#[derive(Clone, Debug, PartialEq)]
pub enum OscArg {
    Blob(Vec<u8>),
    Str(String),
    Bool(bool),
    /// An argument of a type the protocol never uses.
    Other,
}

/// Whether the argument is of the given type.
pub open spec fn arg_has_kind(a: OscArg, k: ArgKind) -> bool {
    match k {
        ArgKind::Blob => a is Blob,
        ArgKind::Str => a is Str,
        ArgKind::Bool => a is Bool,
    }
}

/// The name of an argument type, as errors give it.
pub open spec fn arg_kind_name(k: ArgKind) -> Seq<char> {
    match k {
        ArgKind::Blob => "blob"@,
        ArgKind::Str => "string"@,
        ArgKind::Bool => "bool"@,
    }
}

/// The first `n` arguments are there, and of the types `expected` gives.
pub open spec fn args_fit(expected: Seq<ArgKind>, args: Seq<OscArg>, n: int) -> bool {
    forall|i: int| 0 <= i < n ==> i < args.len() && arg_has_kind(#[trigger] args[i], expected[i])
}

fn arg_matches(a: &OscArg, k: ArgKind) -> (b: bool)
    ensures
        b == arg_has_kind(*a, k),
{
    match k {
        ArgKind::Blob => matches!(a, OscArg::Blob(_)),
        ArgKind::Str => matches!(a, OscArg::Str(_)),
        ArgKind::Bool => matches!(a, OscArg::Bool(_)),
    }
}

/// The error for a missing or mistyped argument of type `k`.
pub fn wrong_args_error(k: ArgKind) -> (e: BackendError)
    ensures
        e matches BackendError::OSCWrongArgs(s) && s@ == arg_kind_name(k),
{
    match k {
        ArgKind::Blob => BackendError::OSCWrongArgs(String::from_str("blob")),
        ArgKind::Str => BackendError::OSCWrongArgs(String::from_str("string")),
        ArgKind::Bool => BackendError::OSCWrongArgs(String::from_str("bool")),
    }
}

/// `taken` and `err` are what taking the arguments `expected` asks for from the
/// front of `args` gives: the longest run of them that are there and of the
/// right types, and, if that run falls short, the error naming the type of the
/// first argument missing or mistyped.
pub open spec fn args_taken(
    expected: Seq<ArgKind>,
    args: Seq<OscArg>,
    taken: Seq<OscArg>,
    err: Option<BackendError>,
) -> bool {
    let n = taken.len() as int;
    &&& n <= expected.len()
    &&& taken == args.take(n)
    &&& args_fit(expected, args, n)
    &&& (err is None <==> n == expected.len())
    &&& (err is Some ==> {
        &&& (n >= args.len() || !arg_has_kind(args[n], expected[n]))
        &&& err matches Some(BackendError::OSCWrongArgs(s)) && s@ == arg_kind_name(expected[n])
    })
}

/// Takes the arguments that `expected` asks for from the front of `args`, one
/// by one, stopping at the first that is missing or of the wrong type.
///
/// Returns the arguments taken, and the error for the one that stopped it, if
/// any. Arguments beyond those expected are ignored.
pub fn take_args(expected: &Vec<ArgKind>, args: Vec<OscArg>) -> (r: (Vec<OscArg>, Option<BackendError>))
    ensures
        args_taken(expected@, args@, r.0@, r.1),
{
    let mut rest = args;
    let mut taken: Vec<OscArg> = Vec::new();
    let mut i: usize = 0;
    while i < expected.len()
        invariant
            i <= expected@.len(),
            i <= args@.len(),
            taken@ == args@.take(i as int),
            rest@ == args@.skip(i as int),
            args_fit(expected@, args@, i as int),
        decreases expected@.len() - i,
    {
        if rest.len() == 0 {
            return (taken, Some(wrong_args_error(expected[i])));
        }
        if !arg_matches(&rest[0], expected[i]) {
            proof {
                assert(rest@[0] == args@[i as int]);
            }
            return (taken, Some(wrong_args_error(expected[i])));
        }
        let a = rest.remove(0);
        proof {
            assert(a == args@[i as int]);
        }
        taken.push(a);
        i = i + 1;
        proof {
            assert(taken@ =~= args@.take(i as int));
            assert(rest@ =~= args@.skip(i as int));
        }
    }
    (taken, None)
}

/// What reading an address gives: too few segments to name anything, no known
/// pattern, a UUID placeholder holding something that is not a UUID, or the
/// kind named with its UUID (0 where it names none) and action type (empty
/// where it names none).
pub enum RouteRead<K> {
    Blank,
    Unknown,
    BadUuid(Seq<char>),
    Found(K, u128, Seq<char>),
}

/// The error of an address with fewer than two segments.
fn blank_path_error() -> (e: BackendError)
    ensures
        e matches BackendError::Msg(m) && m@ == "Blank OSC path."@,
{
    BackendError::msg("Blank OSC path.")
}

/// How a read of an address as a route of kind `K` turned out, against what
/// the read should give.
pub open spec fn route_outcome<K>(
    r: Result<(K, u128, Seq<char>), BackendError>,
    read: RouteRead<K>,
) -> bool {
    match read {
        RouteRead::Blank => r matches Err(BackendError::Msg(m)) && m@ == "Blank OSC path."@,
        RouteRead::Unknown => r matches Err(BackendError::UnknownOSCPath),
        RouteRead::BadUuid(t) => r matches Err(BackendError::Uuid(m)) && m@ == t,
        RouteRead::Found(k, v, t) => r == Ok::<(K, u128, Seq<char>), BackendError>((k, v, t)),
    }
}


/// The kinds of command a client sends, one for each OSC address pattern of the protocol.
#[derive(Clone, Copy, Debug, PartialEq, Eq, Structural)]
pub enum CommandKind {
    Ping,
    Version,
    Subscribe,
    SubscribeAndAssociate,
    CreateAction,
    ActionList,
    ActionInfo,
    UpdateActionParams,
    UpdateActionMetadata,
    ReviveAction,
    CreateActionWithUuid,
    CreateActionWithExtras,
    DeleteAction,
    VerifyAction,
    LoadAction,
    ExecuteAction,
    ResetAction,
    PauseAction,
    ReorderAction,
    GetMixerConf,
    SetMixerConf,
    MakeSavefile,
    LoadSavefile,
    Undo,
    Redo,
    GetUndoState,
    GenerateWaveform,
}

/// The address segments (after the leading slash) of a command of kind `k`, with
/// `u` in place of its UUID and `t` in place of its action type.
pub open spec fn command_segments(k: CommandKind, u: Seq<char>, t: Seq<char>) -> Seq<Seq<char>> {
    match k {
        CommandKind::Ping => seq!["ping"@],
        CommandKind::Version => seq!["version"@],
        CommandKind::Subscribe => seq!["subscribe"@],
        CommandKind::SubscribeAndAssociate => seq!["subscribe"@, "associate"@],
        CommandKind::CreateAction => seq!["actions"@, t, "new"@],
        CommandKind::ActionList => seq!["actionlist"@],
        CommandKind::ActionInfo => seq!["action"@, u],
        CommandKind::UpdateActionParams => seq!["action"@, u, "update"@],
        CommandKind::UpdateActionMetadata => seq!["action"@, u, "updatemeta"@],
        CommandKind::ReviveAction => seq!["action"@, u, "revive"@, t],
        CommandKind::CreateActionWithUuid => seq!["action"@, u, "create"@, t],
        CommandKind::CreateActionWithExtras => seq!["action"@, u, "create_extra"@, t],
        CommandKind::DeleteAction => seq!["action"@, u, "delete"@],
        CommandKind::VerifyAction => seq!["action"@, u, "verify"@],
        CommandKind::LoadAction => seq!["action"@, u, "load"@],
        CommandKind::ExecuteAction => seq!["action"@, u, "execute"@],
        CommandKind::ResetAction => seq!["action"@, u, "reset"@],
        CommandKind::PauseAction => seq!["action"@, u, "pause"@],
        CommandKind::ReorderAction => seq!["action"@, u, "reorder"@],
        CommandKind::GetMixerConf => seq!["mixer"@, "config"@],
        CommandKind::SetMixerConf => seq!["mixer"@, "config"@, "set"@],
        CommandKind::MakeSavefile => seq!["system"@, "save"@],
        CommandKind::LoadSavefile => seq!["system"@, "load"@],
        CommandKind::Undo => seq!["system"@, "undo"@],
        CommandKind::Redo => seq!["system"@, "redo"@],
        CommandKind::GetUndoState => seq!["system"@, "undostate"@],
        CommandKind::GenerateWaveform => seq!["waveform"@, u, "generate"@],
    }
}

/// Where the UUID stands among the address segments of a command of kind `k`, if it names one.
pub open spec fn command_uuid_index(k: CommandKind) -> Option<int> {
    match k {
        CommandKind::ActionInfo => Some(1),
        CommandKind::UpdateActionParams => Some(1),
        CommandKind::UpdateActionMetadata => Some(1),
        CommandKind::ReviveAction => Some(1),
        CommandKind::CreateActionWithUuid => Some(1),
        CommandKind::CreateActionWithExtras => Some(1),
        CommandKind::DeleteAction => Some(1),
        CommandKind::VerifyAction => Some(1),
        CommandKind::LoadAction => Some(1),
        CommandKind::ExecuteAction => Some(1),
        CommandKind::ResetAction => Some(1),
        CommandKind::PauseAction => Some(1),
        CommandKind::ReorderAction => Some(1),
        CommandKind::GenerateWaveform => Some(1),
        _ => None,
    }
}

/// Whether a command of kind `k` names a UUID in its address.
pub open spec fn command_has_uuid(k: CommandKind) -> bool {
    command_uuid_index(k) is Some
}

/// Where the action type stands among the address segments of a command of kind `k`, if it names one.
pub open spec fn command_typ_index(k: CommandKind) -> Option<int> {
    match k {
        CommandKind::CreateAction => Some(1),
        CommandKind::ReviveAction => Some(3),
        CommandKind::CreateActionWithUuid => Some(3),
        CommandKind::CreateActionWithExtras => Some(3),
        _ => None,
    }
}

/// The kind of command whose address pattern the segments match: the patterns are tried
/// in the order the protocol lists them, and a placeholder matches any segment.
pub open spec fn command_kind_of(p: Seq<Seq<char>>) -> Option<CommandKind> {
    if p.len() == 1 && p[0] == "ping"@ {
        Some(CommandKind::Ping)
    } else if p.len() == 1 && p[0] == "version"@ {
        Some(CommandKind::Version)
    } else if p.len() == 1 && p[0] == "subscribe"@ {
        Some(CommandKind::Subscribe)
    } else if p.len() == 2 && p[0] == "subscribe"@ && p[1] == "associate"@ {
        Some(CommandKind::SubscribeAndAssociate)
    } else if p.len() == 3 && p[0] == "actions"@ && p[2] == "new"@ {
        Some(CommandKind::CreateAction)
    } else if p.len() == 1 && p[0] == "actionlist"@ {
        Some(CommandKind::ActionList)
    } else if p.len() == 2 && p[0] == "action"@ {
        Some(CommandKind::ActionInfo)
    } else if p.len() == 3 && p[0] == "action"@ && p[2] == "update"@ {
        Some(CommandKind::UpdateActionParams)
    } else if p.len() == 3 && p[0] == "action"@ && p[2] == "updatemeta"@ {
        Some(CommandKind::UpdateActionMetadata)
    } else if p.len() == 4 && p[0] == "action"@ && p[2] == "revive"@ {
        Some(CommandKind::ReviveAction)
    } else if p.len() == 4 && p[0] == "action"@ && p[2] == "create"@ {
        Some(CommandKind::CreateActionWithUuid)
    } else if p.len() == 4 && p[0] == "action"@ && p[2] == "create_extra"@ {
        Some(CommandKind::CreateActionWithExtras)
    } else if p.len() == 3 && p[0] == "action"@ && p[2] == "delete"@ {
        Some(CommandKind::DeleteAction)
    } else if p.len() == 3 && p[0] == "action"@ && p[2] == "verify"@ {
        Some(CommandKind::VerifyAction)
    } else if p.len() == 3 && p[0] == "action"@ && p[2] == "load"@ {
        Some(CommandKind::LoadAction)
    } else if p.len() == 3 && p[0] == "action"@ && p[2] == "execute"@ {
        Some(CommandKind::ExecuteAction)
    } else if p.len() == 3 && p[0] == "action"@ && p[2] == "reset"@ {
        Some(CommandKind::ResetAction)
    } else if p.len() == 3 && p[0] == "action"@ && p[2] == "pause"@ {
        Some(CommandKind::PauseAction)
    } else if p.len() == 3 && p[0] == "action"@ && p[2] == "reorder"@ {
        Some(CommandKind::ReorderAction)
    } else if p.len() == 2 && p[0] == "mixer"@ && p[1] == "config"@ {
        Some(CommandKind::GetMixerConf)
    } else if p.len() == 3 && p[0] == "mixer"@ && p[1] == "config"@ && p[2] == "set"@ {
        Some(CommandKind::SetMixerConf)
    } else if p.len() == 2 && p[0] == "system"@ && p[1] == "save"@ {
        Some(CommandKind::MakeSavefile)
    } else if p.len() == 2 && p[0] == "system"@ && p[1] == "load"@ {
        Some(CommandKind::LoadSavefile)
    } else if p.len() == 2 && p[0] == "system"@ && p[1] == "undo"@ {
        Some(CommandKind::Undo)
    } else if p.len() == 2 && p[0] == "system"@ && p[1] == "redo"@ {
        Some(CommandKind::Redo)
    } else if p.len() == 2 && p[0] == "system"@ && p[1] == "undostate"@ {
        Some(CommandKind::GetUndoState)
    } else if p.len() == 3 && p[0] == "waveform"@ && p[2] == "generate"@ {
        Some(CommandKind::GenerateWaveform)
    } else {
        None
    }
}

/// The arguments a command of kind `k` carries after its address, in order.
pub open spec fn command_arg_kinds(k: CommandKind) -> Seq<ArgKind> {
    match k {
        CommandKind::SubscribeAndAssociate => seq![ArgKind::Blob],
        CommandKind::UpdateActionParams => seq![ArgKind::Blob, ArgKind::Blob],
        CommandKind::UpdateActionMetadata => seq![ArgKind::Blob],
        CommandKind::ReviveAction => seq![ArgKind::Blob, ArgKind::Blob],
        CommandKind::CreateActionWithExtras => seq![ArgKind::Blob],
        CommandKind::ReorderAction => seq![ArgKind::Blob],
        CommandKind::SetMixerConf => seq![ArgKind::Blob],
        CommandKind::MakeSavefile => seq![ArgKind::Str],
        CommandKind::LoadSavefile => seq![ArgKind::Str, ArgKind::Bool],
        CommandKind::GenerateWaveform => seq![ArgKind::Blob],
        _ => Seq::empty(),
    }
}

/// Finds the kind of command whose pattern the segments after the first match (see
/// `command_kind_of`).
fn command_kind_of_segments(segs: &Vec<String>) -> (r: Option<CommandKind>)
    requires
        segs.len() >= 1,
    ensures
        r == command_kind_of(seg_views(segs@).drop_first()),
{
    let ghost p = seg_views(segs@).drop_first();
    proof {
        assert forall|i: int| 0 <= i < p.len() implies #[trigger] p[i] == segs@[i + 1]@ by {}
    }
    let n = segs.len();
    if n == 2 && segment_is(&segs[1], "ping") {
        Some(CommandKind::Ping)
    } else if n == 2 && segment_is(&segs[1], "version") {
        Some(CommandKind::Version)
    } else if n == 2 && segment_is(&segs[1], "subscribe") {
        Some(CommandKind::Subscribe)
    } else if n == 3 && segment_is(&segs[1], "subscribe") && segment_is(&segs[2], "associate") {
        Some(CommandKind::SubscribeAndAssociate)
    } else if n == 4 && segment_is(&segs[1], "actions") && segment_is(&segs[3], "new") {
        Some(CommandKind::CreateAction)
    } else if n == 2 && segment_is(&segs[1], "actionlist") {
        Some(CommandKind::ActionList)
    } else if n == 3 && segment_is(&segs[1], "action") {
        Some(CommandKind::ActionInfo)
    } else if n == 4 && segment_is(&segs[1], "action") && segment_is(&segs[3], "update") {
        Some(CommandKind::UpdateActionParams)
    } else if n == 4 && segment_is(&segs[1], "action") && segment_is(&segs[3], "updatemeta") {
        Some(CommandKind::UpdateActionMetadata)
    } else if n == 5 && segment_is(&segs[1], "action") && segment_is(&segs[3], "revive") {
        Some(CommandKind::ReviveAction)
    } else if n == 5 && segment_is(&segs[1], "action") && segment_is(&segs[3], "create") {
        Some(CommandKind::CreateActionWithUuid)
    } else if n == 5 && segment_is(&segs[1], "action") && segment_is(&segs[3], "create_extra") {
        Some(CommandKind::CreateActionWithExtras)
    } else if n == 4 && segment_is(&segs[1], "action") && segment_is(&segs[3], "delete") {
        Some(CommandKind::DeleteAction)
    } else if n == 4 && segment_is(&segs[1], "action") && segment_is(&segs[3], "verify") {
        Some(CommandKind::VerifyAction)
    } else if n == 4 && segment_is(&segs[1], "action") && segment_is(&segs[3], "load") {
        Some(CommandKind::LoadAction)
    } else if n == 4 && segment_is(&segs[1], "action") && segment_is(&segs[3], "execute") {
        Some(CommandKind::ExecuteAction)
    } else if n == 4 && segment_is(&segs[1], "action") && segment_is(&segs[3], "reset") {
        Some(CommandKind::ResetAction)
    } else if n == 4 && segment_is(&segs[1], "action") && segment_is(&segs[3], "pause") {
        Some(CommandKind::PauseAction)
    } else if n == 4 && segment_is(&segs[1], "action") && segment_is(&segs[3], "reorder") {
        Some(CommandKind::ReorderAction)
    } else if n == 3 && segment_is(&segs[1], "mixer") && segment_is(&segs[2], "config") {
        Some(CommandKind::GetMixerConf)
    } else if n == 4 && segment_is(&segs[1], "mixer") && segment_is(&segs[2], "config") && segment_is(&segs[3], "set") {
        Some(CommandKind::SetMixerConf)
    } else if n == 3 && segment_is(&segs[1], "system") && segment_is(&segs[2], "save") {
        Some(CommandKind::MakeSavefile)
    } else if n == 3 && segment_is(&segs[1], "system") && segment_is(&segs[2], "load") {
        Some(CommandKind::LoadSavefile)
    } else if n == 3 && segment_is(&segs[1], "system") && segment_is(&segs[2], "undo") {
        Some(CommandKind::Undo)
    } else if n == 3 && segment_is(&segs[1], "system") && segment_is(&segs[2], "redo") {
        Some(CommandKind::Redo)
    } else if n == 3 && segment_is(&segs[1], "system") && segment_is(&segs[2], "undostate") {
        Some(CommandKind::GetUndoState)
    } else if n == 4 && segment_is(&segs[1], "waveform") && segment_is(&segs[3], "generate") {
        Some(CommandKind::GenerateWaveform)
    } else {
        None
    }
}

/// The arguments a command of kind `k` carries (see `command_arg_kinds`).
pub fn command_args(k: CommandKind) -> (r: Vec<ArgKind>)
    ensures
        r@ == command_arg_kinds(k),
{
    let r = match k {
        CommandKind::SubscribeAndAssociate => vec![ArgKind::Blob],
        CommandKind::UpdateActionParams => vec![ArgKind::Blob, ArgKind::Blob],
        CommandKind::UpdateActionMetadata => vec![ArgKind::Blob],
        CommandKind::ReviveAction => vec![ArgKind::Blob, ArgKind::Blob],
        CommandKind::CreateActionWithExtras => vec![ArgKind::Blob],
        CommandKind::ReorderAction => vec![ArgKind::Blob],
        CommandKind::SetMixerConf => vec![ArgKind::Blob],
        CommandKind::MakeSavefile => vec![ArgKind::Str],
        CommandKind::LoadSavefile => vec![ArgKind::Str, ArgKind::Bool],
        CommandKind::GenerateWaveform => vec![ArgKind::Blob],
        _ => Vec::new(),
    };
    proof {
        assert(r@ =~= command_arg_kinds(k));
    }
    r
}

/// The address segments of a command of kind `k`, with `u` for its UUID and `t` for its type.
fn command_segment_strings(k: CommandKind, u: &String, t: &String) -> (r: Vec<String>)
    ensures
        seg_views(r@) == command_segments(k, u@, t@),
{
    let r = match k {
        CommandKind::Ping => vec![String::from_str("ping")],
        CommandKind::Version => vec![String::from_str("version")],
        CommandKind::Subscribe => vec![String::from_str("subscribe")],
        CommandKind::SubscribeAndAssociate => vec![String::from_str("subscribe"), String::from_str("associate")],
        CommandKind::CreateAction => vec![String::from_str("actions"), t.clone(), String::from_str("new")],
        CommandKind::ActionList => vec![String::from_str("actionlist")],
        CommandKind::ActionInfo => vec![String::from_str("action"), u.clone()],
        CommandKind::UpdateActionParams => vec![String::from_str("action"), u.clone(), String::from_str("update")],
        CommandKind::UpdateActionMetadata => vec![String::from_str("action"), u.clone(), String::from_str("updatemeta")],
        CommandKind::ReviveAction => vec![String::from_str("action"), u.clone(), String::from_str("revive"), t.clone()],
        CommandKind::CreateActionWithUuid => vec![String::from_str("action"), u.clone(), String::from_str("create"), t.clone()],
        CommandKind::CreateActionWithExtras => vec![String::from_str("action"), u.clone(), String::from_str("create_extra"), t.clone()],
        CommandKind::DeleteAction => vec![String::from_str("action"), u.clone(), String::from_str("delete")],
        CommandKind::VerifyAction => vec![String::from_str("action"), u.clone(), String::from_str("verify")],
        CommandKind::LoadAction => vec![String::from_str("action"), u.clone(), String::from_str("load")],
        CommandKind::ExecuteAction => vec![String::from_str("action"), u.clone(), String::from_str("execute")],
        CommandKind::ResetAction => vec![String::from_str("action"), u.clone(), String::from_str("reset")],
        CommandKind::PauseAction => vec![String::from_str("action"), u.clone(), String::from_str("pause")],
        CommandKind::ReorderAction => vec![String::from_str("action"), u.clone(), String::from_str("reorder")],
        CommandKind::GetMixerConf => vec![String::from_str("mixer"), String::from_str("config")],
        CommandKind::SetMixerConf => vec![String::from_str("mixer"), String::from_str("config"), String::from_str("set")],
        CommandKind::MakeSavefile => vec![String::from_str("system"), String::from_str("save")],
        CommandKind::LoadSavefile => vec![String::from_str("system"), String::from_str("load")],
        CommandKind::Undo => vec![String::from_str("system"), String::from_str("undo")],
        CommandKind::Redo => vec![String::from_str("system"), String::from_str("redo")],
        CommandKind::GetUndoState => vec![String::from_str("system"), String::from_str("undostate")],
        CommandKind::GenerateWaveform => vec![String::from_str("waveform"), u.clone(), String::from_str("generate")],
    };
    proof {
        assert(seg_views(r@) =~= command_segments(k, u@, t@));
    }
    r
}

/// Where the UUID stands among the address segments of a command of kind `k`.
fn command_uuid_position(k: CommandKind) -> (r: Option<usize>)
    ensures
        r matches Some(i) ==> command_uuid_index(k) == Some(i as int),
        r is None ==> command_uuid_index(k) is None,
{
    match k {
        CommandKind::ActionInfo => Some(1),
        CommandKind::UpdateActionParams => Some(1),
        CommandKind::UpdateActionMetadata => Some(1),
        CommandKind::ReviveAction => Some(1),
        CommandKind::CreateActionWithUuid => Some(1),
        CommandKind::CreateActionWithExtras => Some(1),
        CommandKind::DeleteAction => Some(1),
        CommandKind::VerifyAction => Some(1),
        CommandKind::LoadAction => Some(1),
        CommandKind::ExecuteAction => Some(1),
        CommandKind::ResetAction => Some(1),
        CommandKind::PauseAction => Some(1),
        CommandKind::ReorderAction => Some(1),
        CommandKind::GenerateWaveform => Some(1),
        _ => None,
    }
}

/// Where the action type stands among the address segments of a command of kind `k`.
fn command_typ_position(k: CommandKind) -> (r: Option<usize>)
    ensures
        r matches Some(i) ==> command_typ_index(k) == Some(i as int),
        r is None ==> command_typ_index(k) is None,
{
    match k {
        CommandKind::CreateAction => Some(1),
        CommandKind::ReviveAction => Some(3),
        CommandKind::CreateActionWithUuid => Some(3),
        CommandKind::CreateActionWithExtras => Some(3),
        _ => None,
    }
}

/// The action type that the segments `p` of a command of kind `k` name (empty
/// if the kind names none).
pub open spec fn command_typ_text(k: CommandKind, p: Seq<Seq<char>>) -> Seq<char> {
    match command_typ_index(k) {
        Some(i) => p[i],
        None => Seq::empty(),
    }
}

/// What reading `addr` as the address of a command gives.
pub open spec fn command_route_read(addr: Seq<char>) -> RouteRead<CommandKind> {
    let segs = split_slash(addr);
    if segs.len() < 2 {
        RouteRead::Blank
    } else {
        let p = segs.drop_first();
        match command_kind_of(p) {
            None => RouteRead::Unknown,
            Some(k) => match command_uuid_index(k) {
                Some(i) => match uuid_parse(p[i]) {
                    Err(t) => RouteRead::BadUuid(t),
                    Ok(v) => RouteRead::Found(k, v, command_typ_text(k, p)),
                },
                None => RouteRead::Found(k, 0, command_typ_text(k, p)),
            },
        }
    }
}

/// Which command an address names: its kind, and the values the address holds.
#[derive(Clone, Debug, PartialEq)]
pub struct CommandRoute {
    pub kind: CommandKind,
    /// The UUID the address names (0 if its kind names none).
    pub uuid: u128,
    /// The action type the address names (empty if its kind names none).
    pub typ: String,
}

/// A read command route as the kind, UUID and type it holds.
pub open spec fn command_route_view(r: Result<CommandRoute, BackendError>) -> Result<(CommandKind, u128, Seq<char>), BackendError> {
    match r {
        Ok(x) => Ok((x.kind, x.uuid, x.typ@)),
        Err(e) => Err(e),
    }
}

/// Reads `addr` as the address of a command: splits it at slashes, finds the first
/// pattern that the segments after the first match, and reads the UUID the
/// address names.
pub fn parse_command_route(addr: &str) -> (r: Result<CommandRoute, BackendError>)
    ensures
        route_outcome(command_route_view(r), command_route_read(addr@)),
{
    let segs = split_address(addr);
    proof {
        assert(seg_views(segs@) =~= split_slash(addr@));
    }
    if segs.len() < 2 {
        return Err(blank_path_error());
    }
    let ghost p = split_slash(addr@).drop_first();
    let k = match command_kind_of_segments(&segs) {
        None => return Err(BackendError::UnknownOSCPath),
        Some(k) => k,
    };
    let uuid: u128 = match command_uuid_position(k) {
        Some(i) => {
            proof {
                assert(p[i as int] == segs@[i + 1]@);
            }
            match parse_uuid(segs[i + 1].as_str()) {
                Ok(v) => v,
                Err(e) => return Err(BackendError::Uuid(e)),
            }
        },
        None => 0,
    };
    let typ = match command_typ_position(k) {
        Some(i) => {
            proof {
                assert(p[i as int] == segs@[i + 1]@);
            }
            segs[i + 1].clone()
        },
        None => String::new(),
    };
    Ok(CommandRoute { kind: k, uuid, typ })
}

/// The address of the command that `route` names, its UUID written in its
/// hyphenated form.
pub fn command_route_address(route: &CommandRoute) -> (s: String)
    ensures
        s@ == address_of(command_segments(route.kind, uuid_hyphenated(route.uuid), route.typ@)),
{
    let u = uuid_to_string(route.uuid);
    let segs = command_segment_strings(route.kind, &u, &route.typ);
    join_address(&segs)
}

/// A command read from an OSC message: the route its address names, the arguments
/// its kind asks for that were there, and the error for the first that was
/// missing or of the wrong type, if one was.
#[derive(Clone, Debug, PartialEq)]
pub struct OscCommand {
    pub route: CommandRoute,
    pub args: Vec<OscArg>,
    pub arg_error: Option<BackendError>,
}

/// Reads an OSC message with address `addr` and arguments `args` as a command:
/// the route first (an error there is the result), then the arguments its
/// kind asks for, in order.
pub fn command_from_osc(addr: &str, args: Vec<OscArg>) -> (r: Result<OscCommand, BackendError>)
    ensures
        route_outcome(match r { Ok(c) => command_route_view(Ok(c.route)), Err(e) => Err(e) }, command_route_read(addr@)),
        r matches Ok(c) ==> args_taken(command_arg_kinds(c.route.kind), args@, c.args@, c.arg_error),
{
    let route = parse_command_route(addr)?;
    let expected = command_args(route.kind);
    let (taken, err) = take_args(&expected, args);
    Ok(OscCommand { route, args: taken, arg_error: err })
}

/// The address of a command, read back, names the same command: its kind, the UUID it
/// was written with, and its action type, when the UUID text and the type holds no slash.
pub proof fn lemma_command_route_roundtrip(k: CommandKind, u: Seq<char>, v: u128, t: Seq<char>)
    requires
        !u.contains('/'),
        !t.contains('/'),
        command_has_uuid(k) ==> uuid_parse(u) == Ok::<u128, Seq<char>>(v),
    ensures
        command_route_read(address_of(command_segments(k, u, t))) == RouteRead::Found(
            k,
            if command_has_uuid(k) { v } else { 0 },
            if command_typ_index(k) is Some { t } else { Seq::<char>::empty() },
        ),
{
    reveal_strlit("action");
    reveal_strlit("actionlist");
    reveal_strlit("actions");
    reveal_strlit("associate");
    reveal_strlit("config");
    reveal_strlit("create");
    reveal_strlit("create_extra");
    reveal_strlit("delete");
    reveal_strlit("execute");
    reveal_strlit("generate");
    reveal_strlit("load");
    reveal_strlit("mixer");
    reveal_strlit("new");
    reveal_strlit("pause");
    reveal_strlit("ping");
    reveal_strlit("redo");
    reveal_strlit("reorder");
    reveal_strlit("reset");
    reveal_strlit("revive");
    reveal_strlit("save");
    reveal_strlit("set");
    reveal_strlit("subscribe");
    reveal_strlit("system");
    reveal_strlit("undo");
    reveal_strlit("undostate");
    reveal_strlit("update");
    reveal_strlit("updatemeta");
    reveal_strlit("verify");
    reveal_strlit("version");
    reveal_strlit("waveform");
    assert("action"@[0] == 'a');
    assert("action"@.len() == 6);
    assert("actionlist"@.len() == 10);
    assert("actions"@.len() == 7);
    assert("associate"@[0] == 'a');
    assert("associate"@.len() == 9);
    assert("config"@.len() == 6);
    assert("create"@[0] == 'c');
    assert("create"@.len() == 6);
    assert("create_extra"@.len() == 12);
    assert("delete"@[0] == 'd');
    assert("delete"@.len() == 6);
    assert("execute"@[0] == 'e');
    assert("execute"@.len() == 7);
    assert("generate"@.len() == 8);
    assert("load"@[0] == 'l');
    assert("load"@.len() == 4);
    assert("mixer"@.len() == 5);
    assert("new"@[0] == 'n');
    assert("new"@.len() == 3);
    assert("pause"@[0] == 'p');
    assert("pause"@.len() == 5);
    assert("ping"@.len() == 4);
    assert("redo"@[0] == 'r');
    assert("redo"@.len() == 4);
    assert("reorder"@[0] == 'r');
    assert("reorder"@.len() == 7);
    assert("reset"@[0] == 'r');
    assert("reset"@.len() == 5);
    assert("revive"@[0] == 'r');
    assert("revive"@.len() == 6);
    assert("save"@[0] == 's');
    assert("save"@.len() == 4);
    assert("set"@[0] == 's');
    assert("set"@.len() == 3);
    assert("subscribe"@.len() == 9);
    assert("system"@[0] == 's');
    assert("system"@.len() == 6);
    assert("undo"@[0] == 'u');
    assert("undo"@.len() == 4);
    assert("undostate"@[0] == 'u');
    assert("undostate"@.len() == 9);
    assert("update"@[0] == 'u');
    assert("update"@.len() == 6);
    assert("updatemeta"@.len() == 10);
    assert("verify"@[0] == 'v');
    assert("verify"@.len() == 6);
    assert("version"@.len() == 7);
    assert("waveform"@.len() == 8);
    let segs = command_segments(k, u, t);
    assert(plain_segments(segs));
    lemma_split_address(segs);
    match k {
        CommandKind::Ping => {
            assert(command_kind_of(segs) == Some(CommandKind::Ping));
        },
        CommandKind::Version => {
            assert(command_kind_of(segs) == Some(CommandKind::Version));
        },
        CommandKind::Subscribe => {
            assert(command_kind_of(segs) == Some(CommandKind::Subscribe));
        },
        CommandKind::SubscribeAndAssociate => {
            assert(command_kind_of(segs) == Some(CommandKind::SubscribeAndAssociate));
        },
        CommandKind::CreateAction => {
            assert(command_kind_of(segs) == Some(CommandKind::CreateAction));
        },
        CommandKind::ActionList => {
            assert(command_kind_of(segs) == Some(CommandKind::ActionList));
        },
        CommandKind::ActionInfo => {
            assert(command_kind_of(segs) == Some(CommandKind::ActionInfo));
        },
        CommandKind::UpdateActionParams => {
            assert(command_kind_of(segs) == Some(CommandKind::UpdateActionParams));
        },
        CommandKind::UpdateActionMetadata => {
            assert(command_kind_of(segs) == Some(CommandKind::UpdateActionMetadata));
        },
        CommandKind::ReviveAction => {
            assert(command_kind_of(segs) == Some(CommandKind::ReviveAction));
        },
        CommandKind::CreateActionWithUuid => {
            assert(command_kind_of(segs) == Some(CommandKind::CreateActionWithUuid));
        },
        CommandKind::CreateActionWithExtras => {
            assert(command_kind_of(segs) == Some(CommandKind::CreateActionWithExtras));
        },
        CommandKind::DeleteAction => {
            assert(command_kind_of(segs) == Some(CommandKind::DeleteAction));
        },
        CommandKind::VerifyAction => {
            assert(command_kind_of(segs) == Some(CommandKind::VerifyAction));
        },
        CommandKind::LoadAction => {
            assert(command_kind_of(segs) == Some(CommandKind::LoadAction));
        },
        CommandKind::ExecuteAction => {
            assert(command_kind_of(segs) == Some(CommandKind::ExecuteAction));
        },
        CommandKind::ResetAction => {
            assert(command_kind_of(segs) == Some(CommandKind::ResetAction));
        },
        CommandKind::PauseAction => {
            assert(command_kind_of(segs) == Some(CommandKind::PauseAction));
        },
        CommandKind::ReorderAction => {
            assert(command_kind_of(segs) == Some(CommandKind::ReorderAction));
        },
        CommandKind::GetMixerConf => {
            assert(command_kind_of(segs) == Some(CommandKind::GetMixerConf));
        },
        CommandKind::SetMixerConf => {
            assert(command_kind_of(segs) == Some(CommandKind::SetMixerConf));
        },
        CommandKind::MakeSavefile => {
            assert(command_kind_of(segs) == Some(CommandKind::MakeSavefile));
        },
        CommandKind::LoadSavefile => {
            assert(command_kind_of(segs) == Some(CommandKind::LoadSavefile));
        },
        CommandKind::Undo => {
            assert(command_kind_of(segs) == Some(CommandKind::Undo));
        },
        CommandKind::Redo => {
            assert(command_kind_of(segs) == Some(CommandKind::Redo));
        },
        CommandKind::GetUndoState => {
            assert(command_kind_of(segs) == Some(CommandKind::GetUndoState));
        },
        CommandKind::GenerateWaveform => {
            assert(command_kind_of(segs) == Some(CommandKind::GenerateWaveform));
        },
    }
}

/// The kinds of reply the server sends, one for each OSC address pattern of the protocol.
#[derive(Clone, Copy, Debug, PartialEq, Eq, Structural)]
pub enum ReplyKind {
    Pong,
    ServerVersion,
    Subscribed,
    Associated,
    DeserFailed,
    ActionCreated,
    ActionInfoRetrieved,
    ActionParamsUpdated,
    ActionMetadataUpdated,
    ActionDeleted,
    ActionLoaded,
    ActionExecuted,
    ActionMaybePaused,
    ActionReset,
    ActionReordered,
    MixerConfSet,
    ReplyActionList,
    UpdateOrder,
    UpdateActionInfo,
    UpdateActionDeleted,
    UpdateMixerConf,
    SavefileMade,
    SavefileLoaded,
    ReplyUndoState,
    WaveformGenerated,
    OversizedReply,
}

/// The address segments (after the leading slash) of a reply of kind `k`, with
/// `u` in place of its UUID.
pub open spec fn reply_segments(k: ReplyKind, u: Seq<char>) -> Seq<Seq<char>> {
    match k {
        ReplyKind::Pong => seq!["pong"@],
        ReplyKind::ServerVersion => seq!["reply"@, "version"@],
        ReplyKind::Subscribed => seq!["reply"@, "subscribe"@],
        ReplyKind::Associated => seq!["reply"@, "subscribe"@, "associate"@],
        ReplyKind::DeserFailed => seq!["error"@, "deserfail"@],
        ReplyKind::ActionCreated => seq!["reply"@, "actions"@, "create"@],
        ReplyKind::ActionInfoRetrieved => seq!["reply"@, "action"@, u],
        ReplyKind::ActionParamsUpdated => seq!["reply"@, "action"@, u, "update"@],
        ReplyKind::ActionMetadataUpdated => seq!["reply"@, "action"@, u, "updatemeta"@],
        ReplyKind::ActionDeleted => seq!["reply"@, "action"@, u, "delete"@],
        ReplyKind::ActionLoaded => seq!["reply"@, "action"@, u, "load"@],
        ReplyKind::ActionExecuted => seq!["reply"@, "action"@, u, "execute"@],
        ReplyKind::ActionMaybePaused => seq!["reply"@, "action"@, u, "pause"@],
        ReplyKind::ActionReset => seq!["reply"@, "action"@, u, "reset"@],
        ReplyKind::ActionReordered => seq!["reply"@, "action"@, u, "reorder"@],
        ReplyKind::MixerConfSet => seq!["reply"@, "mixer"@, "config"@],
        ReplyKind::ReplyActionList => seq!["reply"@, "actionlist"@],
        ReplyKind::UpdateOrder => seq!["update"@, "order"@],
        ReplyKind::UpdateActionInfo => seq!["update"@, "action"@, u],
        ReplyKind::UpdateActionDeleted => seq!["update"@, "action"@, u, "delete"@],
        ReplyKind::UpdateMixerConf => seq!["update"@, "mixer"@, "config"@],
        ReplyKind::SavefileMade => seq!["reply"@, "system"@, "save"@],
        ReplyKind::SavefileLoaded => seq!["reply"@, "system"@, "load"@],
        ReplyKind::ReplyUndoState => seq!["reply"@, "system"@, "undostate"@],
        ReplyKind::WaveformGenerated => seq!["reply"@, "waveform"@, u, "generated"@],
        ReplyKind::OversizedReply => seq!["error"@, "oversized"@],
    }
}

/// Where the UUID stands among the address segments of a reply of kind `k`, if it names one.
pub open spec fn reply_uuid_index(k: ReplyKind) -> Option<int> {
    match k {
        ReplyKind::ActionInfoRetrieved => Some(2),
        ReplyKind::ActionParamsUpdated => Some(2),
        ReplyKind::ActionMetadataUpdated => Some(2),
        ReplyKind::ActionDeleted => Some(2),
        ReplyKind::ActionLoaded => Some(2),
        ReplyKind::ActionExecuted => Some(2),
        ReplyKind::ActionMaybePaused => Some(2),
        ReplyKind::ActionReset => Some(2),
        ReplyKind::ActionReordered => Some(2),
        ReplyKind::UpdateActionInfo => Some(2),
        ReplyKind::UpdateActionDeleted => Some(2),
        ReplyKind::WaveformGenerated => Some(2),
        _ => None,
    }
}

/// Whether a reply of kind `k` names a UUID in its address.
pub open spec fn reply_has_uuid(k: ReplyKind) -> bool {
    reply_uuid_index(k) is Some
}

/// The kind of reply whose address pattern the segments match: the patterns are tried
/// in the order the protocol lists them, and a placeholder matches any segment.
pub open spec fn reply_kind_of(p: Seq<Seq<char>>) -> Option<ReplyKind> {
    if p.len() == 1 && p[0] == "pong"@ {
        Some(ReplyKind::Pong)
    } else if p.len() == 2 && p[0] == "reply"@ && p[1] == "version"@ {
        Some(ReplyKind::ServerVersion)
    } else if p.len() == 2 && p[0] == "reply"@ && p[1] == "subscribe"@ {
        Some(ReplyKind::Subscribed)
    } else if p.len() == 3 && p[0] == "reply"@ && p[1] == "subscribe"@ && p[2] == "associate"@ {
        Some(ReplyKind::Associated)
    } else if p.len() == 2 && p[0] == "error"@ && p[1] == "deserfail"@ {
        Some(ReplyKind::DeserFailed)
    } else if p.len() == 3 && p[0] == "reply"@ && p[1] == "actions"@ && p[2] == "create"@ {
        Some(ReplyKind::ActionCreated)
    } else if p.len() == 3 && p[0] == "reply"@ && p[1] == "action"@ {
        Some(ReplyKind::ActionInfoRetrieved)
    } else if p.len() == 4 && p[0] == "reply"@ && p[1] == "action"@ && p[3] == "update"@ {
        Some(ReplyKind::ActionParamsUpdated)
    } else if p.len() == 4 && p[0] == "reply"@ && p[1] == "action"@ && p[3] == "updatemeta"@ {
        Some(ReplyKind::ActionMetadataUpdated)
    } else if p.len() == 4 && p[0] == "reply"@ && p[1] == "action"@ && p[3] == "delete"@ {
        Some(ReplyKind::ActionDeleted)
    } else if p.len() == 4 && p[0] == "reply"@ && p[1] == "action"@ && p[3] == "load"@ {
        Some(ReplyKind::ActionLoaded)
    } else if p.len() == 4 && p[0] == "reply"@ && p[1] == "action"@ && p[3] == "execute"@ {
        Some(ReplyKind::ActionExecuted)
    } else if p.len() == 4 && p[0] == "reply"@ && p[1] == "action"@ && p[3] == "pause"@ {
        Some(ReplyKind::ActionMaybePaused)
    } else if p.len() == 4 && p[0] == "reply"@ && p[1] == "action"@ && p[3] == "reset"@ {
        Some(ReplyKind::ActionReset)
    } else if p.len() == 4 && p[0] == "reply"@ && p[1] == "action"@ && p[3] == "reorder"@ {
        Some(ReplyKind::ActionReordered)
    } else if p.len() == 3 && p[0] == "reply"@ && p[1] == "mixer"@ && p[2] == "config"@ {
        Some(ReplyKind::MixerConfSet)
    } else if p.len() == 2 && p[0] == "reply"@ && p[1] == "actionlist"@ {
        Some(ReplyKind::ReplyActionList)
    } else if p.len() == 2 && p[0] == "update"@ && p[1] == "order"@ {
        Some(ReplyKind::UpdateOrder)
    } else if p.len() == 3 && p[0] == "update"@ && p[1] == "action"@ {
        Some(ReplyKind::UpdateActionInfo)
    } else if p.len() == 4 && p[0] == "update"@ && p[1] == "action"@ && p[3] == "delete"@ {
        Some(ReplyKind::UpdateActionDeleted)
    } else if p.len() == 3 && p[0] == "update"@ && p[1] == "mixer"@ && p[2] == "config"@ {
        Some(ReplyKind::UpdateMixerConf)
    } else if p.len() == 3 && p[0] == "reply"@ && p[1] == "system"@ && p[2] == "save"@ {
        Some(ReplyKind::SavefileMade)
    } else if p.len() == 3 && p[0] == "reply"@ && p[1] == "system"@ && p[2] == "load"@ {
        Some(ReplyKind::SavefileLoaded)
    } else if p.len() == 3 && p[0] == "reply"@ && p[1] == "system"@ && p[2] == "undostate"@ {
        Some(ReplyKind::ReplyUndoState)
    } else if p.len() == 4 && p[0] == "reply"@ && p[1] == "waveform"@ && p[3] == "generated"@ {
        Some(ReplyKind::WaveformGenerated)
    } else if p.len() == 2 && p[0] == "error"@ && p[1] == "oversized"@ {
        Some(ReplyKind::OversizedReply)
    } else {
        None
    }
}

/// The arguments a reply of kind `k` carries after its address, in order.
pub open spec fn reply_arg_kinds(k: ReplyKind) -> Seq<ArgKind> {
    match k {
        ReplyKind::ServerVersion => seq![ArgKind::Str],
        ReplyKind::Associated => seq![ArgKind::Blob],
        ReplyKind::DeserFailed => seq![ArgKind::Str],
        ReplyKind::ActionCreated => seq![ArgKind::Blob],
        ReplyKind::ActionInfoRetrieved => seq![ArgKind::Blob],
        ReplyKind::ActionParamsUpdated => seq![ArgKind::Blob],
        ReplyKind::ActionMetadataUpdated => seq![ArgKind::Blob],
        ReplyKind::ActionDeleted => seq![ArgKind::Blob],
        ReplyKind::ActionLoaded => seq![ArgKind::Blob],
        ReplyKind::ActionExecuted => seq![ArgKind::Blob],
        ReplyKind::ActionMaybePaused => seq![ArgKind::Blob],
        ReplyKind::ActionReset => seq![ArgKind::Blob],
        ReplyKind::ActionReordered => seq![ArgKind::Blob],
        ReplyKind::MixerConfSet => seq![ArgKind::Blob],
        ReplyKind::ReplyActionList => seq![ArgKind::Blob, ArgKind::Blob],
        ReplyKind::UpdateOrder => seq![ArgKind::Blob],
        ReplyKind::UpdateActionInfo => seq![ArgKind::Blob],
        ReplyKind::UpdateMixerConf => seq![ArgKind::Blob],
        ReplyKind::SavefileMade => seq![ArgKind::Blob],
        ReplyKind::SavefileLoaded => seq![ArgKind::Blob],
        ReplyKind::ReplyUndoState => seq![ArgKind::Blob],
        ReplyKind::WaveformGenerated => seq![ArgKind::Blob],
        _ => Seq::empty(),
    }
}

/// Finds the kind of reply whose pattern the segments after the first match (see
/// `reply_kind_of`).
fn reply_kind_of_segments(segs: &Vec<String>) -> (r: Option<ReplyKind>)
    requires
        segs.len() >= 1,
    ensures
        r == reply_kind_of(seg_views(segs@).drop_first()),
{
    let ghost p = seg_views(segs@).drop_first();
    proof {
        assert forall|i: int| 0 <= i < p.len() implies #[trigger] p[i] == segs@[i + 1]@ by {}
    }
    let n = segs.len();
    if n == 2 && segment_is(&segs[1], "pong") {
        Some(ReplyKind::Pong)
    } else if n == 3 && segment_is(&segs[1], "reply") && segment_is(&segs[2], "version") {
        Some(ReplyKind::ServerVersion)
    } else if n == 3 && segment_is(&segs[1], "reply") && segment_is(&segs[2], "subscribe") {
        Some(ReplyKind::Subscribed)
    } else if n == 4 && segment_is(&segs[1], "reply") && segment_is(&segs[2], "subscribe") && segment_is(&segs[3], "associate") {
        Some(ReplyKind::Associated)
    } else if n == 3 && segment_is(&segs[1], "error") && segment_is(&segs[2], "deserfail") {
        Some(ReplyKind::DeserFailed)
    } else if n == 4 && segment_is(&segs[1], "reply") && segment_is(&segs[2], "actions") && segment_is(&segs[3], "create") {
        Some(ReplyKind::ActionCreated)
    } else if n == 4 && segment_is(&segs[1], "reply") && segment_is(&segs[2], "action") {
        Some(ReplyKind::ActionInfoRetrieved)
    } else if n == 5 && segment_is(&segs[1], "reply") && segment_is(&segs[2], "action") && segment_is(&segs[4], "update") {
        Some(ReplyKind::ActionParamsUpdated)
    } else if n == 5 && segment_is(&segs[1], "reply") && segment_is(&segs[2], "action") && segment_is(&segs[4], "updatemeta") {
        Some(ReplyKind::ActionMetadataUpdated)
    } else if n == 5 && segment_is(&segs[1], "reply") && segment_is(&segs[2], "action") && segment_is(&segs[4], "delete") {
        Some(ReplyKind::ActionDeleted)
    } else if n == 5 && segment_is(&segs[1], "reply") && segment_is(&segs[2], "action") && segment_is(&segs[4], "load") {
        Some(ReplyKind::ActionLoaded)
    } else if n == 5 && segment_is(&segs[1], "reply") && segment_is(&segs[2], "action") && segment_is(&segs[4], "execute") {
        Some(ReplyKind::ActionExecuted)
    } else if n == 5 && segment_is(&segs[1], "reply") && segment_is(&segs[2], "action") && segment_is(&segs[4], "pause") {
        Some(ReplyKind::ActionMaybePaused)
    } else if n == 5 && segment_is(&segs[1], "reply") && segment_is(&segs[2], "action") && segment_is(&segs[4], "reset") {
        Some(ReplyKind::ActionReset)
    } else if n == 5 && segment_is(&segs[1], "reply") && segment_is(&segs[2], "action") && segment_is(&segs[4], "reorder") {
        Some(ReplyKind::ActionReordered)
    } else if n == 4 && segment_is(&segs[1], "reply") && segment_is(&segs[2], "mixer") && segment_is(&segs[3], "config") {
        Some(ReplyKind::MixerConfSet)
    } else if n == 3 && segment_is(&segs[1], "reply") && segment_is(&segs[2], "actionlist") {
        Some(ReplyKind::ReplyActionList)
    } else if n == 3 && segment_is(&segs[1], "update") && segment_is(&segs[2], "order") {
        Some(ReplyKind::UpdateOrder)
    } else if n == 4 && segment_is(&segs[1], "update") && segment_is(&segs[2], "action") {
        Some(ReplyKind::UpdateActionInfo)
    } else if n == 5 && segment_is(&segs[1], "update") && segment_is(&segs[2], "action") && segment_is(&segs[4], "delete") {
        Some(ReplyKind::UpdateActionDeleted)
    } else if n == 4 && segment_is(&segs[1], "update") && segment_is(&segs[2], "mixer") && segment_is(&segs[3], "config") {
        Some(ReplyKind::UpdateMixerConf)
    } else if n == 4 && segment_is(&segs[1], "reply") && segment_is(&segs[2], "system") && segment_is(&segs[3], "save") {
        Some(ReplyKind::SavefileMade)
    } else if n == 4 && segment_is(&segs[1], "reply") && segment_is(&segs[2], "system") && segment_is(&segs[3], "load") {
        Some(ReplyKind::SavefileLoaded)
    } else if n == 4 && segment_is(&segs[1], "reply") && segment_is(&segs[2], "system") && segment_is(&segs[3], "undostate") {
        Some(ReplyKind::ReplyUndoState)
    } else if n == 5 && segment_is(&segs[1], "reply") && segment_is(&segs[2], "waveform") && segment_is(&segs[4], "generated") {
        Some(ReplyKind::WaveformGenerated)
    } else if n == 3 && segment_is(&segs[1], "error") && segment_is(&segs[2], "oversized") {
        Some(ReplyKind::OversizedReply)
    } else {
        None
    }
}

/// The arguments a reply of kind `k` carries (see `reply_arg_kinds`).
pub fn reply_args(k: ReplyKind) -> (r: Vec<ArgKind>)
    ensures
        r@ == reply_arg_kinds(k),
{
    let r = match k {
        ReplyKind::ServerVersion => vec![ArgKind::Str],
        ReplyKind::Associated => vec![ArgKind::Blob],
        ReplyKind::DeserFailed => vec![ArgKind::Str],
        ReplyKind::ActionCreated => vec![ArgKind::Blob],
        ReplyKind::ActionInfoRetrieved => vec![ArgKind::Blob],
        ReplyKind::ActionParamsUpdated => vec![ArgKind::Blob],
        ReplyKind::ActionMetadataUpdated => vec![ArgKind::Blob],
        ReplyKind::ActionDeleted => vec![ArgKind::Blob],
        ReplyKind::ActionLoaded => vec![ArgKind::Blob],
        ReplyKind::ActionExecuted => vec![ArgKind::Blob],
        ReplyKind::ActionMaybePaused => vec![ArgKind::Blob],
        ReplyKind::ActionReset => vec![ArgKind::Blob],
        ReplyKind::ActionReordered => vec![ArgKind::Blob],
        ReplyKind::MixerConfSet => vec![ArgKind::Blob],
        ReplyKind::ReplyActionList => vec![ArgKind::Blob, ArgKind::Blob],
        ReplyKind::UpdateOrder => vec![ArgKind::Blob],
        ReplyKind::UpdateActionInfo => vec![ArgKind::Blob],
        ReplyKind::UpdateMixerConf => vec![ArgKind::Blob],
        ReplyKind::SavefileMade => vec![ArgKind::Blob],
        ReplyKind::SavefileLoaded => vec![ArgKind::Blob],
        ReplyKind::ReplyUndoState => vec![ArgKind::Blob],
        ReplyKind::WaveformGenerated => vec![ArgKind::Blob],
        _ => Vec::new(),
    };
    proof {
        assert(r@ =~= reply_arg_kinds(k));
    }
    r
}

/// The address segments of a reply of kind `k`, with `u` for its UUID.
fn reply_segment_strings(k: ReplyKind, u: &String) -> (r: Vec<String>)
    ensures
        seg_views(r@) == reply_segments(k, u@),
{
    let r = match k {
        ReplyKind::Pong => vec![String::from_str("pong")],
        ReplyKind::ServerVersion => vec![String::from_str("reply"), String::from_str("version")],
        ReplyKind::Subscribed => vec![String::from_str("reply"), String::from_str("subscribe")],
        ReplyKind::Associated => vec![String::from_str("reply"), String::from_str("subscribe"), String::from_str("associate")],
        ReplyKind::DeserFailed => vec![String::from_str("error"), String::from_str("deserfail")],
        ReplyKind::ActionCreated => vec![String::from_str("reply"), String::from_str("actions"), String::from_str("create")],
        ReplyKind::ActionInfoRetrieved => vec![String::from_str("reply"), String::from_str("action"), u.clone()],
        ReplyKind::ActionParamsUpdated => vec![String::from_str("reply"), String::from_str("action"), u.clone(), String::from_str("update")],
        ReplyKind::ActionMetadataUpdated => vec![String::from_str("reply"), String::from_str("action"), u.clone(), String::from_str("updatemeta")],
        ReplyKind::ActionDeleted => vec![String::from_str("reply"), String::from_str("action"), u.clone(), String::from_str("delete")],
        ReplyKind::ActionLoaded => vec![String::from_str("reply"), String::from_str("action"), u.clone(), String::from_str("load")],
        ReplyKind::ActionExecuted => vec![String::from_str("reply"), String::from_str("action"), u.clone(), String::from_str("execute")],
        ReplyKind::ActionMaybePaused => vec![String::from_str("reply"), String::from_str("action"), u.clone(), String::from_str("pause")],
        ReplyKind::ActionReset => vec![String::from_str("reply"), String::from_str("action"), u.clone(), String::from_str("reset")],
        ReplyKind::ActionReordered => vec![String::from_str("reply"), String::from_str("action"), u.clone(), String::from_str("reorder")],
        ReplyKind::MixerConfSet => vec![String::from_str("reply"), String::from_str("mixer"), String::from_str("config")],
        ReplyKind::ReplyActionList => vec![String::from_str("reply"), String::from_str("actionlist")],
        ReplyKind::UpdateOrder => vec![String::from_str("update"), String::from_str("order")],
        ReplyKind::UpdateActionInfo => vec![String::from_str("update"), String::from_str("action"), u.clone()],
        ReplyKind::UpdateActionDeleted => vec![String::from_str("update"), String::from_str("action"), u.clone(), String::from_str("delete")],
        ReplyKind::UpdateMixerConf => vec![String::from_str("update"), String::from_str("mixer"), String::from_str("config")],
        ReplyKind::SavefileMade => vec![String::from_str("reply"), String::from_str("system"), String::from_str("save")],
        ReplyKind::SavefileLoaded => vec![String::from_str("reply"), String::from_str("system"), String::from_str("load")],
        ReplyKind::ReplyUndoState => vec![String::from_str("reply"), String::from_str("system"), String::from_str("undostate")],
        ReplyKind::WaveformGenerated => vec![String::from_str("reply"), String::from_str("waveform"), u.clone(), String::from_str("generated")],
        ReplyKind::OversizedReply => vec![String::from_str("error"), String::from_str("oversized")],
    };
    proof {
        assert(seg_views(r@) =~= reply_segments(k, u@));
    }
    r
}

/// Where the UUID stands among the address segments of a reply of kind `k`.
fn reply_uuid_position(k: ReplyKind) -> (r: Option<usize>)
    ensures
        r matches Some(i) ==> reply_uuid_index(k) == Some(i as int),
        r is None ==> reply_uuid_index(k) is None,
{
    match k {
        ReplyKind::ActionInfoRetrieved => Some(2),
        ReplyKind::ActionParamsUpdated => Some(2),
        ReplyKind::ActionMetadataUpdated => Some(2),
        ReplyKind::ActionDeleted => Some(2),
        ReplyKind::ActionLoaded => Some(2),
        ReplyKind::ActionExecuted => Some(2),
        ReplyKind::ActionMaybePaused => Some(2),
        ReplyKind::ActionReset => Some(2),
        ReplyKind::ActionReordered => Some(2),
        ReplyKind::UpdateActionInfo => Some(2),
        ReplyKind::UpdateActionDeleted => Some(2),
        ReplyKind::WaveformGenerated => Some(2),
        _ => None,
    }
}

/// What reading `addr` as the address of a reply gives.
pub open spec fn reply_route_read(addr: Seq<char>) -> RouteRead<ReplyKind> {
    let segs = split_slash(addr);
    if segs.len() < 2 {
        RouteRead::Blank
    } else {
        let p = segs.drop_first();
        match reply_kind_of(p) {
            None => RouteRead::Unknown,
            Some(k) => match reply_uuid_index(k) {
                Some(i) => match uuid_parse(p[i]) {
                    Err(t) => RouteRead::BadUuid(t),
                    Ok(v) => RouteRead::Found(k, v, Seq::empty()),
                },
                None => RouteRead::Found(k, 0, Seq::empty()),
            },
        }
    }
}

/// Which reply an address names: its kind, and the values the address holds.
#[derive(Clone, Debug, PartialEq)]
pub struct ReplyRoute {
    pub kind: ReplyKind,
    /// The UUID the address names (0 if its kind names none).
    pub uuid: u128,
}

/// A read reply route as the kind, UUID and type it holds.
pub open spec fn reply_route_view(r: Result<ReplyRoute, BackendError>) -> Result<(ReplyKind, u128, Seq<char>), BackendError> {
    match r {
        Ok(x) => Ok((x.kind, x.uuid, Seq::<char>::empty())),
        Err(e) => Err(e),
    }
}

/// Reads `addr` as the address of a reply: splits it at slashes, finds the first
/// pattern that the segments after the first match, and reads the UUID the
/// address names.
pub fn parse_reply_route(addr: &str) -> (r: Result<ReplyRoute, BackendError>)
    ensures
        route_outcome(reply_route_view(r), reply_route_read(addr@)),
{
    let segs = split_address(addr);
    proof {
        assert(seg_views(segs@) =~= split_slash(addr@));
    }
    if segs.len() < 2 {
        return Err(blank_path_error());
    }
    let ghost p = split_slash(addr@).drop_first();
    let k = match reply_kind_of_segments(&segs) {
        None => return Err(BackendError::UnknownOSCPath),
        Some(k) => k,
    };
    let uuid: u128 = match reply_uuid_position(k) {
        Some(i) => {
            proof {
                assert(p[i as int] == segs@[i + 1]@);
            }
            match parse_uuid(segs[i + 1].as_str()) {
                Ok(v) => v,
                Err(e) => return Err(BackendError::Uuid(e)),
            }
        },
        None => 0,
    };
    Ok(ReplyRoute { kind: k, uuid })
}

/// The address of the reply that `route` names, its UUID written in its
/// hyphenated form.
pub fn reply_route_address(route: &ReplyRoute) -> (s: String)
    ensures
        s@ == address_of(reply_segments(route.kind, uuid_hyphenated(route.uuid))),
{
    let u = uuid_to_string(route.uuid);
    let segs = reply_segment_strings(route.kind, &u);
    join_address(&segs)
}

/// A reply read from an OSC message: the route its address names, the arguments
/// its kind asks for that were there, and the error for the first that was
/// missing or of the wrong type, if one was.
#[derive(Clone, Debug, PartialEq)]
pub struct OscReply {
    pub route: ReplyRoute,
    pub args: Vec<OscArg>,
    pub arg_error: Option<BackendError>,
}

/// Reads an OSC message with address `addr` and arguments `args` as a reply:
/// the route first (an error there is the result), then the arguments its
/// kind asks for, in order.
pub fn reply_from_osc(addr: &str, args: Vec<OscArg>) -> (r: Result<OscReply, BackendError>)
    ensures
        route_outcome(match r { Ok(c) => reply_route_view(Ok(c.route)), Err(e) => Err(e) }, reply_route_read(addr@)),
        r matches Ok(c) ==> args_taken(reply_arg_kinds(c.route.kind), args@, c.args@, c.arg_error),
{
    let route = parse_reply_route(addr)?;
    let expected = reply_args(route.kind);
    let (taken, err) = take_args(&expected, args);
    Ok(OscReply { route, args: taken, arg_error: err })
}

/// The address of a reply, read back, names the same reply: its kind, the UUID it
/// was written with, when the UUID text holds no slash.
pub proof fn lemma_reply_route_roundtrip(k: ReplyKind, u: Seq<char>, v: u128)
    requires
        !u.contains('/'),
        reply_has_uuid(k) ==> uuid_parse(u) == Ok::<u128, Seq<char>>(v),
    ensures
        reply_route_read(address_of(reply_segments(k, u))) == RouteRead::Found(
            k,
            if reply_has_uuid(k) { v } else { 0 },
            Seq::<char>::empty(),
        ),
{
    reveal_strlit("action");
    reveal_strlit("actionlist");
    reveal_strlit("actions");
    reveal_strlit("associate");
    reveal_strlit("config");
    reveal_strlit("create");
    reveal_strlit("delete");
    reveal_strlit("deserfail");
    reveal_strlit("error");
    reveal_strlit("execute");
    reveal_strlit("generated");
    reveal_strlit("load");
    reveal_strlit("mixer");
    reveal_strlit("order");
    reveal_strlit("oversized");
    reveal_strlit("pause");
    reveal_strlit("pong");
    reveal_strlit("reorder");
    reveal_strlit("reply");
    reveal_strlit("reset");
    reveal_strlit("save");
    reveal_strlit("subscribe");
    reveal_strlit("system");
    reveal_strlit("undostate");
    reveal_strlit("update");
    reveal_strlit("updatemeta");
    reveal_strlit("version");
    reveal_strlit("waveform");
    assert("action"@[0] == 'a');
    assert("action"@.len() == 6);
    assert("actionlist"@.len() == 10);
    assert("actions"@.len() == 7);
    assert("associate"@[0] == 'a');
    assert("associate"@.len() == 9);
    assert("config"@[1] == 'o');
    assert("config"@.len() == 6);
    assert("create"@[1] == 'r');
    assert("create"@.len() == 6);
    assert("delete"@[0] == 'd');
    assert("delete"@.len() == 6);
    assert("deserfail"@[0] == 'd');
    assert("deserfail"@.len() == 9);
    assert("error"@[0] == 'e');
    assert("error"@.len() == 5);
    assert("execute"@[0] == 'e');
    assert("execute"@.len() == 7);
    assert("generated"@.len() == 9);
    assert("load"@[0] == 'l');
    assert("load"@.len() == 4);
    assert("mixer"@.len() == 5);
    assert("order"@.len() == 5);
    assert("oversized"@[0] == 'o');
    assert("oversized"@.len() == 9);
    assert("pause"@[0] == 'p');
    assert("pause"@.len() == 5);
    assert("pong"@.len() == 4);
    assert("reorder"@[0] == 'r');
    assert("reorder"@.len() == 7);
    assert("reply"@[0] == 'r');
    assert("reply"@.len() == 5);
    assert("reset"@[0] == 'r');
    assert("reset"@.len() == 5);
    assert("save"@[0] == 's');
    assert("save"@.len() == 4);
    assert("subscribe"@[0] == 's');
    assert("subscribe"@.len() == 9);
    assert("system"@[0] == 's');
    assert("system"@.len() == 6);
    assert("undostate"@[0] == 'u');
    assert("undostate"@.len() == 9);
    assert("update"@[0] == 'u');
    assert("update"@.len() == 6);
    assert("updatemeta"@.len() == 10);
    assert("version"@.len() == 7);
    assert("waveform"@.len() == 8);
    let segs = reply_segments(k, u);
    assert(plain_segments(segs));
    lemma_split_address(segs);
    match k {
        ReplyKind::Pong => {
            assert(reply_kind_of(segs) == Some(ReplyKind::Pong));
        },
        ReplyKind::ServerVersion => {
            assert(reply_kind_of(segs) == Some(ReplyKind::ServerVersion));
        },
        ReplyKind::Subscribed => {
            assert(reply_kind_of(segs) == Some(ReplyKind::Subscribed));
        },
        ReplyKind::Associated => {
            assert(reply_kind_of(segs) == Some(ReplyKind::Associated));
        },
        ReplyKind::DeserFailed => {
            assert(reply_kind_of(segs) == Some(ReplyKind::DeserFailed));
        },
        ReplyKind::ActionCreated => {
            assert(reply_kind_of(segs) == Some(ReplyKind::ActionCreated));
        },
        ReplyKind::ActionInfoRetrieved => {
            assert(reply_kind_of(segs) == Some(ReplyKind::ActionInfoRetrieved));
        },
        ReplyKind::ActionParamsUpdated => {
            assert(reply_kind_of(segs) == Some(ReplyKind::ActionParamsUpdated));
        },
        ReplyKind::ActionMetadataUpdated => {
            assert(reply_kind_of(segs) == Some(ReplyKind::ActionMetadataUpdated));
        },
        ReplyKind::ActionDeleted => {
            assert(reply_kind_of(segs) == Some(ReplyKind::ActionDeleted));
        },
        ReplyKind::ActionLoaded => {
            assert(reply_kind_of(segs) == Some(ReplyKind::ActionLoaded));
        },
        ReplyKind::ActionExecuted => {
            assert(reply_kind_of(segs) == Some(ReplyKind::ActionExecuted));
        },
        ReplyKind::ActionMaybePaused => {
            assert(reply_kind_of(segs) == Some(ReplyKind::ActionMaybePaused));
        },
        ReplyKind::ActionReset => {
            assert(reply_kind_of(segs) == Some(ReplyKind::ActionReset));
        },
        ReplyKind::ActionReordered => {
            assert(reply_kind_of(segs) == Some(ReplyKind::ActionReordered));
        },
        ReplyKind::MixerConfSet => {
            assert(reply_kind_of(segs) == Some(ReplyKind::MixerConfSet));
        },
        ReplyKind::ReplyActionList => {
            assert(reply_kind_of(segs) == Some(ReplyKind::ReplyActionList));
        },
        ReplyKind::UpdateOrder => {
            assert(reply_kind_of(segs) == Some(ReplyKind::UpdateOrder));
        },
        ReplyKind::UpdateActionInfo => {
            assert(reply_kind_of(segs) == Some(ReplyKind::UpdateActionInfo));
        },
        ReplyKind::UpdateActionDeleted => {
            assert(reply_kind_of(segs) == Some(ReplyKind::UpdateActionDeleted));
        },
        ReplyKind::UpdateMixerConf => {
            assert(reply_kind_of(segs) == Some(ReplyKind::UpdateMixerConf));
        },
        ReplyKind::SavefileMade => {
            assert(reply_kind_of(segs) == Some(ReplyKind::SavefileMade));
        },
        ReplyKind::SavefileLoaded => {
            assert(reply_kind_of(segs) == Some(ReplyKind::SavefileLoaded));
        },
        ReplyKind::ReplyUndoState => {
            assert(reply_kind_of(segs) == Some(ReplyKind::ReplyUndoState));
        },
        ReplyKind::WaveformGenerated => {
            assert(reply_kind_of(segs) == Some(ReplyKind::WaveformGenerated));
        },
        ReplyKind::OversizedReply => {
            assert(reply_kind_of(segs) == Some(ReplyKind::OversizedReply));
        },
    }
}

/// The kind of a command.
pub open spec fn command_kind(c: Command) -> CommandKind {
    match c {
        Command::Ping => CommandKind::Ping,
        Command::Version => CommandKind::Version,
        Command::Subscribe => CommandKind::Subscribe,
        Command::SubscribeAndAssociate { .. } => CommandKind::SubscribeAndAssociate,
        Command::CreateAction { .. } => CommandKind::CreateAction,
        Command::ActionList => CommandKind::ActionList,
        Command::ActionInfo { .. } => CommandKind::ActionInfo,
        Command::UpdateActionParams { .. } => CommandKind::UpdateActionParams,
        Command::UpdateActionMetadata { .. } => CommandKind::UpdateActionMetadata,
        Command::ReviveAction { .. } => CommandKind::ReviveAction,
        Command::CreateActionWithUuid { .. } => CommandKind::CreateActionWithUuid,
        Command::CreateActionWithExtras { .. } => CommandKind::CreateActionWithExtras,
        Command::DeleteAction { .. } => CommandKind::DeleteAction,
        Command::VerifyAction { .. } => CommandKind::VerifyAction,
        Command::LoadAction { .. } => CommandKind::LoadAction,
        Command::ExecuteAction { .. } => CommandKind::ExecuteAction,
        Command::ResetAction { .. } => CommandKind::ResetAction,
        Command::PauseAction { .. } => CommandKind::PauseAction,
        Command::ReorderAction { .. } => CommandKind::ReorderAction,
        Command::GetMixerConf => CommandKind::GetMixerConf,
        Command::SetMixerConf { .. } => CommandKind::SetMixerConf,
        Command::MakeSavefile { .. } => CommandKind::MakeSavefile,
        Command::LoadSavefile { .. } => CommandKind::LoadSavefile,
        Command::Undo => CommandKind::Undo,
        Command::Redo => CommandKind::Redo,
        Command::GetUndoState => CommandKind::GetUndoState,
        Command::GenerateWaveform { .. } => CommandKind::GenerateWaveform,
    }
}

/// The UUID a command names in its address (0 if it names none).
pub open spec fn command_uuid(c: Command) -> u128 {
    match c {
        Command::ActionInfo { uuid, .. } => uuid,
        Command::UpdateActionParams { uuid, .. } => uuid,
        Command::UpdateActionMetadata { uuid, .. } => uuid,
        Command::ReviveAction { uuid, .. } => uuid,
        Command::CreateActionWithUuid { uuid, .. } => uuid,
        Command::CreateActionWithExtras { uuid, .. } => uuid,
        Command::DeleteAction { uuid, .. } => uuid,
        Command::VerifyAction { uuid, .. } => uuid,
        Command::LoadAction { uuid, .. } => uuid,
        Command::ExecuteAction { uuid, .. } => uuid,
        Command::ResetAction { uuid, .. } => uuid,
        Command::PauseAction { uuid, .. } => uuid,
        Command::ReorderAction { uuid, .. } => uuid,
        Command::GenerateWaveform { uuid, .. } => uuid,
        _ => 0,
    }
}

/// The action type a command names in its address (empty if it names none).
pub open spec fn command_typ(c: Command) -> Seq<char> {
    match c {
        Command::CreateAction { typ, .. } => typ@,
        Command::ReviveAction { typ, .. } => typ@,
        Command::CreateActionWithUuid { typ, .. } => typ@,
        Command::CreateActionWithExtras { typ, .. } => typ@,
        _ => Seq::empty(),
    }
}

impl Command {
    /// The route of the command: its kind, and the UUID and action type its
    /// address names.
    pub fn route(&self) -> (r: CommandRoute)
        ensures
            r.kind == command_kind(*self),
            r.uuid == command_uuid(*self),
            r.typ@ == command_typ(*self),
    {
        match self {
            Command::Ping => CommandRoute { kind: CommandKind::Ping, uuid: 0, typ: String::new() },
            Command::Version => CommandRoute { kind: CommandKind::Version, uuid: 0, typ: String::new() },
            Command::Subscribe => CommandRoute { kind: CommandKind::Subscribe, uuid: 0, typ: String::new() },
            Command::SubscribeAndAssociate { .. } => CommandRoute { kind: CommandKind::SubscribeAndAssociate, uuid: 0, typ: String::new() },
            Command::CreateAction { typ, .. } => CommandRoute { kind: CommandKind::CreateAction, uuid: 0, typ: typ.clone() },
            Command::ActionList => CommandRoute { kind: CommandKind::ActionList, uuid: 0, typ: String::new() },
            Command::ActionInfo { uuid, .. } => CommandRoute { kind: CommandKind::ActionInfo, uuid: *uuid, typ: String::new() },
            Command::UpdateActionParams { uuid, .. } => CommandRoute { kind: CommandKind::UpdateActionParams, uuid: *uuid, typ: String::new() },
            Command::UpdateActionMetadata { uuid, .. } => CommandRoute { kind: CommandKind::UpdateActionMetadata, uuid: *uuid, typ: String::new() },
            Command::ReviveAction { uuid, typ, .. } => CommandRoute { kind: CommandKind::ReviveAction, uuid: *uuid, typ: typ.clone() },
            Command::CreateActionWithUuid { uuid, typ, .. } => CommandRoute { kind: CommandKind::CreateActionWithUuid, uuid: *uuid, typ: typ.clone() },
            Command::CreateActionWithExtras { uuid, typ, .. } => CommandRoute { kind: CommandKind::CreateActionWithExtras, uuid: *uuid, typ: typ.clone() },
            Command::DeleteAction { uuid, .. } => CommandRoute { kind: CommandKind::DeleteAction, uuid: *uuid, typ: String::new() },
            Command::VerifyAction { uuid, .. } => CommandRoute { kind: CommandKind::VerifyAction, uuid: *uuid, typ: String::new() },
            Command::LoadAction { uuid, .. } => CommandRoute { kind: CommandKind::LoadAction, uuid: *uuid, typ: String::new() },
            Command::ExecuteAction { uuid, .. } => CommandRoute { kind: CommandKind::ExecuteAction, uuid: *uuid, typ: String::new() },
            Command::ResetAction { uuid, .. } => CommandRoute { kind: CommandKind::ResetAction, uuid: *uuid, typ: String::new() },
            Command::PauseAction { uuid, .. } => CommandRoute { kind: CommandKind::PauseAction, uuid: *uuid, typ: String::new() },
            Command::ReorderAction { uuid, .. } => CommandRoute { kind: CommandKind::ReorderAction, uuid: *uuid, typ: String::new() },
            Command::GetMixerConf => CommandRoute { kind: CommandKind::GetMixerConf, uuid: 0, typ: String::new() },
            Command::SetMixerConf { .. } => CommandRoute { kind: CommandKind::SetMixerConf, uuid: 0, typ: String::new() },
            Command::MakeSavefile { .. } => CommandRoute { kind: CommandKind::MakeSavefile, uuid: 0, typ: String::new() },
            Command::LoadSavefile { .. } => CommandRoute { kind: CommandKind::LoadSavefile, uuid: 0, typ: String::new() },
            Command::Undo => CommandRoute { kind: CommandKind::Undo, uuid: 0, typ: String::new() },
            Command::Redo => CommandRoute { kind: CommandKind::Redo, uuid: 0, typ: String::new() },
            Command::GetUndoState => CommandRoute { kind: CommandKind::GetUndoState, uuid: 0, typ: String::new() },
            Command::GenerateWaveform { uuid, .. } => CommandRoute { kind: CommandKind::GenerateWaveform, uuid: *uuid, typ: String::new() },
        }
    }

    /// The plain (string and boolean) arguments of the command, in order; they
    /// follow its serialised arguments.
    pub fn plain_args(&self) -> (r: Vec<OscArg>)
        ensures
            r@.len() == command_arg_kinds(command_kind(*self)).len() - command_blob_count(command_kind(*self)),
            forall|i: int| 0 <= i < r@.len() ==> arg_has_kind(#[trigger] r@[i], command_arg_kinds(command_kind(*self))[command_blob_count(command_kind(*self)) + i]),
            match *self {
                Command::MakeSavefile { save_to } => r@[0] matches OscArg::Str(s) && s@ == save_to@,
                Command::LoadSavefile { load_from, force } => r@[0] matches OscArg::Str(s) && s@ == load_from@ && r@[1] == OscArg::Bool(force),
                _ => true,
            },
    {
        match self {
            Command::MakeSavefile { save_to } => vec![OscArg::Str(save_to.clone())],
            Command::LoadSavefile { load_from, force } => vec![OscArg::Str(load_from.clone()), OscArg::Bool(*force)],
            _ => Vec::new(),
        }
    }
}

/// How many serialised (blob) arguments a command of kind `k` carries.
pub open spec fn command_blob_count(k: CommandKind) -> int {
    match k {
        CommandKind::SubscribeAndAssociate => 1,
        CommandKind::UpdateActionParams => 2,
        CommandKind::UpdateActionMetadata => 1,
        CommandKind::ReviveAction => 2,
        CommandKind::CreateActionWithExtras => 1,
        CommandKind::ReorderAction => 1,
        CommandKind::SetMixerConf => 1,
        CommandKind::GenerateWaveform => 1,
        _ => 0,
    }
}

/// Arguments of exactly the types asked for, and no more, are all taken back,
/// with no error.
pub proof fn lemma_args_roundtrip(
    expected: Seq<ArgKind>,
    args: Seq<OscArg>,
    taken: Seq<OscArg>,
    err: Option<BackendError>,
)
    requires
        args.len() == expected.len(),
        args_fit(expected, args, args.len() as int),
        args_taken(expected, args, taken, err),
    ensures
        taken == args,
        err is None,
{
    let n = taken.len() as int;
    if err is Some {
        assert(n < expected.len());
        assert(arg_has_kind(args[n], expected[n]));
    }
    assert(args.take(args.len() as int) =~= args);
}

/// An OSC message written for a command, read back, gives the same command:
/// the address of its route (its kind, UUID and action type, when the UUID
/// text and the type hold no slash), followed by arguments of exactly the
/// types its kind asks for, is read as that route with those arguments and
/// none missing.
pub proof fn lemma_command_message_roundtrip(
    k: CommandKind,
    u: Seq<char>,
    v: u128,
    t: Seq<char>,
    args: Seq<OscArg>,
    r: Result<OscCommand, BackendError>,
)
    requires
        !u.contains('/'),
        !t.contains('/'),
        command_has_uuid(k) ==> uuid_parse(u) == Ok::<u128, Seq<char>>(v),
        args.len() == command_arg_kinds(k).len(),
        args_fit(command_arg_kinds(k), args, args.len() as int),
        route_outcome(
            match r {
                Ok(c) => command_route_view(Ok(c.route)),
                Err(e) => Err(e),
            },
            command_route_read(address_of(command_segments(k, u, t))),
        ),
        r matches Ok(c) ==> args_taken(command_arg_kinds(c.route.kind), args, c.args@, c.arg_error),
    ensures
        r matches Ok(c) && c.route.kind == k && c.route.uuid == (if command_has_uuid(k) { v } else { 0 })
            && c.route.typ@ == (if command_typ_index(k) is Some { t } else { Seq::<char>::empty() })
            && c.args@ == args && c.arg_error is None,
{
    lemma_command_route_roundtrip(k, u, v, t);
    let c = r->Ok_0;
    lemma_args_roundtrip(command_arg_kinds(k), args, c.args@, c.arg_error);
}

/// An OSC message written for a reply, read back, gives the same reply: the
/// address of its route (its kind and UUID, when the UUID text holds no
/// slash), followed by arguments of exactly the types its kind asks for, is
/// read as that route with those arguments and none missing.
pub proof fn lemma_reply_message_roundtrip(
    k: ReplyKind,
    u: Seq<char>,
    v: u128,
    args: Seq<OscArg>,
    r: Result<OscReply, BackendError>,
)
    requires
        !u.contains('/'),
        reply_has_uuid(k) ==> uuid_parse(u) == Ok::<u128, Seq<char>>(v),
        args.len() == reply_arg_kinds(k).len(),
        args_fit(reply_arg_kinds(k), args, args.len() as int),
        route_outcome(
            match r {
                Ok(c) => reply_route_view(Ok(c.route)),
                Err(e) => Err(e),
            },
            reply_route_read(address_of(reply_segments(k, u))),
        ),
        r matches Ok(c) ==> args_taken(reply_arg_kinds(c.route.kind), args, c.args@, c.arg_error),
    ensures
        r matches Ok(c) && c.route.kind == k && c.route.uuid == (if reply_has_uuid(k) { v } else { 0 })
            && c.args@ == args && c.arg_error is None,
{
    lemma_reply_route_roundtrip(k, u, v);
    let c = r->Ok_0;
    lemma_args_roundtrip(reply_arg_kinds(k), args, c.args@, c.arg_error);
}

/// The OSC address of each command, segment by segment after the leading
/// slash, as the protocol writes it (`u` in place of the UUID, `t` in place
/// of the action type).
pub proof fn lemma_command_addresses(u: Seq<char>, t: Seq<char>)
    ensures
        command_segments(CommandKind::Ping, u, t) == seq!["ping"@],
        command_segments(CommandKind::Version, u, t) == seq!["version"@],
        command_segments(CommandKind::Subscribe, u, t) == seq!["subscribe"@],
        command_segments(CommandKind::SubscribeAndAssociate, u, t) == seq!["subscribe"@, "associate"@],
        command_segments(CommandKind::CreateAction, u, t) == seq!["actions"@, t, "new"@],
        command_segments(CommandKind::ActionList, u, t) == seq!["actionlist"@],
        command_segments(CommandKind::ActionInfo, u, t) == seq!["action"@, u],
        command_segments(CommandKind::UpdateActionParams, u, t) == seq!["action"@, u, "update"@],
        command_segments(CommandKind::UpdateActionMetadata, u, t) == seq!["action"@, u, "updatemeta"@],
        command_segments(CommandKind::ReviveAction, u, t) == seq!["action"@, u, "revive"@, t],
        command_segments(CommandKind::CreateActionWithUuid, u, t) == seq!["action"@, u, "create"@, t],
        command_segments(CommandKind::CreateActionWithExtras, u, t) == seq!["action"@, u, "create_extra"@, t],
        command_segments(CommandKind::DeleteAction, u, t) == seq!["action"@, u, "delete"@],
        command_segments(CommandKind::VerifyAction, u, t) == seq!["action"@, u, "verify"@],
        command_segments(CommandKind::LoadAction, u, t) == seq!["action"@, u, "load"@],
        command_segments(CommandKind::ExecuteAction, u, t) == seq!["action"@, u, "execute"@],
        command_segments(CommandKind::ResetAction, u, t) == seq!["action"@, u, "reset"@],
        command_segments(CommandKind::PauseAction, u, t) == seq!["action"@, u, "pause"@],
        command_segments(CommandKind::ReorderAction, u, t) == seq!["action"@, u, "reorder"@],
        command_segments(CommandKind::GetMixerConf, u, t) == seq!["mixer"@, "config"@],
        command_segments(CommandKind::SetMixerConf, u, t) == seq!["mixer"@, "config"@, "set"@],
        command_segments(CommandKind::MakeSavefile, u, t) == seq!["system"@, "save"@],
        command_segments(CommandKind::LoadSavefile, u, t) == seq!["system"@, "load"@],
        command_segments(CommandKind::Undo, u, t) == seq!["system"@, "undo"@],
        command_segments(CommandKind::Redo, u, t) == seq!["system"@, "redo"@],
        command_segments(CommandKind::GetUndoState, u, t) == seq!["system"@, "undostate"@],
        command_segments(CommandKind::GenerateWaveform, u, t) == seq!["waveform"@, u, "generate"@],
{
}

/// The arguments each command carries after its address, by type: each
/// serialised value as a blob, and strings and booleans as they are.
pub proof fn lemma_command_argument_kinds()
    ensures
        command_arg_kinds(CommandKind::Ping) == Seq::<ArgKind>::empty(),
        command_arg_kinds(CommandKind::Version) == Seq::<ArgKind>::empty(),
        command_arg_kinds(CommandKind::Subscribe) == Seq::<ArgKind>::empty(),
        command_arg_kinds(CommandKind::SubscribeAndAssociate) == seq![ArgKind::Blob],
        command_arg_kinds(CommandKind::CreateAction) == Seq::<ArgKind>::empty(),
        command_arg_kinds(CommandKind::ActionList) == Seq::<ArgKind>::empty(),
        command_arg_kinds(CommandKind::ActionInfo) == Seq::<ArgKind>::empty(),
        command_arg_kinds(CommandKind::UpdateActionParams) == seq![ArgKind::Blob, ArgKind::Blob],
        command_arg_kinds(CommandKind::UpdateActionMetadata) == seq![ArgKind::Blob],
        command_arg_kinds(CommandKind::ReviveAction) == seq![ArgKind::Blob, ArgKind::Blob],
        command_arg_kinds(CommandKind::CreateActionWithUuid) == Seq::<ArgKind>::empty(),
        command_arg_kinds(CommandKind::CreateActionWithExtras) == seq![ArgKind::Blob],
        command_arg_kinds(CommandKind::DeleteAction) == Seq::<ArgKind>::empty(),
        command_arg_kinds(CommandKind::VerifyAction) == Seq::<ArgKind>::empty(),
        command_arg_kinds(CommandKind::LoadAction) == Seq::<ArgKind>::empty(),
        command_arg_kinds(CommandKind::ExecuteAction) == Seq::<ArgKind>::empty(),
        command_arg_kinds(CommandKind::ResetAction) == Seq::<ArgKind>::empty(),
        command_arg_kinds(CommandKind::PauseAction) == Seq::<ArgKind>::empty(),
        command_arg_kinds(CommandKind::ReorderAction) == seq![ArgKind::Blob],
        command_arg_kinds(CommandKind::GetMixerConf) == Seq::<ArgKind>::empty(),
        command_arg_kinds(CommandKind::SetMixerConf) == seq![ArgKind::Blob],
        command_arg_kinds(CommandKind::MakeSavefile) == seq![ArgKind::Str],
        command_arg_kinds(CommandKind::LoadSavefile) == seq![ArgKind::Str, ArgKind::Bool],
        command_arg_kinds(CommandKind::Undo) == Seq::<ArgKind>::empty(),
        command_arg_kinds(CommandKind::Redo) == Seq::<ArgKind>::empty(),
        command_arg_kinds(CommandKind::GetUndoState) == Seq::<ArgKind>::empty(),
        command_arg_kinds(CommandKind::GenerateWaveform) == seq![ArgKind::Blob],
{
}

/// The OSC address of each reply, segment by segment after the leading
/// slash, as the protocol writes it (`u` in place of the UUID).
pub proof fn lemma_reply_addresses(u: Seq<char>)
    ensures
        reply_segments(ReplyKind::Pong, u) == seq!["pong"@],
        reply_segments(ReplyKind::ServerVersion, u) == seq!["reply"@, "version"@],
        reply_segments(ReplyKind::Subscribed, u) == seq!["reply"@, "subscribe"@],
        reply_segments(ReplyKind::Associated, u) == seq!["reply"@, "subscribe"@, "associate"@],
        reply_segments(ReplyKind::DeserFailed, u) == seq!["error"@, "deserfail"@],
        reply_segments(ReplyKind::ActionCreated, u) == seq!["reply"@, "actions"@, "create"@],
        reply_segments(ReplyKind::ActionInfoRetrieved, u) == seq!["reply"@, "action"@, u],
        reply_segments(ReplyKind::ActionParamsUpdated, u) == seq!["reply"@, "action"@, u, "update"@],
        reply_segments(ReplyKind::ActionMetadataUpdated, u) == seq!["reply"@, "action"@, u, "updatemeta"@],
        reply_segments(ReplyKind::ActionDeleted, u) == seq!["reply"@, "action"@, u, "delete"@],
        reply_segments(ReplyKind::ActionLoaded, u) == seq!["reply"@, "action"@, u, "load"@],
        reply_segments(ReplyKind::ActionExecuted, u) == seq!["reply"@, "action"@, u, "execute"@],
        reply_segments(ReplyKind::ActionMaybePaused, u) == seq!["reply"@, "action"@, u, "pause"@],
        reply_segments(ReplyKind::ActionReset, u) == seq!["reply"@, "action"@, u, "reset"@],
        reply_segments(ReplyKind::ActionReordered, u) == seq!["reply"@, "action"@, u, "reorder"@],
        reply_segments(ReplyKind::MixerConfSet, u) == seq!["reply"@, "mixer"@, "config"@],
        reply_segments(ReplyKind::ReplyActionList, u) == seq!["reply"@, "actionlist"@],
        reply_segments(ReplyKind::UpdateOrder, u) == seq!["update"@, "order"@],
        reply_segments(ReplyKind::UpdateActionInfo, u) == seq!["update"@, "action"@, u],
        reply_segments(ReplyKind::UpdateActionDeleted, u) == seq!["update"@, "action"@, u, "delete"@],
        reply_segments(ReplyKind::UpdateMixerConf, u) == seq!["update"@, "mixer"@, "config"@],
        reply_segments(ReplyKind::SavefileMade, u) == seq!["reply"@, "system"@, "save"@],
        reply_segments(ReplyKind::SavefileLoaded, u) == seq!["reply"@, "system"@, "load"@],
        reply_segments(ReplyKind::ReplyUndoState, u) == seq!["reply"@, "system"@, "undostate"@],
        reply_segments(ReplyKind::WaveformGenerated, u) == seq!["reply"@, "waveform"@, u, "generated"@],
        reply_segments(ReplyKind::OversizedReply, u) == seq!["error"@, "oversized"@],
{
}

/// The arguments each reply carries after its address, by type: each
/// serialised value as a blob, and strings as they are.
pub proof fn lemma_reply_argument_kinds()
    ensures
        reply_arg_kinds(ReplyKind::Pong) == Seq::<ArgKind>::empty(),
        reply_arg_kinds(ReplyKind::ServerVersion) == seq![ArgKind::Str],
        reply_arg_kinds(ReplyKind::Subscribed) == Seq::<ArgKind>::empty(),
        reply_arg_kinds(ReplyKind::Associated) == seq![ArgKind::Blob],
        reply_arg_kinds(ReplyKind::DeserFailed) == seq![ArgKind::Str],
        reply_arg_kinds(ReplyKind::ActionCreated) == seq![ArgKind::Blob],
        reply_arg_kinds(ReplyKind::ActionInfoRetrieved) == seq![ArgKind::Blob],
        reply_arg_kinds(ReplyKind::ActionParamsUpdated) == seq![ArgKind::Blob],
        reply_arg_kinds(ReplyKind::ActionMetadataUpdated) == seq![ArgKind::Blob],
        reply_arg_kinds(ReplyKind::ActionDeleted) == seq![ArgKind::Blob],
        reply_arg_kinds(ReplyKind::ActionLoaded) == seq![ArgKind::Blob],
        reply_arg_kinds(ReplyKind::ActionExecuted) == seq![ArgKind::Blob],
        reply_arg_kinds(ReplyKind::ActionMaybePaused) == seq![ArgKind::Blob],
        reply_arg_kinds(ReplyKind::ActionReset) == seq![ArgKind::Blob],
        reply_arg_kinds(ReplyKind::ActionReordered) == seq![ArgKind::Blob],
        reply_arg_kinds(ReplyKind::MixerConfSet) == seq![ArgKind::Blob],
        reply_arg_kinds(ReplyKind::ReplyActionList) == seq![ArgKind::Blob, ArgKind::Blob],
        reply_arg_kinds(ReplyKind::UpdateOrder) == seq![ArgKind::Blob],
        reply_arg_kinds(ReplyKind::UpdateActionInfo) == seq![ArgKind::Blob],
        reply_arg_kinds(ReplyKind::UpdateActionDeleted) == Seq::<ArgKind>::empty(),
        reply_arg_kinds(ReplyKind::UpdateMixerConf) == seq![ArgKind::Blob],
        reply_arg_kinds(ReplyKind::SavefileMade) == seq![ArgKind::Blob],
        reply_arg_kinds(ReplyKind::SavefileLoaded) == seq![ArgKind::Blob],
        reply_arg_kinds(ReplyKind::ReplyUndoState) == seq![ArgKind::Blob],
        reply_arg_kinds(ReplyKind::WaveformGenerated) == seq![ArgKind::Blob],
        reply_arg_kinds(ReplyKind::OversizedReply) == Seq::<ArgKind>::empty(),
{
}

} // verus!
