//! The commands that clients send to the server.
use vstd::prelude::*;
use crate::actions::{Uuid, ActionParameters, ActionMetadata};
use crate::mixer::MixerConf;
use crate::waveform::WaveformRequest;

verus! {

/// A network socket address, held as plain numbers.
#[derive(Clone, Copy, Debug, PartialEq, Eq, Structural)]
pub enum SocketAddress {
    /// An IPv4 address (its 32-bit value) and a port.
    V4 { ip: u32, port: u16 },
    /// An IPv6 address (its 128-bit value), a port, and the flow and scope ids.
    V6 { ip6: u128, port: u16, flowinfo: u32, scope_id: u32 },
}

/// A command sent by a client to the server.
#[derive(Clone, Debug, PartialEq)]
pub enum Command {
    Ping,
    Version,
    Subscribe,
    SubscribeAndAssociate { addr: SocketAddress },
    CreateAction { typ: String },
    ActionList,
    ActionInfo { uuid: Uuid },
    UpdateActionParams { uuid: Uuid, params: ActionParameters, desc: Option<String> },
    UpdateActionMetadata { uuid: Uuid, meta: ActionMetadata },
    ReviveAction { uuid: Uuid, typ: String, meta: ActionMetadata, params: ActionParameters },
    CreateActionWithUuid { typ: String, uuid: Uuid },
    CreateActionWithExtras { typ: String, uuid: Uuid, params: ActionParameters },
    DeleteAction { uuid: Uuid },
    VerifyAction { uuid: Uuid },
    LoadAction { uuid: Uuid },
    ExecuteAction { uuid: Uuid },
    ResetAction { uuid: Uuid },
    PauseAction { uuid: Uuid },
    ReorderAction { uuid: Uuid, new_pos: usize },
    GetMixerConf,
    SetMixerConf { conf: MixerConf },
    MakeSavefile { save_to: String },
    LoadSavefile { load_from: String, force: bool },
    Undo,
    Redo,
    GetUndoState,
    GenerateWaveform { uuid: Uuid, req: WaveformRequest },
}

} // verus!
