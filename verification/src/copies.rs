//! Copies of the library's values that are equal to what they copy, for
//! where a value is kept and also handed out (the undo history, the mixer
//! configuration).
use vstd::prelude::*;
use crate::actions::{ActionMetadata, ActionParameters, AudioParams, FadeParams, OpaqueAction, ParameterError, PlaybackState};
use crate::codec::Command;
use crate::mixer::{Channel, MixerConf};
use crate::waveform::WaveformRequest;
use crate::records::params_match;

verus! {

/// `b` is a copy of the mixer configuration `a`: the same channels and
/// default channels.
pub open spec fn same_conf(a: MixerConf, b: MixerConf) -> bool {
    a.channels@ == b.channels@ && a.defs@ == b.defs@
}

/// `b` is a copy of the command `a`: the same command, with the same
/// arguments (lists compared by their contents).
pub open spec fn same_command(a: Command, b: Command) -> bool {
    match (a, b) {
        (
            Command::UpdateActionParams { uuid: u1, params: p1, desc: d1 },
            Command::UpdateActionParams { uuid: u2, params: p2, desc: d2 },
        ) => u1 == u2 && params_match(p1, p2) && d1 == d2,
        (
            Command::ReviveAction { uuid: u1, typ: t1, meta: m1, params: p1 },
            Command::ReviveAction { uuid: u2, typ: t2, meta: m2, params: p2 },
        ) => u1 == u2 && t1 == t2 && m1 == m2 && params_match(p1, p2),
        (
            Command::CreateActionWithExtras { typ: t1, uuid: u1, params: p1 },
            Command::CreateActionWithExtras { typ: t2, uuid: u2, params: p2 },
        ) => t1 == t2 && u1 == u2 && params_match(p1, p2),
        (Command::SetMixerConf { conf: c1 }, Command::SetMixerConf { conf: c2 }) => same_conf(c1, c2),
        _ => a == b,
    }
}

/// A copy of a list of plain values.
pub fn copy_vec<T: Copy>(v: &Vec<T>) -> (r: Vec<T>)
    ensures
        r@ == v@,
{
    let mut r: Vec<T> = Vec::new();
    let mut i: usize = 0;
    while i < v.len()
        invariant
            i <= v@.len(),
            r@ == v@.take(i as int),
        decreases v@.len() - i,
    {
        r.push(v[i]);
        i = i + 1;
        proof {
            assert(r@ =~= v@.take(i as int));
        }
    }
    proof {
        assert(v@.take(v@.len() as int) =~= v@);
    }
    r
}

/// A copy of an optional string.
pub fn copy_opt_string(o: &Option<String>) -> (r: Option<String>)
    ensures
        r == *o,
{
    match o {
        Some(s) => Some(s.clone()),
        None => None,
    }
}

/// A copy of an action's parameters.
pub fn copy_params(p: &ActionParameters) -> (r: ActionParameters)
    ensures
        params_match(*p, r),
{
    match p {
        ActionParameters::Audio(a) => {
            ActionParameters::Audio(AudioParams { url: copy_opt_string(&a.url), chans: copy_vec(&a.chans) })
        },
        ActionParameters::Fade(f) => {
            ActionParameters::Fade(
                FadeParams { target: f.target, fades: copy_vec(&f.fades), fade_master: f.fade_master, dur: f.dur },
            )
        },
    }
}

/// A copy of an action's metadata.
pub fn copy_meta(m: &ActionMetadata) -> (r: ActionMetadata)
    ensures
        r == *m,
{
    ActionMetadata { name: copy_opt_string(&m.name), prewait: m.prewait, number: copy_opt_string(&m.number) }
}

/// A copy of a mixer channel.
pub fn copy_channel(c: &Channel) -> (r: Channel)
    ensures
        r == *c,
{
    Channel { name: c.name.clone(), uuid: c.uuid, eid: c.eid, patch: copy_opt_string(&c.patch) }
}

/// A copy of a list of mixer channels.
pub fn copy_channels(v: &Vec<Channel>) -> (r: Vec<Channel>)
    ensures
        r@ == v@,
{
    let mut r: Vec<Channel> = Vec::new();
    let mut i: usize = 0;
    while i < v.len()
        invariant
            i <= v@.len(),
            r@ == v@.take(i as int),
        decreases v@.len() - i,
    {
        r.push(copy_channel(&v[i]));
        i = i + 1;
        proof {
            assert(r@ =~= v@.take(i as int));
        }
    }
    proof {
        assert(v@.take(v@.len() as int) =~= v@);
    }
    r
}

/// A copy of a mixer configuration.
pub fn copy_mixer_conf(c: &MixerConf) -> (r: MixerConf)
    ensures
        same_conf(*c, r),
{
    MixerConf { channels: copy_channels(&c.channels), defs: copy_vec(&c.defs) }
}

/// A copy of a waveform request.
pub fn copy_waveform_request(q: &WaveformRequest) -> (r: WaveformRequest)
    ensures
        r == *q,
{
    WaveformRequest {
        file: q.file.clone(),
        samples_per_pixel: q.samples_per_pixel,
        range_start: q.range_start,
        range_end: q.range_end,
    }
}

/// A copy of a command.
pub fn copy_command(c: &Command) -> (r: Command)
    ensures
        same_command(*c, r),
{
    match c {
        Command::Ping => Command::Ping,
        Command::Version => Command::Version,
        Command::Subscribe => Command::Subscribe,
        Command::SubscribeAndAssociate { addr } => Command::SubscribeAndAssociate { addr: *addr },
        Command::CreateAction { typ } => Command::CreateAction { typ: typ.clone() },
        Command::ActionList => Command::ActionList,
        Command::ActionInfo { uuid } => Command::ActionInfo { uuid: *uuid },
        Command::UpdateActionParams { uuid, params, desc } => Command::UpdateActionParams {
            uuid: *uuid,
            params: copy_params(params),
            desc: copy_opt_string(desc),
        },
        Command::UpdateActionMetadata { uuid, meta } => Command::UpdateActionMetadata {
            uuid: *uuid,
            meta: copy_meta(meta),
        },
        Command::ReviveAction { uuid, typ, meta, params } => Command::ReviveAction {
            uuid: *uuid,
            typ: typ.clone(),
            meta: copy_meta(meta),
            params: copy_params(params),
        },
        Command::CreateActionWithUuid { typ, uuid } => Command::CreateActionWithUuid {
            typ: typ.clone(),
            uuid: *uuid,
        },
        Command::CreateActionWithExtras { typ, uuid, params } => Command::CreateActionWithExtras {
            typ: typ.clone(),
            uuid: *uuid,
            params: copy_params(params),
        },
        Command::DeleteAction { uuid } => Command::DeleteAction { uuid: *uuid },
        Command::VerifyAction { uuid } => Command::VerifyAction { uuid: *uuid },
        Command::LoadAction { uuid } => Command::LoadAction { uuid: *uuid },
        Command::ExecuteAction { uuid } => Command::ExecuteAction { uuid: *uuid },
        Command::ResetAction { uuid } => Command::ResetAction { uuid: *uuid },
        Command::PauseAction { uuid } => Command::PauseAction { uuid: *uuid },
        Command::ReorderAction { uuid, new_pos } => Command::ReorderAction { uuid: *uuid, new_pos: *new_pos },
        Command::GetMixerConf => Command::GetMixerConf,
        Command::SetMixerConf { conf } => Command::SetMixerConf { conf: copy_mixer_conf(conf) },
        Command::MakeSavefile { save_to } => Command::MakeSavefile { save_to: save_to.clone() },
        Command::LoadSavefile { load_from, force } => Command::LoadSavefile {
            load_from: load_from.clone(),
            force: *force,
        },
        Command::Undo => Command::Undo,
        Command::Redo => Command::Redo,
        Command::GetUndoState => Command::GetUndoState,
        Command::GenerateWaveform { uuid, req } => Command::GenerateWaveform {
            uuid: *uuid,
            req: copy_waveform_request(req),
        },
    }
}

/// `b` is a copy of the playback state `a` (lists compared by contents).
pub open spec fn same_state(a: PlaybackState, b: PlaybackState) -> bool {
    match (a, b) {
        (PlaybackState::Unverified(x), PlaybackState::Unverified(y)) => x@ == y@,
        _ => a == b,
    }
}

/// `b` is a copy of the action `a`.
pub open spec fn same_action(a: OpaqueAction, b: OpaqueAction) -> bool {
    &&& same_state(a.state, b.state)
    &&& params_match(a.params, b.params)
    &&& a.desc == b.desc
    &&& a.meta == b.meta
    &&& a.uu == b.uu
}

/// A copy of a list of parameter problems.
pub fn copy_problems(v: &Vec<ParameterError>) -> (r: Vec<ParameterError>)
    ensures
        r@ == v@,
{
    let mut r: Vec<ParameterError> = Vec::new();
    let mut i: usize = 0;
    while i < v.len()
        invariant
            i <= v@.len(),
            r@ == v@.take(i as int),
        decreases v@.len() - i,
    {
        r.push(ParameterError { name: v[i].name.clone(), err: v[i].err.clone() });
        i = i + 1;
        proof {
            assert(r@ =~= v@.take(i as int));
        }
    }
    proof {
        assert(v@.take(v@.len() as int) =~= v@);
    }
    r
}

/// A copy of a playback state.
pub fn copy_state(s: &PlaybackState) -> (r: PlaybackState)
    ensures
        same_state(*s, r),
{
    match s {
        PlaybackState::Inactive => PlaybackState::Inactive,
        PlaybackState::Unverified(v) => PlaybackState::Unverified(copy_problems(v)),
        PlaybackState::Loaded => PlaybackState::Loaded,
        PlaybackState::Loading => PlaybackState::Loading,
        PlaybackState::Paused(d) => PlaybackState::Paused(*d),
        PlaybackState::Active(d) => PlaybackState::Active(*d),
        PlaybackState::Errored(e) => PlaybackState::Errored(e.clone()),
    }
}

/// A copy of an action.
pub fn copy_action(a: &OpaqueAction) -> (r: OpaqueAction)
    ensures
        same_action(*a, r),
{
    OpaqueAction {
        state: copy_state(&a.state),
        params: copy_params(&a.params),
        desc: a.desc.clone(),
        meta: copy_meta(&a.meta),
        uu: a.uu,
    }
}

} // verus!
