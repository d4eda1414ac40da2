//! The server's record of each action: creating one, setting its parameters,
//! describing it, and checking its parameters to bring its state up to date.
use vstd::prelude::*;
use crate::actions::{
    ActionMetadata, ActionParameters, AudioChannel, AudioParams, FadeLevel, FadeParams, OpaqueAction,
    ParameterError, PlaybackState, Uuid,
};
use crate::action_manager::ActionManager;
use crate::audio::{
    audio_desc, audio_problems, audio_verify_params, chans_for_file, fit_chans, parse_url, path_file_name,
    percent_decoded, url_outcome, url_parts,
};
use crate::duration::{Duration, DurationInfo};
use crate::errors::{BackendError, error_message};
use crate::fade::{fade_desc, fade_params_to_set, fade_problems, fade_verify_params, padded_fades, problem_texts, TargetLookup};
use crate::ids::{new_uuid_v4, uuid_hyphenated};
use crate::mixer::opt_text;
use crate::playback::{
    execute_fits, execute_step, execute_step_spec, load_allowed, needs_verification, state_after_execute,
    state_after_pause,
    state_after_load, state_after_verify, ExecuteStep,
};
use crate::savefile::{check_new_action, ActionKind};
use crate::copies::{copy_action, same_action};
use crate::mixer::Mixer;
use crate::undo::{prior_state_kind, prior_state_needed, PriorState, PriorStateKind};
use crate::codec::Command;
use crate::action_manager::first_position;

verus! {

/// The last component of the file that a URL names, when the URL can be
/// played (it parses, has the `file` scheme and names a file).
pub open spec fn url_file_name(s: Seq<char>) -> Option<Seq<char>> {
    match url_parts(s) {
        Ok((scheme, path)) => if scheme == "file"@ {
            path_file_name(percent_decoded(path))
        } else {
            None
        },
        Err(_) => None,
    }
}

/// Why a URL cannot be played, if it cannot: the message of the error that
/// reading it gives.
pub open spec fn url_problem(s: Seq<char>) -> Option<Seq<char>> {
    match url_parts(s) {
        Err(e) => Some("Error parsing URL: "@ + e),
        Ok((scheme, path)) => if scheme != "file"@ {
            Some("The URL scheme "@ + scheme + " is not yet supported; only file:// URLs currently work."@)
        } else if path_file_name(percent_decoded(path)) is None {
            Some("The URL provided contains no file name."@)
        } else {
            None
        },
    }
}

/// The description of an audio action that plays `url`.
pub open spec fn audio_text_of(url: Option<String>) -> Seq<char> {
    match url {
        Some(u) => match url_file_name(u@) {
            Some(n) => "Play audio at "@ + n,
            None => "Play audio [invalid]"@,
        },
        None => "Play audio [invalid]"@,
    }
}

/// The description of action `a`, among the actions `actions`: an audio
/// action names the file it plays; a fade names its target (by the user's
/// name for it, or else its description) when that is an audio action.
pub open spec fn desc_spec(a: OpaqueAction, actions: Map<Uuid, OpaqueAction>) -> Seq<char> {
    match a.params {
        ActionParameters::Audio(p) => audio_text_of(p.url),
        ActionParameters::Fade(p) => match p.target {
            Some(t) => if actions.contains_key(t) {
                match actions[t].params {
                    ActionParameters::Audio(tp) => "Fade "@ + match actions[t].meta.name {
                        Some(n) => n@,
                        None => audio_text_of(tp.url),
                    },
                    _ => "Fade [invalid]"@,
                }
            } else {
                "Fade [invalid]"@
            },
            None => "Fade [invalid]"@,
        },
    }
}

/// Reading a URL fails exactly when `url_problem` names a problem, with that
/// message; when it succeeds it gives the file name of `url_file_name`.
proof fn lemma_url_outcome(s: Seq<char>, r: Result<crate::audio::FileUrl, BackendError>)
    requires
        url_outcome(s, r),
    ensures
        r is Err <==> url_problem(s) is Some,
        r matches Err(e) ==> error_message(e) == url_problem(s)->0,
        r is Ok <==> url_file_name(s) is Some,
        r matches Ok(f) ==> f.file_name@ == url_file_name(s)->0,
{
}

/// The description of an audio action that plays `url`.
fn audio_text(url: &Option<String>) -> (s: String)
    ensures
        s@ == audio_text_of(*url),
{
    let parsed = match url {
        Some(u) => {
            let r = parse_url(u.as_str());
            proof {
                lemma_url_outcome(u@, r);
            }
            Some(r)
        },
        None => None,
    };
    audio_desc(&parsed)
}

/// Describes action `a` (see `desc_spec`).
pub fn describe(a: &OpaqueAction, actions: &ActionManager<OpaqueAction>) -> (s: String)
    ensures
        s@ == desc_spec(*a, actions.actions()),
{
    match &a.params {
        ActionParameters::Audio(p) => audio_text(&p.url),
        ActionParameters::Fade(p) => {
            let tgt = match p.target {
                Some(t) => match actions.get(&t) {
                    Some(ta) => match &ta.params {
                        ActionParameters::Audio(tp) => {
                            let name = match &ta.meta.name {
                                Some(n) => Some(n.clone()),
                                None => None,
                            };
                            Some((name, audio_text(&tp.url)))
                        },
                        _ => None,
                    },
                    None => None,
                },
                None => None,
            };
            fade_desc(tgt)
        },
    }
}

/// The parameters a new action of kind `kind` starts with: an audio action
/// with no file and no channels, or a fade with no target, no fades, and no
/// length.
pub open spec fn starts_with_defaults(kind: ActionKind, p: ActionParameters) -> bool {
    match kind {
        ActionKind::Audio => p matches ActionParameters::Audio(ap) && ap.url is None && ap.chans@.len() == 0,
        ActionKind::Fade => p matches ActionParameters::Fade(fp) && fp.target is None && fp.fades@.len() == 0
            && fp.fade_master == (FadeLevel { enabled: false, level: 0 }) && fp.dur@ == 0,
    }
}

/// A new action of kind `kind` with UUID `uu`: inactive, with the default
/// parameters of its kind, no metadata and no description yet.
pub fn new_action(kind: ActionKind, uu: Uuid) -> (a: OpaqueAction)
    ensures
        a.state is Inactive,
        starts_with_defaults(kind, a.params),
        a.meta.name is None && a.meta.prewait@ == 0 && a.meta.number is None,
        a.desc@.len() == 0,
        a.uu == uu,
{
    let params = match kind {
        ActionKind::Audio => ActionParameters::Audio(AudioParams { url: None, chans: Vec::new() }),
        ActionKind::Fade => ActionParameters::Fade(
            FadeParams {
                target: None,
                fades: Vec::new(),
                fade_master: FadeLevel { enabled: false, level: 0 },
                dur: Duration::zero(),
            },
        ),
    };
    OpaqueAction {
        state: PlaybackState::Inactive,
        params,
        desc: String::new(),
        meta: ActionMetadata::default(),
        uu,
    }
}

/// The kind of action that `p` holds parameters for.
pub open spec fn kind_of(p: ActionParameters) -> ActionKind {
    match p {
        ActionParameters::Audio(_) => ActionKind::Audio,
        ActionParameters::Fade(_) => ActionKind::Fade,
    }
}

/// `p` holds the same parameters as `d`.
pub open spec fn params_match(d: ActionParameters, p: ActionParameters) -> bool {
    match (d, p) {
        (ActionParameters::Audio(x), ActionParameters::Audio(y)) => x.url == y.url && x.chans@ == y.chans@,
        (ActionParameters::Fade(x), ActionParameters::Fade(y)) => x.target == y.target && x.fades@ == y.fades@
            && x.fade_master == y.fade_master && x.dur == y.dur,
        _ => false,
    }
}

/// `p` holds the parameters that a new action is given when created with
/// `d`: those of `d`, with an audio action's channels fitted to its file
/// when that was opened (`opened`; see `chans_for_file`).
pub open spec fn params_created(d: ActionParameters, opened: Option<(usize, Seq<Uuid>)>, p: ActionParameters) -> bool {
    match (d, p) {
        (ActionParameters::Audio(x), ActionParameters::Audio(y)) => x.url == y.url && y.chans@ == match opened {
            Some((n, defs)) => if x.url is Some {
                chans_for_file(x.chans@, n as nat, defs)
            } else {
                x.chans@
            },
            None => x.chans@,
        },
        _ => params_match(d, p),
    }
}

/// Whether two sets of parameters are of the same kind of action.
pub open spec fn same_kind(a: ActionParameters, b: ActionParameters) -> bool {
    (a is Audio && b is Audio) || (a is Fade && b is Fade)
}

/// The number of channels of the audio action that a fade with parameters
/// `old` targets, when that target is among `actions` and is an audio action.
pub open spec fn target_chans(old: ActionParameters, actions: Map<Uuid, OpaqueAction>) -> Option<usize> {
    match old {
        ActionParameters::Fade(p) => match p.target {
            Some(t) => if actions.contains_key(t) {
                match actions[t].params {
                    ActionParameters::Audio(tp) => Some(tp.chans.len()),
                    _ => None,
                }
            } else {
                None
            },
            None => None,
        },
        _ => None,
    }
}

/// The channels an audio action keeps when its parameters become `new`: when
/// the URL changed and the file it names was opened (`opened`: its channel
/// count and the mixer's default patches), they are fitted to the file.
pub open spec fn chans_to_set(
    old: ActionParameters,
    new: AudioParams,
    opened: Option<(usize, Seq<Uuid>)>,
) -> Seq<AudioChannel> {
    let old_url = match old {
        ActionParameters::Audio(p) => opt_text(p.url),
        _ => None,
    };
    match opened {
        Some((n, defs)) => if old_url != opt_text(new.url) {
            chans_for_file(new.chans@, n as nat, defs)
        } else {
            new.chans@
        },
        None => new.chans@,
    }
}

/// What the parameters of an action are after setting `data` on it (when it
/// is of the same kind): see `chans_to_set` and `padded_fades`.
pub open spec fn params_set(
    old: ActionParameters,
    data: ActionParameters,
    actions: Map<Uuid, OpaqueAction>,
    opened: Option<(usize, Seq<Uuid>)>,
    result: ActionParameters,
) -> bool {
    match (data, result) {
        (ActionParameters::Audio(d), ActionParameters::Audio(p)) => p.url == d.url && p.chans@ == chans_to_set(
            old,
            d,
            opened,
        ),
        (ActionParameters::Fade(d), ActionParameters::Fade(p)) => p.target == d.target && p.fade_master
            == d.fade_master && p.dur == d.dur && p.fades@ == padded_fades(d.fades@, target_chans(old, actions)),
        _ => false,
    }
}

fn same_text(a: &Option<String>, b: &Option<String>) -> (r: bool)
    ensures
        r == (opt_text(*a) == opt_text(*b)),
{
    match (a, b) {
        (Some(x), Some(y)) => *x == *y,
        (None, None) => true,
        _ => false,
    }
}

/// Sets the parameters of action `a`, which must be of its kind; `actions`
/// are the other actions, and `opened` is the file at the new URL of an audio
/// action, if it was opened (see `params_set`). Parameters of the wrong kind
/// are refused, and nothing changes.
pub fn set_params(
    a: &mut OpaqueAction,
    data: ActionParameters,
    actions: &ActionManager<OpaqueAction>,
    opened: Option<(usize, &Vec<Uuid>)>,
) -> (r: Result<(), BackendError>)
    ensures
        r is Ok <==> same_kind(old(a).params, data),
        r matches Err(e) ==> (e matches BackendError::Msg(m) && m@ == "wrong type of action parameters"@),
        r is Err ==> *final(a) == *old(a),
        r is Ok ==> params_set(
            old(a).params,
            data,
            actions.actions(),
            match opened {
                Some((n, defs)) => Some((n, defs@)),
                None => None,
            },
            final(a).params,
        ),
        final(a).state == old(a).state,
        final(a).desc == old(a).desc,
        final(a).meta == old(a).meta,
        final(a).uu == old(a).uu,
{
    let tchans = match &a.params {
        ActionParameters::Fade(p) => match p.target {
            Some(t) => match actions.get(&t) {
                Some(ta) => match &ta.params {
                    ActionParameters::Audio(tp) => Some(tp.chans.len()),
                    _ => None,
                },
                None => None,
            },
            None => None,
        },
        _ => None,
    };
    match data {
        ActionParameters::Audio(d) => {
            let url_changed = match &a.params {
                ActionParameters::Audio(p) => !same_text(&p.url, &d.url),
                _ => {
                    return Err(BackendError::msg("wrong type of action parameters"));
                },
            };
            let AudioParams { url, chans } = d;
            let chans = match opened {
                Some((n, defs)) => if url_changed {
                    fit_chans(chans, n, defs)
                } else {
                    chans
                },
                None => chans,
            };
            a.params = ActionParameters::Audio(AudioParams { url, chans });
            Ok(())
        },
        ActionParameters::Fade(d) => {
            if !matches!(a.params, ActionParameters::Fade(_)) {
                return Err(BackendError::msg("wrong type of action parameters"));
            }
            a.params = ActionParameters::Fade(fade_params_to_set(d, tchans));
            Ok(())
        },
    }
}

/// What looking up the target `target` of a fade among `actions` finds.
pub open spec fn lookup_spec(actions: Map<Uuid, OpaqueAction>, target: Option<Uuid>) -> TargetLookup {
    match target {
        Some(t) => if !actions.contains_key(t) {
            TargetLookup::Missing
        } else if actions[t].params is Audio {
            TargetLookup::Audio
        } else {
            TargetLookup::NotAudio
        },
        None => TargetLookup::Missing,
    }
}

/// The problems with an audio action's parameters, given what opening its
/// file gave (`file`: its channel count, or why it could not be opened; none
/// if it was not opened) and the channels there are (`known`).
pub open spec fn audio_problems_of(
    p: AudioParams,
    file: Option<Result<usize, String>>,
    known: Seq<Uuid>,
) -> Seq<(Seq<char>, Seq<char>)> {
    match p.url {
        Some(u) => match url_problem(u@) {
            Some(e) => seq![("url"@, "Invalid URL: "@ + e)],
            None => audio_problems(p, None, file, known),
        },
        None => audio_problems(p, None, file, known),
    }
}

/// The problems with the parameters of action `a` (see `audio_problems_of`
/// and `fade_problems`).
pub open spec fn problems_spec(
    a: OpaqueAction,
    actions: Map<Uuid, OpaqueAction>,
    file: Option<Result<usize, String>>,
    known: Seq<Uuid>,
) -> Seq<(Seq<char>, Seq<char>)> {
    match a.params {
        ActionParameters::Audio(p) => audio_problems_of(p, file, known),
        ActionParameters::Fade(p) => fade_problems(p, lookup_spec(actions, p.target)),
    }
}

/// Checks the parameters of action `a` (see `problems_spec`).
pub fn action_problems(
    a: &OpaqueAction,
    actions: &ActionManager<OpaqueAction>,
    file: &Option<Result<usize, String>>,
    known: &Vec<Uuid>,
) -> (r: Vec<ParameterError>)
    ensures
        problem_texts(r@) == problems_spec(*a, actions.actions(), *file, known@),
{
    match &a.params {
        ActionParameters::Audio(p) => {
            let parsed = match &p.url {
                Some(u) => {
                    let r = parse_url(u.as_str());
                    proof {
                        lemma_url_outcome(u@, r);
                    }
                    Some(r)
                },
                None => None,
            };
            audio_verify_params(p, &parsed, file, known)
        },
        ActionParameters::Fade(p) => {
            let lookup = match p.target {
                Some(t) => match actions.get(&t) {
                    Some(ta) => if matches!(ta.params, ActionParameters::Audio(_)) {
                        TargetLookup::Audio
                    } else {
                        TargetLookup::NotAudio
                    },
                    None => TargetLookup::Missing,
                },
                None => TargetLookup::Missing,
            };
            fade_verify_params(p, lookup)
        },
    }
}

/// Brings action `a` up to date before it is shown: an inactive or
/// unverified action has its parameters checked (see `problems_spec`) and
/// becomes inactive if nothing is wrong, unverified with the problems
/// otherwise; a running action takes its current progress (`progress`); its
/// description is made afresh (see `desc_spec`).
pub fn refresh(
    a: &mut OpaqueAction,
    actions: &ActionManager<OpaqueAction>,
    file: &Option<Result<usize, String>>,
    known: &Vec<Uuid>,
    progress: Option<DurationInfo>,
)
    ensures
        final(a).params == old(a).params,
        final(a).meta == old(a).meta,
        final(a).uu == old(a).uu,
        final(a).desc@ == desc_spec(*old(a), actions.actions()),
        (old(a).state is Inactive || old(a).state is Unverified) ==> {
            let probs = problems_spec(*old(a), actions.actions(), *file, known@);
            &&& probs.len() == 0 ==> final(a).state is Inactive
            &&& probs.len() != 0 ==> (final(a).state matches PlaybackState::Unverified(v) && problem_texts(v@)
                == probs)
        },
        old(a).state is Active ==> final(a).state == PlaybackState::Active(progress),
        !(old(a).state is Inactive || old(a).state is Unverified || old(a).state is Active) ==> final(a).state
            == old(a).state,
{
    if needs_verification(&a.state) {
        let probs = action_problems(a, actions, file, known);
        a.state = state_after_verify(probs);
    } else if matches!(a.state, PlaybackState::Active(_)) {
        a.state = PlaybackState::Active(progress);
    }
    a.desc = describe(a, actions);
}

/// Creates an action of type `typ` (see `check_new_action`) under UUID
/// `old_uu`, or a fresh random one, which must not be in use; with metadata
/// `met` and parameters `pars` when given (parameters of the wrong kind are
/// ignored; `opened` is the file at an audio action's URL, if it was opened),
/// and its description. The new action goes at the end of the order and is
/// marked changed. Returns its UUID.
pub fn create_action(
    actions: &mut ActionManager<OpaqueAction>,
    typ: &str,
    pars: Option<ActionParameters>,
    met: Option<ActionMetadata>,
    old_uu: Option<Uuid>,
    opened: Option<(usize, &Vec<Uuid>)>,
) -> (r: Result<Uuid, BackendError>)
    ensures
        typ@ != "audio"@ && typ@ != "fade"@ ==> (r matches Err(BackendError::Msg(m)) && m@ == "Unknown action type: "@
            + typ@),
        old_uu is Some && (typ@ == "audio"@ || typ@ == "fade"@) ==> {
            let o = old_uu->0;
            let taken = old(actions).actions().contains_key(o) || old(actions).order_seq().contains(o);
            &&& r is Ok <==> !taken
            &&& r matches Ok(u) ==> u == o
            &&& r matches Err(e) ==> (e matches BackendError::Msg(m) && m@ == "UUID "@ + uuid_hyphenated(o)
                + " already exists!"@)
        },
        old_uu is None && (typ@ == "audio"@ || typ@ == "fade"@) ==> (r matches Err(e) ==> exists|u: Uuid|
            {
                &&& #[trigger] old(actions).actions().contains_key(u) || old(actions).order_seq().contains(u)
                &&& e matches BackendError::Msg(m) && m@ == "UUID "@ + uuid_hyphenated(u) + " already exists!"@
            }),
        r is Err ==> {
            &&& final(actions).actions() == old(actions).actions()
            &&& final(actions).order_seq() == old(actions).order_seq()
            &&& final(actions).changed() == old(actions).changed()
            &&& final(actions).order_changed() == old(actions).order_changed()
        },
        r matches Ok(u) ==> {
            let a = final(actions).actions()[u];
            let kind = if typ@ == "audio"@ { ActionKind::Audio } else { ActionKind::Fade };
            &&& !old(actions).actions().contains_key(u)
            &&& !old(actions).order_seq().contains(u)
            &&& final(actions).actions() == old(actions).actions().insert(u, a)
            &&& final(actions).order_seq() == old(actions).order_seq().push(u)
            &&& final(actions).changed() == old(actions).changed().insert(u)
            &&& final(actions).order_changed()
            &&& a.uu == u
            &&& a.state is Inactive
            &&& match met {
                Some(m) => a.meta == m,
                None => a.meta.name is None && a.meta.prewait@ == 0 && a.meta.number is None,
            }
            &&& match pars {
                Some(d) => if kind_of(d) == kind {
                    params_created(
                        d,
                        match opened {
                            Some((n, defs)) => Some((n, defs@)),
                            None => None,
                        },
                        a.params,
                    )
                } else {
                    starts_with_defaults(kind, a.params)
                },
                None => starts_with_defaults(kind, a.params),
            }
            &&& a.desc@ == desc_spec(a, old(actions).actions())
        },
        final(actions).interested() == old(actions).interested(),
{
    let uu = match old_uu {
        Some(u) => u,
        None => new_uuid_v4(),
    };
    let taken = actions.get(&uu).is_some() || actions.position_of(uu).is_some();
    let kind = match check_new_action(typ, Some(uu), taken) {
        Ok(k) => k,
        Err(e) => {
            return Err(e);
        },
    };
    proof {
        reveal_strlit("audio");
        reveal_strlit("fade");
    }
    let mut act = new_action(kind, uu);
    if let Some(m) = met {
        act.meta = m;
    }
    if let Some(d) = pars {
        let _ = set_params(&mut act, d, actions, opened);
    }
    act.desc = describe(&act, actions);
    actions.mark_changed(uu);
    actions.insert(uu, act);
    Ok(uu)
}

/// Sets the parameters of the action with this UUID (see `set_params`; the
/// other actions are those it is looked up among), marking it changed.
/// Fails with "No action found" if there is no such action.
pub fn update_params(
    actions: &mut ActionManager<OpaqueAction>,
    uuid: Uuid,
    params: ActionParameters,
    opened: Option<(usize, &Vec<Uuid>)>,
) -> (r: Result<(), String>)
    ensures
        final(actions).changed() == old(actions).changed().insert(uuid),
        final(actions).order_seq() == old(actions).order_seq(),
        final(actions).order_changed() == old(actions).order_changed(),
        final(actions).interested() == old(actions).interested(),
        !old(actions).actions().contains_key(uuid) ==> (r matches Err(m) && m@ == "No action found"@)
            && final(actions).actions() == old(actions).actions(),
        old(actions).actions().contains_key(uuid) ==> {
            let a0 = old(actions).actions()[uuid];
            let a1 = final(actions).actions()[uuid];
            &&& final(actions).actions() == old(actions).actions().insert(uuid, a1)
            &&& r is Ok <==> same_kind(a0.params, params)
            &&& r matches Err(m) ==> m@ == "wrong type of action parameters"@ && a1 == a0
            &&& r is Ok ==> params_set(
                a0.params,
                params,
                old(actions).actions().remove(uuid),
                match opened {
                    Some((n, defs)) => Some((n, defs@)),
                    None => None,
                },
                a1.params,
            )
            &&& a1.state == a0.state && a1.meta == a0.meta && a1.uu == a0.uu && a1.desc == a0.desc
        },
{
    match actions.remove_for_editing(uuid, true) {
        Some(mut a) => {
            let res = set_params(&mut a, params, actions, opened);
            actions.insert_after_editing(uuid, a);
            match res {
                Ok(()) => Ok(()),
                Err(e) => Err(e.message()),
            }
        },
        None => Err(String::from_str("No action found")),
    }
}

/// Sets the metadata of the action with this UUID, marking it changed.
/// Fails with "No action found" if there is no such action.
pub fn update_metadata(
    actions: &mut ActionManager<OpaqueAction>,
    uuid: Uuid,
    meta: ActionMetadata,
) -> (r: Result<(), String>)
    ensures
        final(actions).changed() == old(actions).changed().insert(uuid),
        final(actions).order_seq() == old(actions).order_seq(),
        final(actions).order_changed() == old(actions).order_changed(),
        final(actions).interested() == old(actions).interested(),
        !old(actions).actions().contains_key(uuid) ==> (r matches Err(m) && m@ == "No action found"@)
            && final(actions).actions() == old(actions).actions(),
        old(actions).actions().contains_key(uuid) ==> {
            let a0 = old(actions).actions()[uuid];
            &&& r is Ok
            &&& final(actions).actions() == old(actions).actions().insert(
                uuid,
                OpaqueAction { meta, ..a0 },
            )
        },
{
    match actions.remove_for_editing(uuid, true) {
        Some(mut a) => {
            a.meta = meta;
            actions.insert_after_editing(uuid, a);
            Ok(())
        },
        None => Err(String::from_str("No action found")),
    }
}

/// Brings the action with this UUID up to date (see `refresh`; the other
/// actions are those it is looked up among), so that its data can be sent,
/// marking it changed if asked to. Fails with "No action found" if there is
/// no such action.
pub fn action_info(
    actions: &mut ActionManager<OpaqueAction>,
    uuid: Uuid,
    mark_changed: bool,
    file: &Option<Result<usize, String>>,
    known: &Vec<Uuid>,
    progress: Option<DurationInfo>,
) -> (r: Result<(), String>)
    ensures
        final(actions).changed() == if mark_changed {
            old(actions).changed().insert(uuid)
        } else {
            old(actions).changed()
        },
        final(actions).order_seq() == old(actions).order_seq(),
        final(actions).order_changed() == old(actions).order_changed(),
        final(actions).interested() == old(actions).interested(),
        !old(actions).actions().contains_key(uuid) ==> (r matches Err(m) && m@ == "No action found"@)
            && final(actions).actions() == old(actions).actions(),
        old(actions).actions().contains_key(uuid) ==> {
            let a0 = old(actions).actions()[uuid];
            let a1 = final(actions).actions()[uuid];
            let others = old(actions).actions().remove(uuid);
            &&& r is Ok
            &&& final(actions).actions() == old(actions).actions().insert(uuid, a1)
            &&& a1.params == a0.params && a1.meta == a0.meta && a1.uu == a0.uu
            &&& a1.desc@ == desc_spec(a0, others)
            &&& (a0.state is Inactive || a0.state is Unverified) ==> {
                let probs = problems_spec(a0, others, *file, known@);
                &&& probs.len() == 0 ==> a1.state is Inactive
                &&& probs.len() != 0 ==> (a1.state matches PlaybackState::Unverified(v) && problem_texts(v@)
                    == probs)
            }
            &&& a0.state is Active ==> a1.state == PlaybackState::Active(progress)
            &&& !(a0.state is Inactive || a0.state is Unverified || a0.state is Active) ==> a1.state == a0.state
        },
{
    match actions.remove_for_editing(uuid, mark_changed) {
        Some(mut a) => {
            refresh(&mut a, actions, file, known, progress);
            actions.insert_after_editing(uuid, a);
            Ok(())
        },
        None => Err(String::from_str("No action found")),
    }
}

/// What an action's controller gives when asked to load the action: a fade
/// has nothing to load and is loaded at once; an audio action takes the file
/// it opened (`file`: its channel count, or why it could not be opened), and
/// fails when there is none or opening it failed.
pub fn controller_load(a: &OpaqueAction, file: &Option<Result<usize, String>>) -> (r: Result<bool, String>)
    ensures
        a.params is Fade ==> r == Ok::<bool, String>(true),
        a.params is Audio ==> match *file {
            None => r matches Err(m) && m@ == "File mysteriously disappeared"@,
            Some(Err(e)) => r matches Err(m) && m@ == e@,
            Some(Ok(_)) => r == Ok::<bool, String>(true),
        },
{
    match &a.params {
        ActionParameters::Fade(_) => Ok(true),
        ActionParameters::Audio(_) => match file {
            None => Err(String::from_str("File mysteriously disappeared")),
            Some(Err(e)) => Err(e.clone()),
            Some(Ok(_)) => Ok(true),
        },
    }
}

/// Why an action could not be loaded.
#[derive(Debug, PartialEq)]
pub enum LoadRefusal {
    /// There is no action with that UUID.
    NoAction,
    /// The action is not inactive (after its parameters were checked); its
    /// state is as it was.
    WrongState,
}

/// Loads the action with this UUID, marking it changed: its parameters are
/// checked first (see `refresh`; `progress` is a running action's progress);
/// an inactive action then takes the state
/// its controller's load gives (`ctl`: whether loading finished at once, or
/// why it failed; see `state_after_load`); any other is refused as it is.
pub fn load_action(
    actions: &mut ActionManager<OpaqueAction>,
    uuid: Uuid,
    file: &Option<Result<usize, String>>,
    known: &Vec<Uuid>,
    progress: Option<DurationInfo>,
    ctl: Result<bool, String>,
) -> (r: Result<(), LoadRefusal>)
    ensures
        final(actions).changed() == old(actions).changed().insert(uuid),
        final(actions).order_seq() == old(actions).order_seq(),
        final(actions).order_changed() == old(actions).order_changed(),
        final(actions).interested() == old(actions).interested(),
        !old(actions).actions().contains_key(uuid) ==> r == Err::<(), LoadRefusal>(LoadRefusal::NoAction)
            && final(actions).actions() == old(actions).actions(),
        old(actions).actions().contains_key(uuid) ==> {
            let a0 = old(actions).actions()[uuid];
            let a1 = final(actions).actions()[uuid];
            let others = old(actions).actions().remove(uuid);
            let probs = problems_spec(a0, others, *file, known@);
            &&& final(actions).actions() == old(actions).actions().insert(uuid, a1)
            &&& a1.params == a0.params && a1.meta == a0.meta && a1.uu == a0.uu
            &&& a1.desc@ == desc_spec(a0, others)
            &&& (r is Ok <==> (a0.state is Inactive || a0.state is Unverified) && probs.len() == 0)
            &&& r is Ok ==> match ctl {
                Ok(true) => a1.state is Loaded,
                Ok(false) => a1.state is Loading,
                Err(e) => a1.state == PlaybackState::Errored(e),
            }
            &&& r is Err ==> r == Err::<(), LoadRefusal>(LoadRefusal::WrongState)
            &&& (r is Err && (a0.state is Inactive || a0.state is Unverified)) ==> (a1.state matches
                PlaybackState::Unverified(v) && problem_texts(v@) == probs)
            &&& (r is Err && !(a0.state is Inactive || a0.state is Unverified || a0.state is Active))
                ==> a1.state == a0.state
            &&& (r is Err && a0.state is Active) ==> a1.state == PlaybackState::Active(progress)
        },
{
    match actions.remove_for_editing(uuid, true) {
        Some(mut a) => {
            refresh(&mut a, actions, file, known, progress);
            let r = if load_allowed(&a.state) {
                a.state = state_after_load(ctl);
                Ok(())
            } else {
                Err(LoadRefusal::WrongState)
            };
            actions.insert_after_editing(uuid, a);
            r
        },
        None => Err(LoadRefusal::NoAction),
    }
}

/// Resets the action with this UUID, marking it changed: it becomes
/// inactive (what its controller holds in the engine is let go of there).
/// Fails with "No action found" if there is no such action.
pub fn reset_action(actions: &mut ActionManager<OpaqueAction>, uuid: Uuid) -> (r: Result<(), String>)
    ensures
        final(actions).changed() == old(actions).changed().insert(uuid),
        final(actions).order_seq() == old(actions).order_seq(),
        final(actions).order_changed() == old(actions).order_changed(),
        final(actions).interested() == old(actions).interested(),
        !old(actions).actions().contains_key(uuid) ==> (r matches Err(m) && m@ == "No action found"@)
            && final(actions).actions() == old(actions).actions(),
        old(actions).actions().contains_key(uuid) ==> {
            let a0 = old(actions).actions()[uuid];
            let a1 = final(actions).actions()[uuid];
            &&& r is Ok
            &&& final(actions).actions() == old(actions).actions().insert(uuid, a1)
            &&& a1.state is Inactive
            &&& a1.params == a0.params && a1.meta == a0.meta && a1.uu == a0.uu && a1.desc == a0.desc
        },
{
    match actions.remove_for_editing(uuid, true) {
        Some(mut a) => {
            a.state = PlaybackState::Inactive;
            actions.insert_after_editing(uuid, a);
            Ok(())
        },
        None => Err(String::from_str("No action found")),
    }
}

/// Looks up what `cmd_as_undoable` needs for `cmd` (see `prior_state_kind`):
/// a copy of the action it changes (none if there is no such action), the
/// mixer configuration, or the position of the action it moves.
pub fn prior_state(actions: &ActionManager<OpaqueAction>, mixer: &Mixer, cmd: &Command) -> (r: PriorState)
    ensures
        match prior_state_kind(*cmd) {
            PriorStateKind::Nothing => r is Nothing,
            PriorStateKind::Action(uu) => r matches PriorState::Action(o) && (o is Some
                <==> actions.actions().contains_key(uu)) && (o matches Some(a) ==> same_action(
                actions.actions()[uu],
                a,
            )),
            PriorStateKind::Mixer => r matches PriorState::Mixer(c) && c.channels@ == mixer.channels() && c.defs@
                == mixer.defs(),
            PriorStateKind::Position(uu) => r matches PriorState::Position(p) && match first_position(
                actions.order_seq(),
                uu,
            ) {
                Some(i) => p == Some(i as usize),
                None => p is None,
            },
        },
{
    match prior_state_needed(cmd) {
        PriorStateKind::Nothing => PriorState::Nothing,
        PriorStateKind::Action(uu) => match actions.get(&uu) {
            Some(a) => PriorState::Action(Some(copy_action(a))),
            None => PriorState::Action(None),
        },
        PriorStateKind::Mixer => PriorState::Mixer(mixer.obtain_config()),
        PriorStateKind::Position(uu) => PriorState::Position(actions.position_of(uu)),
    }
}

/// The state that loading gives, from what the controller's load gave.
pub open spec fn loaded_state(ctl: Result<bool, String>) -> PlaybackState {
    match ctl {
        Ok(true) => PlaybackState::Loaded,
        Ok(false) => PlaybackState::Loading,
        Err(e) => PlaybackState::Errored(e),
    }
}

/// The state that running gives, from what the controller's execute gave.
pub open spec fn executed_state(ctl: Result<bool, String>) -> PlaybackState {
    match ctl {
        Ok(true) => PlaybackState::Inactive,
        Ok(false) => PlaybackState::Active(None),
        Err(e) => PlaybackState::Errored(e),
    }
}

/// Why an action could not be executed.
#[derive(Debug, PartialEq)]
pub enum ExecuteRefusal {
    /// There is no action with that UUID.
    NoAction,
    /// It was inactive, and loading it was refused (its parameters have
    /// problems).
    WrongStateForLoading,
    /// It is in a state from which it cannot be executed (unverified or
    /// errored, perhaps after loading it failed).
    WrongStateForExecuting,
}

/// What executing an action in state `s0` does to its state and what it
/// answers (see `execute_action`): an inactive action is loaded first (its
/// parameters having problems `probs`), then looked at again.
pub open spec fn execute_outcome(
    s0: PlaybackState,
    probs: Seq<(Seq<char>, Seq<char>)>,
    time: u64,
    prewait: nat,
    ctl_load: Result<bool, String>,
    ctl_execute: Result<bool, String>,
    s1: PlaybackState,
    r: Result<ExecuteStep, ExecuteRefusal>,
) -> bool {
    if s0 is Inactive {
        if probs.len() != 0 {
            &&& r == Err::<ExecuteStep, ExecuteRefusal>(ExecuteRefusal::WrongStateForLoading)
            &&& s1 matches PlaybackState::Unverified(v) && problem_texts(v@) == probs
        } else {
            match loaded_state(ctl_load) {
                PlaybackState::Loaded => r == Ok::<ExecuteStep, ExecuteRefusal>(
                    ExecuteStep::Run((time + prewait) as u64),
                ) && s1 == executed_state(ctl_execute),
                PlaybackState::Loading => r == Ok::<ExecuteStep, ExecuteRefusal>(ExecuteStep::StartWhenLoaded)
                    && s1 is Loading,
                _ => r == Err::<ExecuteStep, ExecuteRefusal>(ExecuteRefusal::WrongStateForExecuting) && s1
                    == loaded_state(ctl_load),
            }
        }
    } else {
        match execute_step_spec(s0, time, prewait) {
            ExecuteStep::Run(t) => r == Ok::<ExecuteStep, ExecuteRefusal>(ExecuteStep::Run(t)) && s1
                == executed_state(ctl_execute),
            ExecuteStep::Refuse => r == Err::<ExecuteStep, ExecuteRefusal>(ExecuteRefusal::WrongStateForExecuting)
                && s1 == s0,
            step => r == Ok::<ExecuteStep, ExecuteRefusal>(step) && s1 == s0,
        }
    }
}

/// Executes the action with this UUID at `time` (monotonic clock, ns),
/// marking it changed: an inactive one is loaded first (see `load_action`:
/// its parameters are checked, and `ctl_load` is what its controller's load
/// gives); a loaded one, or one paused, then runs (see `execute_step`), taking
/// the state its controller's execute gives (`ctl_execute`: whether it
/// finished at once, or why it failed), and asks to be polled while it runs;
/// one still loading is to start once loaded; a running one is left as it
/// is; any other is refused.
pub fn execute_action(
    actions: &mut ActionManager<OpaqueAction>,
    uuid: Uuid,
    time: u64,
    file: &Option<Result<usize, String>>,
    known: &Vec<Uuid>,
    ctl_load: Result<bool, String>,
    ctl_execute: Result<bool, String>,
) -> (r: Result<ExecuteStep, ExecuteRefusal>)
    requires
        old(actions).actions().contains_key(uuid) ==> {
            let a = old(actions).actions()[uuid];
            &&& execute_fits(a.state, time, a.meta.prewait@)
            &&& a.state is Inactive ==> time + a.meta.prewait@ <= u64::MAX
        },
    ensures
        final(actions).changed() == old(actions).changed().insert(uuid),
        final(actions).order_seq() == old(actions).order_seq(),
        final(actions).order_changed() == old(actions).order_changed(),
        !old(actions).actions().contains_key(uuid) ==> r == Err::<ExecuteStep, ExecuteRefusal>(ExecuteRefusal::NoAction)
            && final(actions).actions() == old(actions).actions() && final(actions).interested() == old(actions).interested(),
        old(actions).actions().contains_key(uuid) ==> {
            let a0 = old(actions).actions()[uuid];
            let a1 = final(actions).actions()[uuid];
            let others = old(actions).actions().remove(uuid);
            &&& final(actions).actions() == old(actions).actions().insert(uuid, a1)
            &&& a1.params == a0.params && a1.meta == a0.meta && a1.uu == a0.uu
            &&& a0.state is Inactive ==> a1.desc@ == desc_spec(a0, others)
            &&& !(a0.state is Inactive) ==> a1.desc == a0.desc
            &&& execute_outcome(
                a0.state,
                problems_spec(a0, others, *file, known@),
                time,
                a0.meta.prewait@,
                ctl_load,
                ctl_execute,
                a1.state,
                r,
            )
            &&& final(actions).interested() == if r matches Ok(ExecuteStep::Run(_)) && ctl_execute == Ok::<
                bool,
                String,
            >(false) {
                old(actions).interested().insert(uuid)
            } else {
                old(actions).interested()
            }
        },
{
    let mut a = match actions.remove_for_editing(uuid, true) {
        Some(a) => a,
        None => return Err(ExecuteRefusal::NoAction),
    };
    let mut step = execute_step(&a.state, time, &a.meta.prewait);
    if let ExecuteStep::LoadFirst = step {
        refresh(&mut a, actions, file, known, None);
        if !load_allowed(&a.state) {
            actions.insert_after_editing(uuid, a);
            return Err(ExecuteRefusal::WrongStateForLoading);
        }
        a.state = state_after_load(ctl_load);
        step = execute_step(&a.state, time, &a.meta.prewait);
    }
    let r = match step {
        ExecuteStep::Run(t) => {
            let finished_or_failed = match &ctl_execute {
                Ok(false) => false,
                _ => true,
            };
            a.state = state_after_execute(ctl_execute);
            if !finished_or_failed {
                actions.register_interest(uuid);
            }
            Ok(ExecuteStep::Run(t))
        },
        ExecuteStep::Refuse => Err(ExecuteRefusal::WrongStateForExecuting),
        other => Ok(other),
    };
    actions.insert_after_editing(uuid, a);
    r
}

/// Whether executing the action with this UUID at `time` stays within the
/// clock's range (what `execute_action` asks of its caller): its pre-wait,
/// or how far along it was paused, can be added to or taken from `time`.
pub fn can_execute_at(actions: &ActionManager<OpaqueAction>, uuid: Uuid, time: u64) -> (b: bool)
    ensures
        b == (actions.actions().contains_key(uuid) ==> {
            let a = actions.actions()[uuid];
            &&& execute_fits(a.state, time, a.meta.prewait@)
            &&& a.state is Inactive ==> time + a.meta.prewait@ <= u64::MAX
        }),
{
    match actions.get(&uuid) {
        None => true,
        Some(a) => {
            let p = a.meta.prewait.nanos_fit(time);
            match &a.state {
                PlaybackState::Loaded | PlaybackState::Paused(None) | PlaybackState::Inactive => p,
                PlaybackState::Paused(Some(d)) => if d.pos {
                    d.elapsed.at_most(time)
                } else {
                    d.elapsed.nanos_fit(time)
                },
                _ => true,
            }
        },
    }
}

/// What a fade's controller finds before it fades anything when executed:
/// its target must be an action, an audio action, and one that is loaded or
/// running (`target_running`).
pub fn fade_target_check(
    target: Uuid,
    actions: &ActionManager<OpaqueAction>,
    target_running: bool,
) -> (r: Result<(), String>)
    ensures
        !actions.actions().contains_key(target) ==> (r matches Err(m) && m@ == "Failed to get action"@),
        actions.actions().contains_key(target) && !(actions.actions()[target].params is Audio) ==> (r matches Err(m)
            && m@ == "Action was wrong type"@),
        actions.actions().contains_key(target) && actions.actions()[target].params is Audio ==> if target_running {
            r is Ok
        } else {
            r matches Err(m) && m@ == "Target isn't running or loaded"@
        },
{
    match actions.get(&target) {
        None => Err(String::from_str("Failed to get action")),
        Some(t) => match &t.params {
            ActionParameters::Audio(_) => if target_running {
                Ok(())
            } else {
                Err(String::from_str("Target isn't running or loaded"))
            },
            _ => Err(String::from_str("Action was wrong type")),
        },
    }
}

/// Asks the action with this UUID to pause, marking it changed: if its
/// controller paused it (`paused`), it becomes paused, keeping how far along
/// it was (`progress`) if it was running; otherwise it stays as it was.
/// Fails with "No action found" if there is no such action.
pub fn pause_action(
    actions: &mut ActionManager<OpaqueAction>,
    uuid: Uuid,
    paused: bool,
    progress: Option<DurationInfo>,
) -> (r: Result<(), String>)
    ensures
        final(actions).changed() == old(actions).changed().insert(uuid),
        final(actions).order_seq() == old(actions).order_seq(),
        final(actions).order_changed() == old(actions).order_changed(),
        final(actions).interested() == old(actions).interested(),
        !old(actions).actions().contains_key(uuid) ==> (r matches Err(m) && m@ == "No action found"@)
            && final(actions).actions() == old(actions).actions(),
        old(actions).actions().contains_key(uuid) ==> {
            let a0 = old(actions).actions()[uuid];
            let a1 = final(actions).actions()[uuid];
            &&& r is Ok
            &&& final(actions).actions() == old(actions).actions().insert(uuid, a1)
            &&& a1.params == a0.params && a1.meta == a0.meta && a1.uu == a0.uu && a1.desc == a0.desc
            &&& paused ==> a1.state == PlaybackState::Paused(if a0.state is Active { progress } else { None })
            &&& !paused ==> a1.state == a0.state
        },
{
    match actions.remove_for_editing(uuid, true) {
        Some(mut a) => {
            let mut cur = PlaybackState::Inactive;
            std::mem::swap(&mut cur, &mut a.state);
            a.state = state_after_pause(cur, paused, progress);
            actions.insert_after_editing(uuid, a);
            Ok(())
        },
        None => Err(String::from_str("No action found")),
    }
}

} // verus!
