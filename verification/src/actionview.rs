//! The client's view of the server's actions: the actions it knows of and
//! their order, kept up to date from the server's replies; the rows of the
//! action list; and the commands that the user's gestures send.
use vstd::prelude::*;
use std::collections::HashMap;
use vstd::std_specs::iter::IteratorSpec;
use crate::actions::{
    ActionMetadata, ActionParameters, AudioChannel, AudioParams, OpaqueAction, PlaybackState, Uuid,
    action_type_name,
};
use crate::codec::Command;
use crate::waveform::WaveformRequest;
use crate::action_manager::{first_position, is_first_position, lemma_first_position};
use crate::duration::{Duration, DurationInfo, duration_text, format_duration, rounded_nanos, rounding_overflows};
use crate::actions::ParameterError;
use crate::text::{decimal, push_decimal};

verus! {

broadcast use vstd::std_specs::hash::group_hash_axioms;

/// The name of the icon for an action's playback state.
pub open spec fn state_icon_spec(s: PlaybackState) -> Seq<char> {
    match s {
        PlaybackState::Inactive => ""@,
        PlaybackState::Unverified(_) => "gtk-dialog-warning"@,
        PlaybackState::Loaded => "gtk-home"@,
        PlaybackState::Loading => "gtk-refresh"@,
        PlaybackState::Paused(_) => "gtk-media-pause"@,
        PlaybackState::Active(_) => "gtk-media-play"@,
        PlaybackState::Errored(_) => "gtk-dialog-error"@,
    }
}

/// The name of the icon for an action's playback state.
pub fn state_icon(s: &PlaybackState) -> (r: &'static str)
    ensures
        r@ == state_icon_spec(*s),
{
    match s {
        PlaybackState::Inactive => "",
        PlaybackState::Unverified(_) => "gtk-dialog-warning",
        PlaybackState::Loaded => "gtk-home",
        PlaybackState::Loading => "gtk-refresh",
        PlaybackState::Paused(_) => "gtk-media-pause",
        PlaybackState::Active(_) => "gtk-media-play",
        PlaybackState::Errored(_) => "gtk-dialog-error",
    }
}

/// The name of the icon for an action's kind.
pub open spec fn type_icon_spec(p: ActionParameters) -> Seq<char> {
    match p {
        ActionParameters::Audio(_) => "audio-x-generic"@,
        ActionParameters::Fade(_) => "audio-volume-medium-symbolic"@,
    }
}

/// The name of the icon for an action's kind.
pub fn type_icon(p: &ActionParameters) -> (r: &'static str)
    ensures
        r@ == type_icon_spec(*p),
{
    match p {
        ActionParameters::Audio(_) => "audio-x-generic",
        ActionParameters::Fade(_) => "audio-volume-medium-symbolic",
    }
}

/// How far along a running or paused action is, when that is known.
pub open spec fn progress_of(s: PlaybackState) -> Option<DurationInfo> {
    match s {
        PlaybackState::Active(d) => d,
        PlaybackState::Paused(d) => d,
        _ => None,
    }
}

/// Whether the action's progress can be shown rounded to whole seconds.
pub open spec fn progress_fits(s: PlaybackState) -> bool {
    match progress_of(s) {
        Some(d) => !rounding_overflows(d.elapsed@, true),
        None => true,
    }
}

/// The progress text of an action: for a running or paused action whose
/// progress is known, "T+" and the time since it started, or "T-" and the time
/// until it starts, rounded to whole seconds; nothing otherwise.
pub open spec fn duration_text_of(s: PlaybackState) -> Seq<char> {
    match progress_of(s) {
        Some(d) => (if d.pos { "T+"@ } else { "T-"@ }) + duration_text(rounded_nanos(d.elapsed@, true), false),
        None => ""@,
    }
}

/// The progress text of an action (see `duration_text_of`).
pub fn progress_text(s: &PlaybackState) -> (r: String)
    requires
        progress_fits(*s),
    ensures
        r@ == duration_text_of(*s),
{
    let d = match s {
        PlaybackState::Active(Some(d)) => d,
        PlaybackState::Paused(Some(d)) => d,
        _ => return String::from_str(""),
    };
    let (elapsed, pos) = d.elapsed(true);
    let mut r = if pos {
        String::from_str("T+")
    } else {
        String::from_str("T-")
    };
    let t = format_duration(elapsed, false);
    r.append(t.as_str());
    r
}

/// The icon and status line shown at the head of an action's property
/// window for its playback state; none for an errored action, whose head is
/// left as it was.
pub open spec fn header_spec(s: PlaybackState) -> Option<(Seq<char>, Seq<char>)> {
    match s {
        PlaybackState::Inactive => Some(("gtk-media-stop"@, "Action inactive."@)),
        PlaybackState::Unverified(errs) => Some(
            (
                "gtk-dialog-error"@,
                "Action incomplete: "@ + decimal(errs@.len()) + " errors are present."@,
            ),
        ),
        PlaybackState::Loading => Some(("gtk-refresh"@, "Action loading..."@)),
        PlaybackState::Loaded => Some(("gtk-home"@, "Action loaded."@)),
        PlaybackState::Paused(_) => Some(("gtk-media-pause"@, "Action paused."@)),
        PlaybackState::Active(_) => Some(("gtk-media-play"@, "Action active."@)),
        PlaybackState::Errored(_) => None,
    }
}

/// The icon and status line for the head of an action's property window (see
/// `header_spec`).
pub fn playback_state_update(s: &PlaybackState) -> (r: Option<(&'static str, String)>)
    ensures
        match (r, header_spec(*s)) {
            (Some((icon, text)), Some((icon_s, text_s))) => icon@ == icon_s && text@ == text_s,
            (None, None) => true,
            _ => false,
        },
{
    match s {
        PlaybackState::Inactive => Some(("gtk-media-stop", String::from_str("Action inactive."))),
        PlaybackState::Unverified(errs) => {
            let mut t = String::from_str("Action incomplete: ");
            push_decimal(&mut t, errs.len() as u64);
            t.append(" errors are present.");
            Some(("gtk-dialog-error", t))
        },
        PlaybackState::Loading => Some(("gtk-refresh", String::from_str("Action loading..."))),
        PlaybackState::Loaded => Some(("gtk-home", String::from_str("Action loaded."))),
        PlaybackState::Paused(_) => Some(("gtk-media-pause", String::from_str("Action paused."))),
        PlaybackState::Active(_) => Some(("gtk-media-play", String::from_str("Action active."))),
        PlaybackState::Errored(_) => None,
    }
}

/// What the errors tab of an action's property window shows.
pub struct ErrorsPanel {
    /// The tab's label.
    pub label: String,
    /// One line per problem.
    pub entries: Vec<String>,
    /// Whether a button that resets the action is offered.
    pub reset_offered: bool,
    /// Whether the action can be loaded and executed from the window.
    pub can_run: bool,
}

/// The line shown for a problem with a parameter.
pub open spec fn problem_line(e: ParameterError) -> Seq<char> {
    e.name@ + ": "@ + e.err@
}

/// The lines shown for a list of problems, one each.
pub open spec fn problem_lines(errs: Seq<ParameterError>) -> Seq<Seq<char>> {
    errs.map_values(|e: ParameterError| problem_line(e))
}

/// The texts of a list of strings.
pub open spec fn string_views(v: Seq<String>) -> Seq<Seq<char>> {
    v.map_values(|l: String| l@)
}

/// The line shown for the error that stopped an action.
pub open spec fn fatal_line(err: Seq<char>) -> Seq<char> {
    "The following fatal error occurred, causing the action to stop:\n\t"@ + err
        + "\nBecause of this, this action is in an inconsistent state and must be reset to continue."@
}

/// The errors tab for an action in state `s`: its problems, with the action
/// kept from running, when its parameters are incomplete; the error that
/// stopped it, with a reset offered, when it errored; nothing otherwise.
pub open spec fn errors_panel_spec(s: PlaybackState) -> (Seq<char>, Seq<Seq<char>>, bool, bool) {
    match s {
        PlaybackState::Unverified(errs) => (
            "Errors ("@ + decimal(errs@.len()) + ")"@,
            problem_lines(errs@),
            false,
            false,
        ),
        PlaybackState::Errored(err) => ("Errors (!!)"@, seq![fatal_line(err@)], true, false),
        _ => ("Errors"@, Seq::empty(), false, true),
    }
}

/// The contents of an action's errors tab (see `errors_panel_spec`).
pub fn errors_panel(s: &PlaybackState) -> (r: ErrorsPanel)
    ensures
        (r.label@, string_views(r.entries@), r.reset_offered, r.can_run) == errors_panel_spec(*s),
{
    match s {
        PlaybackState::Unverified(errs) => {
            let mut label = String::from_str("Errors (");
            push_decimal(&mut label, errs.len() as u64);
            label.append(")");
            let mut entries: Vec<String> = Vec::new();
            let mut i: usize = 0;
            while i < errs.len()
                invariant
                    i <= errs@.len(),
                    entries@.len() == i,
                    forall|j: int| 0 <= j < i ==> #[trigger] entries@[j]@ == problem_line(errs@[j]),
                decreases errs@.len() - i,
            {
                let mut line = errs[i].name.clone();
                line.append(": ");
                line.append(errs[i].err.as_str());
                entries.push(line);
                i = i + 1;
            }
            proof {
                assert(string_views(entries@) =~= problem_lines(errs@));
            }
            ErrorsPanel { label, entries, reset_offered: false, can_run: false }
        },
        PlaybackState::Errored(err) => {
            let mut line = String::from_str(
                "The following fatal error occurred, causing the action to stop:\n\t",
            );
            line.append(err.as_str());
            line.append(
                "\nBecause of this, this action is in an inconsistent state and must be reset to continue.",
            );
            let entries = vec![line];
            proof {
                assert(string_views(entries@) =~= seq![fatal_line(err@)]);
            }
            ErrorsPanel {
                label: String::from_str("Errors (!!)"),
                entries,
                reset_offered: true,
                can_run: false,
            }
        },
        _ => {
            let entries: Vec<String> = Vec::new();
            proof {
                assert(string_views(entries@) =~= Seq::<Seq<char>>::empty());
            }
            ErrorsPanel { label: String::from_str("Errors"), entries, reset_offered: false, can_run: true }
        },
    }
}

/// A row of the action list.
#[derive(Clone, Debug, PartialEq)]
pub struct ActionRow {
    pub uuid: Uuid,
    /// The name shown for the action (see `OpaqueAction::display_name`).
    pub name: String,
    pub state_icon: String,
    pub type_icon: String,
    pub duration: String,
}

/// The name shown for an action: its user-given name, or else its
/// description.
pub open spec fn display_name_of(a: OpaqueAction) -> Seq<char> {
    match a.meta.name {
        Some(n) => n@,
        None => a.desc@,
    }
}

/// `row` is the row of the action `a`, which has UUID `uu`.
pub open spec fn row_of(row: ActionRow, uu: Uuid, a: OpaqueAction) -> bool {
    &&& row.uuid == uu
    &&& row.name@ == display_name_of(a)
    &&& row.state_icon@ == state_icon_spec(a.state)
    &&& row.type_icon@ == type_icon_spec(a.params)
    &&& row.duration@ == duration_text_of(a.state)
}

/// The UUIDs of the order that name known actions, in order.
pub open spec fn shown(order: Seq<Uuid>, known: Set<Uuid>) -> Seq<Uuid>
    decreases order.len(),
{
    if order.len() == 0 {
        Seq::empty()
    } else if known.contains(order.last()) {
        shown(order.drop_last(), known).push(order.last())
    } else {
        shown(order.drop_last(), known)
    }
}

/// The actions the client knows of, and their order, as the server last told
/// it.
pub struct ActionStore {
    actions: HashMap<Uuid, OpaqueAction>,
    order: Vec<Uuid>,
}

impl ActionStore {
    /// The known actions, by UUID.
    pub closed spec fn actions(self) -> Map<Uuid, OpaqueAction> {
        self.actions@
    }

    /// The order of the actions, as the server gave it.
    pub closed spec fn order_seq(self) -> Seq<Uuid> {
        self.order@
    }

    /// No actions.
    pub fn new() -> (s: Self)
        ensures
            s.actions() == Map::<Uuid, OpaqueAction>::empty(),
            s.order_seq() == Seq::<Uuid>::empty(),
    {
        ActionStore { actions: HashMap::new(), order: Vec::new() }
    }

    /// The action with this UUID, if known.
    pub fn get(&self, uu: Uuid) -> (r: Option<&OpaqueAction>)
        ensures
            r is Some <==> self.actions().contains_key(uu),
            r matches Some(a) ==> *a == self.actions()[uu],
    {
        self.actions.get(&uu)
    }

    /// The order of the actions.
    pub fn order(&self) -> (r: &Vec<Uuid>)
        ensures
            r@ == self.order_seq(),
    {
        &self.order
    }

    /// The server sent an action's data: it is recorded. Returns whether the
    /// action was new to the client.
    pub fn update_info(&mut self, uu: Uuid, data: OpaqueAction) -> (new: bool)
        ensures
            new == !old(self).actions().contains_key(uu),
            final(self).actions() == old(self).actions().insert(uu, data),
            final(self).order_seq() == old(self).order_seq(),
    {
        let new = !self.actions.contains_key(&uu);
        self.actions.insert(uu, data);
        new
    }

    /// The server deleted an action: it is forgotten.
    pub fn deleted(&mut self, uu: Uuid)
        ensures
            final(self).actions() == old(self).actions().remove(uu),
            final(self).order_seq() == old(self).order_seq(),
    {
        self.actions.remove(&uu);
    }

    /// The server sent a new order.
    pub fn set_order(&mut self, order: Vec<Uuid>)
        ensures
            final(self).actions() == old(self).actions(),
            final(self).order_seq() == order@,
    {
        self.order = order;
    }

    /// The server sent the whole action list: every action in it is recorded,
    /// every other one forgotten (their UUIDs are returned), and the order
    /// replaced.
    pub fn replace_all(&mut self, list: Vec<(Uuid, OpaqueAction)>, order: Vec<Uuid>) -> (gone: Vec<Uuid>)
        requires
            forall|i: int, j: int| 0 <= i < j < list@.len() ==> #[trigger] list@[i].0 != #[trigger] list@[j].0,
        ensures
            final(self).actions().dom() == Set::new(|u: Uuid| exists|i: int| 0 <= i < list@.len() && list@[i].0 == u),
            forall|i: int| 0 <= i < list@.len() ==> #[trigger] final(self).actions()[list@[i].0] == list@[i].1,
            final(self).order_seq() == order@,
            gone@.no_duplicates(),
            gone@.to_set() == old(self).actions().dom().difference(final(self).actions().dom()),
    {
        let ghost before = self.actions@;
        let mut i: usize = 0;
        let mut fresh: HashMap<Uuid, OpaqueAction> = HashMap::new();
        let mut list = list;
        let ghost orig = list@;
        while list.len() > 0
            invariant
                list@ == orig.take(list@.len() as int),
                list@.len() <= orig.len(),
                forall|x: int, y: int| 0 <= x < y < orig.len() ==> #[trigger] orig[x].0 != #[trigger] orig[y].0,
                fresh@.dom() == Set::new(|u: Uuid| exists|k: int| list@.len() <= k < orig.len() && orig[k].0 == u),
                forall|k: int| list@.len() <= k < orig.len() ==> #[trigger] fresh@[orig[k].0] == orig[k].1,
            decreases list@.len(),
        {
            let ghost n = list@.len() as int;
            let (u, a) = list.pop().unwrap();
            proof {
                assert(orig[n - 1] == (u, a));
                assert(list@ =~= orig.take(n - 1));
            }
            fresh.insert(u, a);
            proof {
                assert forall|k: int| n - 1 <= k < orig.len() implies #[trigger] fresh@[orig[k].0] == orig[k].1 by {
                    if k != n - 1 {
                        assert(orig[n - 1].0 != orig[k].0);
                    }
                }
                assert(fresh@.dom() =~= Set::new(|v: Uuid| exists|k: int| n - 1 <= k < orig.len() && orig[k].0 == v)) by {
                    assert forall|v: Uuid| #[trigger] fresh@.dom().contains(v) <==> exists|k: int| n - 1 <= k < orig.len() && orig[k].0 == v by {
                        if v == u {
                            assert(orig[n - 1].0 == v);
                        }
                    }
                }
            }
        }
        proof {
            assert(fresh@.dom() =~= Set::new(|u: Uuid| exists|i: int| 0 <= i < orig.len() && orig[i].0 == u));
        }
        let mut gone: Vec<Uuid> = Vec::new();
        let ghost keys_seq = self.actions.keys().remaining().unref();
        for k in iter: self.actions.keys()
            invariant
                keys_seq == iter.seq().unref(),
                keys_seq.to_set() == before.dom(),
                keys_seq.no_duplicates(),
                gone@.no_duplicates(),
                forall|u: Uuid| #[trigger] gone@.contains(u) <==> keys_seq.take(iter.index() as int).contains(u) && !fresh@.dom().contains(u),
        {
            let u = *k;
            let ghost idx = iter.index() as int;
            proof {
                assert(keys_seq.take(idx + 1) =~= keys_seq.take(idx).push(u));
                assert forall|v: Uuid| #[trigger] keys_seq.take(idx + 1).contains(v) <==> keys_seq.take(idx).contains(v) || v == u by {
                    vstd::seq_lib::lemma_seq_contains_after_push(keys_seq.take(idx), u, v);
                }
            }
            if !fresh.contains_key(&u) {
                proof {
                    assert(!keys_seq.take(idx).contains(u)) by {
                        if keys_seq.take(idx).contains(u) {
                            let j = choose|j: int| 0 <= j < idx && keys_seq.take(idx)[j] == u;
                            assert(keys_seq[j] == keys_seq[idx]);
                        }
                    }
                    assert forall|v: Uuid| #[trigger] gone@.push(u).contains(v) <==> gone@.contains(v) || v == u by {
                        vstd::seq_lib::lemma_seq_contains_after_push(gone@, u, v);
                    }
                    assert forall|x: int, y: int| 0 <= x < gone@.push(u).len() && 0 <= y < gone@.push(u).len() && x != y
                        implies gone@.push(u)[x] != gone@.push(u)[y] by {
                        if x == gone@.len() {
                            assert(gone@.contains(gone@[y]));
                        } else if y == gone@.len() {
                            assert(gone@.contains(gone@[x]));
                        }
                    }
                }
                gone.push(u);
            }
        }
        proof {
            assert(keys_seq.take(keys_seq.len() as int) =~= keys_seq);
            assert forall|u: Uuid| #[trigger] gone@.to_set().contains(u) <==> before.dom().difference(fresh@.dom()).contains(u) by {
                assert(keys_seq.to_set().contains(u) == keys_seq.contains(u));
            }
            assert(gone@.to_set() =~= before.dom().difference(fresh@.dom()));
        }
        self.actions = fresh;
        self.order = order;
        gone
    }

    /// The rows of the action list: one for each UUID of the order that names
    /// a known action, in order.
    pub fn rows(&self) -> (r: Vec<ActionRow>)
        requires
            forall|u: Uuid| #[trigger] self.actions().contains_key(u) ==> progress_fits(self.actions()[u].state),
        ensures
            r@.len() == shown(self.order_seq(), self.actions().dom()).len(),
            forall|i: int| 0 <= i < r@.len() ==> {
                let u = #[trigger] shown(self.order_seq(), self.actions().dom())[i];
                row_of(r@[i], u, self.actions()[u])
            },
    {
        let mut rows: Vec<ActionRow> = Vec::new();
        let mut i: usize = 0;
        let ghost known = self.actions@.dom();
        proof {
            assert(self.order@.take(0) =~= Seq::<Uuid>::empty());
        }
        while i < self.order.len()
            invariant
                i <= self.order@.len(),
                known == self.actions@.dom(),
                forall|u: Uuid| #[trigger] self.actions().contains_key(u) ==> progress_fits(self.actions()[u].state),
                rows@.len() == shown(self.order@.take(i as int), known).len(),
                forall|k: int| 0 <= k < rows@.len() ==> {
                    let u = #[trigger] shown(self.order@.take(i as int), known)[k];
                    row_of(rows@[k], u, self.actions@[u])
                },
            decreases self.order@.len() - i,
        {
            let uu = self.order[i];
            let ghost prev = self.order@.take(i as int);
            let ghost next = self.order@.take(i as int + 1);
            proof {
                assert(next.drop_last() =~= prev);
                assert(next.last() == uu);
            }
            match self.actions.get(&uu) {
                Some(a) => {
                    proof {
                        assert(self.actions().contains_key(uu));
                        assert(progress_fits(self.actions()[uu].state));
                    }
                    let name = String::from_str(a.display_name());
                    let row = ActionRow {
                        uuid: uu,
                        name,
                        state_icon: String::from_str(state_icon(&a.state)),
                        type_icon: String::from_str(type_icon(&a.params)),
                        duration: progress_text(&a.state),
                    };
                    rows.push(row);
                    proof {
                        assert forall|k: int| 0 <= k < rows@.len() implies {
                            let u = #[trigger] shown(next, known)[k];
                            row_of(rows@[k], u, self.actions@[u])
                        } by {
                            if k < rows@.len() - 1 {
                                assert(shown(next, known)[k] == shown(prev, known)[k]);
                            }
                        }
                    }
                },
                None => {},
            }
            i = i + 1;
        }
        proof {
            assert(self.order@.take(self.order@.len() as int) =~= self.order@);
        }
        rows
    }
}

/// Where an action dragged onto another goes in the order: just before the
/// target (one place earlier than the target, or first), or just after it
/// (one place later, unless that is past the second-to-last place). `None` if
/// either is not in the order.
pub open spec fn dnd_position(order: Seq<Uuid>, from: Uuid, to: Uuid, after: bool) -> Option<usize> {
    match (first_position(order, from), first_position(order, to)) {
        (Some(_), Some(tpos)) => Some(
            if after {
                if tpos + 2 >= order.len() { tpos as usize } else { (tpos + 1) as usize }
            } else {
                if tpos == 0 { 0 } else { (tpos - 1) as usize }
            },
        ),
        _ => None,
    }
}

/// The first place of `u` in `order`, if it is there.
fn position_in(order: &Vec<Uuid>, u: Uuid) -> (r: Option<usize>)
    ensures
        r matches Some(p) ==> first_position(order@, u) == Some(p as int) && p < order@.len(),
        r is None ==> first_position(order@, u) is None,
{
    let mut i: usize = 0;
    while i < order.len()
        invariant
            i <= order@.len(),
            forall|j: int| 0 <= j < i ==> order@[j] != u,
        decreases order@.len() - i,
    {
        if order[i] == u {
            proof {
                lemma_first_position(order@, u, i as int);
            }
            return Some(i);
        }
        i = i + 1;
    }
    None
}

/// The reordering that dragging `from` onto `to` asks for (see
/// `dnd_position`).
pub fn dnd_reorder(order: &Vec<Uuid>, from: Uuid, to: Uuid, after: bool) -> (r: Option<Command>)
    ensures
        match dnd_position(order@, from, to, after) {
            Some(p) => r == Some(Command::ReorderAction { uuid: from, new_pos: p }),
            None => r is None,
        },
{
    if position_in(order, from).is_none() {
        return None;
    }
    let tpos = match position_in(order, to) {
        Some(t) => t,
        None => return None,
    };
    let new_pos = if after {
        if order.len() - tpos <= 2 { tpos } else { tpos + 1 }
    } else {
        tpos.saturating_sub(1)
    };
    Some(Command::ReorderAction { uuid: from, new_pos })
}

/// The command that pastes a copied action: it is revived with the same kind,
/// metadata and parameters, under its own UUID unless an action with that UUID
/// exists (`taken`), in which case under `fresh`.
pub fn paste_command(clip: OpaqueAction, taken: bool, fresh: Uuid) -> (c: Command)
    ensures
        c matches Command::ReviveAction { uuid, typ, meta, params } && uuid == (if taken { fresh } else { clip.uu })
            && typ@ == action_type_name(clip.params) && meta == clip.meta && params == clip.params,
{
    let typ = String::from_str(clip.typ());
    let OpaqueAction { uu, params, meta, .. } = clip;
    let uuid = if taken { fresh } else { uu };
    Command::ReviveAction { typ, uuid, params, meta }
}

/// The command that a file dropped onto the action list sends: a new audio
/// action, under `fresh`, playing that file.
pub fn dropped_file_command(file: String, fresh: Uuid) -> (c: Command)
    ensures
        c matches Command::CreateActionWithExtras { typ, uuid, params } && typ@ == "audio"@ && uuid == fresh
            && (params matches ActionParameters::Audio(p) && p.url == Some(file) && p.chans@.len() == 0),
{
    let params = ActionParameters::Audio(AudioParams { url: Some(file), chans: Vec::new() });
    Command::CreateActionWithExtras { typ: String::from_str("audio"), uuid: fresh, params }
}

/// An action's metadata with a new name.
pub fn renamed(meta: &ActionMetadata, name: Option<String>) -> (m: ActionMetadata)
    ensures
        m.name == name,
        m.prewait == meta.prewait,
        m.number == meta.number,
{
    let number = match &meta.number {
        Some(n) => Some(n.clone()),
        None => None,
    };
    ActionMetadata { name, prewait: meta.prewait, number }
}

/// An action's metadata with a new pre-wait.
pub fn with_prewait(meta: &ActionMetadata, prewait: Duration) -> (m: ActionMetadata)
    ensures
        m.name == meta.name,
        m.prewait == prewait,
        m.number == meta.number,
{
    let name = match &meta.name {
        Some(n) => Some(n.clone()),
        None => None,
    };
    let number = match &meta.number {
        Some(n) => Some(n.clone()),
        None => None,
    };
    ActionMetadata { name, prewait, number }
}

/// What the outcome of a request about actions tells the user.
#[derive(Clone, Debug, PartialEq)]
pub enum Notice {
    /// An error message.
    Error(String),
    /// A message for the status bar.
    Status(String),
}

/// What the user is told of the outcome of `what` (such as "Creating
/// action"): on failure, that it failed and why; on success, `done`.
pub fn outcome_notice(what: &str, done: &str, res: &Result<(), String>) -> (n: Notice)
    ensures
        match *res {
            Err(e) => n matches Notice::Error(m) && m@ == what@ + " failed: "@ + e@,
            Ok(()) => n matches Notice::Status(m) && m@ == done@,
        },
{
    match res {
        Err(e) => {
            let mut m = String::from_str(what);
            m.append(" failed: ");
            m.append(e.as_str());
            Notice::Error(m)
        },
        Ok(()) => Notice::Status(String::from_str(done)),
    }
}


/// Which entry of a channel's patch menu is shown: 0 for none, or one past the
/// place of its patch among the mixer's default channels (0 if it is not one
/// of them).
pub open spec fn patch_index_spec(patch: Option<Uuid>, defs: Seq<Uuid>) -> nat {
    match patch {
        Some(u) => match first_position(defs, u) {
            Some(i) => (i + 1) as nat,
            None => 0,
        },
        None => 0,
    }
}

/// Which entry of a channel's patch menu is shown (see `patch_index_spec`).
pub fn patch_index(patch: Option<Uuid>, defs: &Vec<Uuid>) -> (r: usize)
    ensures
        r == patch_index_spec(patch, defs@),
{
    match patch {
        None => 0,
        Some(u) => {
            let mut i: usize = 0;
            while i < defs.len()
                invariant
                    i <= defs@.len(),
                    patch == Some(u),
                    forall|j: int| 0 <= j < i ==> defs@[j] != u,
                decreases defs@.len() - i,
            {
                if defs[i] == u {
                    proof {
                        lemma_first_position(defs@, u, i as int);
                    }
                    return i + 1;
                }
                i = i + 1;
            }
            proof {
                assert(!defs@.contains(u));
            }
            0
        },
    }
}

/// An audio action's parameters after the user picks entry `patch` of the patch
/// menu of slider `ch` (slider 0 is the master, which has no patch; entry 0 is
/// none): the channel is patched to that default channel of the mixer. `None`
/// when nothing changes (the master slider, entry 0, or an entry or channel
/// that does not exist).
pub fn with_patch_change(params: &AudioParams, defs: &Vec<Uuid>, ch: usize, patch: usize) -> (r: Option<AudioParams>)
    ensures
        (patch == 0 || ch == 0 || patch > defs@.len() || ch > params.chans@.len()) ==> r is None,
        !(patch == 0 || ch == 0 || patch > defs@.len() || ch > params.chans@.len()) ==> (r matches Some(p)
            && p.url == params.url && p.chans@ == params.chans@.update(
            ch - 1,
            AudioChannel { patch: Some(defs@[patch - 1]), vol: params.chans@[ch - 1].vol },
        )),
{
    if patch == 0 || ch == 0 {
        return None;
    }
    if patch > defs.len() || ch > params.chans.len() {
        return None;
    }
    let u = defs[patch - 1];
    let mut chans: Vec<AudioChannel> = Vec::new();
    let mut i: usize = 0;
    while i < params.chans.len()
        invariant
            i <= params.chans@.len(),
            1 <= ch <= params.chans@.len(),
            chans@ == params.chans@.update(ch - 1, AudioChannel { patch: Some(u), vol: params.chans@[ch - 1].vol }).take(i as int),
        decreases params.chans@.len() - i,
    {
        let c = params.chans[i];
        let next = if i == ch - 1 { AudioChannel { patch: Some(u), vol: c.vol } } else { c };
        chans.push(next);
        i = i + 1;
        proof {
            assert(chans@ =~= params.chans@.update(ch - 1, AudioChannel { patch: Some(u), vol: params.chans@[ch - 1].vol }).take(i as int));
        }
    }
    proof {
        assert(chans@ =~= params.chans@.update(ch - 1, AudioChannel { patch: Some(u), vol: params.chans@[ch - 1].vol }));
    }
    let url = match &params.url {
        Some(x) => Some(x.clone()),
        None => None,
    };
    Some(AudioParams { url, chans })
}

/// The waveform request an audio action's editor sends when it has no
/// waveform to draw: for its file, under `fresh`, at 44100 samples per point,
/// over the whole file; none if it has no file or a request is under way.
pub fn waveform_request(url: &Option<String>, pending: bool, fresh: Uuid) -> (r: Option<Command>)
    ensures
        (url is None || pending) ==> r is None,
        !(url is None || pending) ==> (r matches Some(Command::GenerateWaveform { uuid, req }) && uuid == fresh
            && req.file == url->0 && req.samples_per_pixel == 44_100 && req.range_start is None
            && req.range_end is None),
{
    if pending {
        return None;
    }
    match url {
        Some(u) => Some(
            Command::GenerateWaveform {
                uuid: fresh,
                req: WaveformRequest { file: u.clone(), samples_per_pixel: 44_100, range_start: None, range_end: None },
            },
        ),
        None => None,
    }
}

} // verus!
