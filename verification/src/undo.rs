//! Undoing and redoing changes made by clients.
use vstd::prelude::*;
use crate::codec::Command;
use crate::copies::{copy_command, same_command};
use crate::actions::{OpaqueAction, action_type_name};
use crate::mixer::MixerConf;

verus! {

/// The most changes the undo history keeps.
pub const MAX_UNDOS: usize = 100;

/// The description of the placeholder change at the bottom of the history,
/// which cannot be undone.
pub open spec fn is_nothing(desc: Seq<char>) -> bool {
    desc == "nothing"@
}

/// A change that can be undone: the command that undoes it, the command that
/// makes it again, and a description for the user.
#[derive(Clone, Debug, PartialEq)]
pub struct UndoableChange {
    pub undo: Command,
    pub redo: Command,
    pub desc: String,
}

/// The history of undoable changes, and where in it we are.
#[derive(Clone, Debug)]
pub struct UndoContext {
    changes: Vec<UndoableChange>,
    idx: Option<usize>,
}

/// What can be undone and redone next, by description.
#[derive(Clone, Debug, PartialEq)]
pub struct UndoState {
    pub undo: Option<String>,
    pub redo: Option<String>,
}

impl Default for UndoState {
    fn default() -> (s: UndoState)
        ensures
            s.undo is None,
            s.redo is None,
    {
        UndoState { undo: None, redo: None }
    }
}

fn is_nothing_exec(desc: &String) -> (b: bool)
    ensures
        b == is_nothing(desc@),
{
    let nothing = String::from_str("nothing");
    *desc == nothing
}

impl UndoContext {
    /// The changes in the history, oldest first.
    pub closed spec fn changes(self) -> Seq<UndoableChange> {
        self.changes@
    }

    /// Where in the history we are: `None` at the newest change, `Some(i)` when
    /// change `i` is the last one in effect.
    pub closed spec fn index(self) -> Option<usize> {
        self.idx
    }

    /// The history holds at least one and at most `MAX_UNDOS` changes, and an
    /// index below the newest change.
    pub open spec fn wf(self) -> bool {
        &&& 1 <= self.changes().len() <= MAX_UNDOS
        &&& (self.index() matches Some(i) ==> i + 1 < self.changes().len())
    }

    /// The last change in effect.
    pub open spec fn cursor(self) -> int {
        match self.index() {
            Some(i) => i as int,
            None => self.changes().len() - 1,
        }
    }

    /// The change that `undo` undoes, if any.
    pub open spec fn undo_index(self) -> Option<int> {
        if !is_nothing(self.changes()[self.cursor()].desc@) {
            Some(self.cursor())
        } else {
            None
        }
    }

    /// The change that `redo` makes again, if any.
    pub open spec fn redo_index(self) -> Option<int> {
        if self.cursor() + 1 < self.changes().len() {
            Some(self.cursor() + 1)
        } else {
            None
        }
    }

    /// The index after an `undo`.
    pub open spec fn index_after_undo(self) -> Option<usize> {
        match self.undo_index() {
            Some(i) => Some((i - 1) as usize),
            None => self.index(),
        }
    }

    /// The index after a `redo`.
    pub open spec fn index_after_redo(self) -> Option<usize> {
        match self.redo_index() {
            Some(i) => if i == self.changes().len() - 1 {
                None
            } else {
                Some(i as usize)
            },
            None => self.index(),
        }
    }

    /// The history after registering `ch`: whatever could be redone is gone,
    /// `ch` is the newest change, and the oldest change is dropped when the
    /// history would exceed `MAX_UNDOS`.
    pub open spec fn changes_after_register(self, ch: UndoableChange) -> Seq<UndoableChange> {
        let kept = match self.index() {
            Some(i) => self.changes().subrange(0, i + 1),
            None => self.changes(),
        };
        let pushed = kept.push(ch);
        if pushed.len() > MAX_UNDOS {
            pushed.drop_first()
        } else {
            pushed
        }
    }

    /// A history holding only the placeholder change, which cannot be undone.
    pub fn new() -> (s: Self)
        ensures
            s.wf(),
            s.changes().len() == 1,
            is_nothing(s.changes()[0].desc@),
            s.changes()[0].undo == Command::Ping,
            s.changes()[0].redo == Command::Ping,
            s.index() is None,
            s.undo_index() is None,
            s.redo_index() is None,
    {
        let gutter = UndoableChange {
            undo: Command::Ping,
            redo: Command::Ping,
            desc: String::from_str("nothing"),
        };
        let mut changes = Vec::new();
        changes.push(gutter);
        UndoContext { changes, idx: None }
    }

    /// Records a new change, forgetting whatever could have been redone.
    pub fn register_change(&mut self, ch: UndoableChange)
        requires
            old(self).wf(),
        ensures
            final(self).wf(),
            final(self).changes() == old(self).changes_after_register(ch),
            final(self).index() is None,
    {
        let ghost ch_ghost = ch;
        if let Some(idx) = self.idx {
            self.changes.truncate(idx + 1);
            self.idx = None;
        }
        self.changes.push(ch);
        if self.changes.len() > MAX_UNDOS {
            self.changes.remove(0);
        }
        proof {
            assert(self.changes@ =~= old(self).changes_after_register(ch_ghost));
        }
    }

    fn indexes(&self) -> (r: (Option<usize>, Option<usize>))
        requires
            self.wf(),
        ensures
            r.0 matches Some(i) ==> self.undo_index() == Some(i as int),
            r.0 is None ==> self.undo_index() is None,
            r.1 matches Some(i) ==> self.redo_index() == Some(i as int),
            r.1 is None ==> self.redo_index() is None,
    {
        let mut undo = None;
        let mut redo = None;
        let idx = match self.idx {
            Some(i) => i,
            None => self.changes.len() - 1,
        };
        if idx + 1 < self.changes.len() {
            redo = Some(idx + 1);
        }
        if !is_nothing_exec(&self.changes[idx].desc) {
            undo = Some(idx);
        }
        (undo, redo)
    }

    /// Whether `undo` can be called: the change it would undo is not the
    /// oldest one in the history (undoing that one would step below it).
    pub fn can_undo_safely(&self) -> (b: bool)
        requires
            self.wf(),
        ensures
            b == (self.undo_index() != Some(0int)),
    {
        let (undo, _) = self.indexes();
        match undo {
            Some(i) => i != 0,
            None => true,
        }
    }

    /// Steps back over the last change in effect and returns the command that
    /// undoes it; returns `None`, changing nothing, if there is none.
    pub fn undo(&mut self) -> (r: Option<Command>)
        requires
            old(self).wf(),
            old(self).undo_index() != Some(0int),
        ensures
            final(self).wf(),
            final(self).changes() == old(self).changes(),
            final(self).index() == old(self).index_after_undo(),
            r is Some <==> old(self).undo_index() is Some,
            r matches Some(c) ==> same_command(old(self).changes()[old(self).undo_index().unwrap()].undo, c),
    {
        let (undo, _) = self.indexes();
        if let Some(idx) = undo {
            self.idx = Some(idx - 1);
            Some(copy_command(&self.changes[idx].undo))
        } else {
            None
        }
    }

    /// Steps forward over the next change that was undone and returns the
    /// command that makes it again; returns `None`, changing nothing, if there
    /// is none.
    pub fn redo(&mut self) -> (r: Option<Command>)
        requires
            old(self).wf(),
        ensures
            final(self).wf(),
            final(self).changes() == old(self).changes(),
            final(self).index() == old(self).index_after_redo(),
            r is Some <==> old(self).redo_index() is Some,
            r matches Some(c) ==> same_command(old(self).changes()[old(self).redo_index().unwrap()].redo, c),
    {
        let (_, redo) = self.indexes();
        if let Some(idx) = redo {
            if idx == self.changes.len() - 1 {
                self.idx = None;
            } else {
                self.idx = Some(idx);
            }
            Some(copy_command(&self.changes[idx].redo))
        } else {
            None
        }
    }

    /// The descriptions of what `undo` and `redo` would act on.
    pub fn state(&self) -> (r: UndoState)
        requires
            self.wf(),
        ensures
            r.undo is Some <==> self.undo_index() is Some,
            r.undo matches Some(s) ==> s@ == self.changes()[self.undo_index().unwrap()].desc@,
            r.redo is Some <==> self.redo_index() is Some,
            r.redo matches Some(s) ==> s@ == self.changes()[self.redo_index().unwrap()].desc@,
    {
        let (undo, redo) = self.indexes();
        let undo_desc = match undo {
            Some(i) => Some(self.changes[i].desc.clone()),
            None => None,
        };
        let redo_desc = match redo {
            Some(i) => Some(self.changes[i].desc.clone()),
            None => None,
        };
        UndoState { undo: undo_desc, redo: redo_desc }
    }
}


/// What the server has to look up before it can tell how to undo a command.
#[derive(Clone, Copy, Debug, PartialEq, Eq)]
pub enum PriorStateKind {
    /// Nothing: the command cannot be undone, or undoing it needs nothing more.
    Nothing,
    /// The current data of the action with this UUID.
    Action(u128),
    /// The current mixer configuration.
    Mixer,
    /// The current position of the action with this UUID in the order.
    Position(u128),
}

/// What the server found when it looked up what `prior_state_needed` asked.
#[derive(Clone, Debug)]
pub enum PriorState {
    Nothing,
    /// The action's current data, or `None` if there is no such action (or its
    /// data could not be had).
    Action(Option<OpaqueAction>),
    /// The current mixer configuration.
    Mixer(MixerConf),
    /// The action's current position in the order, if it is in the order.
    Position(Option<usize>),
}

/// Which lookup `cmd_as_undoable` needs for `cmd`.
pub open spec fn prior_state_kind(cmd: Command) -> PriorStateKind {
    match cmd {
        Command::UpdateActionParams { uuid, .. } => PriorStateKind::Action(uuid),
        Command::UpdateActionMetadata { uuid, .. } => PriorStateKind::Action(uuid),
        Command::DeleteAction { uuid } => PriorStateKind::Action(uuid),
        Command::SetMixerConf { .. } => PriorStateKind::Mixer,
        Command::ReorderAction { uuid, .. } => PriorStateKind::Position(uuid),
        _ => PriorStateKind::Nothing,
    }
}

/// Whether `prior` is the kind of lookup that `kind` asks for.
pub open spec fn prior_state_fits(kind: PriorStateKind, prior: PriorState) -> bool {
    match kind {
        PriorStateKind::Nothing => prior is Nothing,
        PriorStateKind::Action(_) => prior is Action,
        PriorStateKind::Mixer => prior is Mixer,
        PriorStateKind::Position(_) => prior is Position,
    }
}

/// Which lookup the server has to make before `cmd_as_undoable(cmd, ..)`.
pub fn prior_state_needed(cmd: &Command) -> (k: PriorStateKind)
    ensures
        k == prior_state_kind(*cmd),
{
    match cmd {
        Command::UpdateActionParams { uuid, .. } => PriorStateKind::Action(*uuid),
        Command::UpdateActionMetadata { uuid, .. } => PriorStateKind::Action(*uuid),
        Command::DeleteAction { uuid } => PriorStateKind::Action(*uuid),
        Command::SetMixerConf { .. } => PriorStateKind::Mixer,
        Command::ReorderAction { uuid, .. } => PriorStateKind::Position(*uuid),
        _ => PriorStateKind::Nothing,
    }
}

/// `prefix` followed by `s`, as a new string.
fn concat_str(prefix: &str, s: &str) -> (r: String)
    ensures
        r@ == prefix@ + s@,
{
    let mut r = String::from_str(prefix);
    r.append(s);
    r
}

/// The undoable change that `cmd` makes, given what was looked up for it
/// (`prior`); `None` if `cmd` cannot be undone, or if the action or position
/// it concerns does not exist.
pub fn cmd_as_undoable(cmd: Command, prior: PriorState) -> (r: Option<UndoableChange>)
    requires
        prior_state_fits(prior_state_kind(cmd), prior),
    ensures
        match cmd {
            Command::CreateActionWithUuid { typ, uuid } => r matches Some(ch) && ch.undo
                == Command::DeleteAction { uuid } && ch.redo == cmd && ch.desc@ == "create action with type "@ + typ@,
            Command::ReviveAction { uuid, typ, .. } => r matches Some(ch) && ch.undo
                == Command::DeleteAction { uuid } && ch.redo == cmd && ch.desc@ == "revive action of type "@ + typ@,
            Command::CreateActionWithExtras { typ, uuid, .. } => r matches Some(ch) && ch.undo
                == Command::DeleteAction { uuid } && ch.redo == cmd && ch.desc@ == "create action with type "@ + typ@,
            Command::UpdateActionParams { uuid, params, desc } => match prior {
                PriorState::Action(Some(old)) => r matches Some(ch) && ch.undo
                    == (Command::UpdateActionParams { uuid, params: old.params, desc: None })
                    && ch.redo == (Command::UpdateActionParams { uuid, params, desc: None })
                    && ch.desc@ == match desc {
                    Some(d) => d@,
                    None => "update action parameters"@,
                },
                _ => r is None,
            },
            Command::UpdateActionMetadata { uuid, meta } => match prior {
                PriorState::Action(Some(old)) => r matches Some(ch) && ch.undo
                    == (Command::UpdateActionMetadata { uuid, meta: old.meta }) && ch.redo == cmd
                    && ch.desc@ == "update action metadata"@,
                _ => r is None,
            },
            Command::DeleteAction { uuid } => match prior {
                PriorState::Action(Some(old)) => r matches Some(ch) && (ch.undo matches Command::ReviveAction {
                    uuid: u,
                    typ: t,
                    meta: m,
                    params: p,
                } && u == uuid && t@ == action_type_name(old.params) && m == old.meta && p
                    == old.params) && ch.redo == cmd && ch.desc@ == "delete action"@,
                _ => r is None,
            },
            Command::SetMixerConf { conf } => match prior {
                PriorState::Mixer(old) => r matches Some(ch) && ch.undo == (Command::SetMixerConf {
                    conf: old,
                }) && ch.redo == cmd && ch.desc@ == "modify mixer configuration"@,
                _ => false,
            },
            Command::ReorderAction { uuid, new_pos } => match prior {
                PriorState::Position(Some(pos)) => r matches Some(ch) && ch.undo
                    == (Command::ReorderAction { uuid, new_pos: pos }) && ch.redo == cmd
                    && ch.desc@ == "reorder action"@,
                _ => r is None,
            },
            _ => r is None,
        },
{
    let ghost cmd_ghost = cmd;
    match cmd {
        Command::CreateActionWithUuid { typ, uuid } => {
            let desc = concat_str("create action with type ", typ.as_str());
            Some(UndoableChange {
                undo: Command::DeleteAction { uuid },
                redo: Command::CreateActionWithUuid { typ, uuid },
                desc,
            })
        },
        Command::ReviveAction { uuid, typ, meta, params } => {
            let desc = concat_str("revive action of type ", typ.as_str());
            Some(UndoableChange {
                undo: Command::DeleteAction { uuid },
                redo: Command::ReviveAction { uuid, typ, meta, params },
                desc,
            })
        },
        Command::CreateActionWithExtras { typ, uuid, params } => {
            let desc = concat_str("create action with type ", typ.as_str());
            Some(UndoableChange {
                undo: Command::DeleteAction { uuid },
                redo: Command::CreateActionWithExtras { typ, uuid, params },
                desc,
            })
        },
        Command::UpdateActionParams { uuid, params, desc } => {
            match prior {
                PriorState::Action(Some(old)) => {
                    let desc = match desc {
                        Some(d) => d,
                        None => String::from_str("update action parameters"),
                    };
                    Some(UndoableChange {
                        undo: Command::UpdateActionParams { uuid, params: old.params, desc: None },
                        redo: Command::UpdateActionParams { uuid, params, desc: None },
                        desc,
                    })
                },
                _ => None,
            }
        },
        Command::UpdateActionMetadata { uuid, meta } => {
            match prior {
                PriorState::Action(Some(old)) => {
                    Some(UndoableChange {
                        undo: Command::UpdateActionMetadata { uuid, meta: old.meta },
                        redo: Command::UpdateActionMetadata { uuid, meta },
                        desc: String::from_str("update action metadata"),
                    })
                },
                _ => None,
            }
        },
        Command::DeleteAction { uuid } => {
            match prior {
                PriorState::Action(Some(old)) => {
                    let typ = String::from_str(old.typ());
                    let OpaqueAction { meta, params, .. } = old;
                    Some(UndoableChange {
                        undo: Command::ReviveAction { uuid, meta, typ, params },
                        redo: Command::DeleteAction { uuid },
                        desc: String::from_str("delete action"),
                    })
                },
                _ => None,
            }
        },
        Command::SetMixerConf { conf } => {
            match prior {
                PriorState::Mixer(old) => {
                    Some(UndoableChange {
                        undo: Command::SetMixerConf { conf: old },
                        redo: Command::SetMixerConf { conf },
                        desc: String::from_str("modify mixer configuration"),
                    })
                },
                _ => None,
            }
        },
        Command::ReorderAction { uuid, new_pos } => {
            match prior {
                PriorState::Position(Some(pos)) => {
                    Some(UndoableChange {
                        undo: Command::ReorderAction { uuid, new_pos: pos },
                        redo: Command::ReorderAction { uuid, new_pos },
                        desc: String::from_str("reorder action"),
                    })
                },
                _ => None,
            }
        },
        _ => None,
    }
}

/// Undoing a change and then redoing makes that same change again and returns
/// the history to where it was.
pub proof fn lemma_undo_then_redo(before: UndoContext, after_undo: UndoContext)
    requires
        before.wf(),
        before.undo_index() is Some,
        before.undo_index() != Some(0int),
        after_undo.changes() == before.changes(),
        after_undo.index() == before.index_after_undo(),
    ensures
        after_undo.wf(),
        after_undo.redo_index() == before.undo_index(),
        after_undo.index_after_redo() == before.index(),
{
}

/// Redoing a change and then undoing undoes that same change and returns the
/// history to where it was, provided the change is not the placeholder.
pub proof fn lemma_redo_then_undo(before: UndoContext, after_redo: UndoContext)
    requires
        before.wf(),
        before.redo_index() is Some,
        !is_nothing(before.changes()[before.redo_index().unwrap()].desc@),
        after_redo.changes() == before.changes(),
        after_redo.index() == before.index_after_redo(),
    ensures
        after_redo.wf(),
        after_redo.undo_index() == before.redo_index(),
        after_redo.undo_index() != Some(0int),
        after_redo.index_after_undo() == before.index(),
{
}

/// Right after a change is registered, it is the one that `undo` undoes, and
/// nothing can be redone.
pub proof fn lemma_register_then_undo(
    before: UndoContext,
    ch: UndoableChange,
    after: UndoContext,
)
    requires
        before.wf(),
        !is_nothing(ch.desc@),
        after.changes() == before.changes_after_register(ch),
        after.index() is None,
    ensures
        after.wf(),
        after.undo_index() == Some(after.changes().len() - 1),
        after.changes()[after.changes().len() - 1] == ch,
        after.redo_index() is None,
{
}

} // verus!
