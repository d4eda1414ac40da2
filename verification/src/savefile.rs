//! Save files: what is saved of each action, and the checks made when a save
//! file is applied and when an action is created.
use vstd::prelude::*;
use crate::actions::{ActionMetadata, ActionParameters, OpaqueAction, Uuid, action_type_name};
use crate::errors::BackendError;
use crate::ids::{uuid_hyphenated, uuid_to_string};

verus! {

/// The version of the save file format that this server writes and reads.
pub open spec fn savefile_version() -> Seq<char> {
    "indev"@
}

/// What a save file holds of an action: its kind, metadata and parameters.
#[derive(Clone, Debug, PartialEq)]
pub struct SavedAction {
    pub typ: String,
    pub meta: ActionMetadata,
    pub params: ActionParameters,
}

impl SavedAction {
    /// What is saved of an action.
    pub fn of(opa: OpaqueAction) -> (s: SavedAction)
        ensures
            s.typ@ == action_type_name(opa.params),
            s.meta == opa.meta,
            s.params == opa.params,
    {
        let typ = String::from_str(opa.typ());
        let OpaqueAction { meta, params, .. } = opa;
        SavedAction { typ, meta, params }
    }
}

/// Checks the version of a save file before it is applied: a save file of
/// another version is refused unless the load is forced.
pub fn check_savefile_version(ver: &str, force: bool) -> (r: Result<(), BackendError>)
    ensures
        (ver@ == savefile_version() || force) ==> r is Ok,
        !(ver@ == savefile_version() || force) ==> (r matches Err(BackendError::Msg(m)) && m@
            == "Savefile version mismatch: our version is "@ + savefile_version()
            + ", but the savefile was saved with "@ + ver@ + "."@),
{
    let ours = String::from_str("indev");
    let theirs = String::from_str(ver);
    if theirs != ours && !force {
        let mut m = String::from_str("Savefile version mismatch: our version is ");
        m.append("indev");
        m.append(", but the savefile was saved with ");
        m.append(ver);
        m.append(".");
        proof {
            reveal_strlit("indev");
        }
        return Err(BackendError::Msg(m));
    }
    Ok(())
}

/// The version this server writes into save files.
pub fn savefile_version_text() -> (s: String)
    ensures
        s@ == savefile_version(),
{
    String::from_str("indev")
}

/// The kinds of action there are.
#[derive(Clone, Copy, Debug, PartialEq, Eq, Structural)]
pub enum ActionKind {
    Audio,
    Fade,
}

/// Checks a request to create an action of type `typ` (under `uuid`, if one is
/// given; `taken` tells whether an action with that UUID exists): the type must
/// be one there is, and the UUID must be free.
pub fn check_new_action(typ: &str, uuid: Option<Uuid>, taken: bool) -> (r: Result<ActionKind, BackendError>)
    ensures
        typ@ == "audio"@ && !(uuid is Some && taken) ==> r == Ok::<ActionKind, BackendError>(ActionKind::Audio),
        typ@ == "fade"@ && !(uuid is Some && taken) ==> r == Ok::<ActionKind, BackendError>(ActionKind::Fade),
        typ@ != "audio"@ && typ@ != "fade"@ ==> (r matches Err(BackendError::Msg(m)) && m@ == "Unknown action type: "@ + typ@),
        (typ@ == "audio"@ || typ@ == "fade"@) && uuid is Some && taken ==> (r matches Err(BackendError::Msg(m)) && m@
            == "UUID "@ + uuid_hyphenated(uuid->0) + " already exists!"@),
{
    proof {
        reveal_strlit("audio");
        reveal_strlit("fade");
        assert("audio"@.len() == 5 && "fade"@.len() == 4);
    }
    let t = String::from_str(typ);
    let kind = if t == String::from_str("audio") {
        ActionKind::Audio
    } else if t == String::from_str("fade") {
        ActionKind::Fade
    } else {
        let mut m = String::from_str("Unknown action type: ");
        m.append(typ);
        return Err(BackendError::Msg(m));
    };
    if let Some(uu) = uuid {
        if taken {
            let mut m = String::from_str("UUID ");
            let u = uuid_to_string(uu);
            m.append(u.as_str());
            m.append(" already exists!");
            return Err(BackendError::Msg(m));
        }
    }
    Ok(kind)
}

} // verus!
