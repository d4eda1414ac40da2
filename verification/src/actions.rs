//! Actions (cues): their parameters, metadata and playback states.
use vstd::prelude::*;
use crate::duration::Duration;
use crate::duration::DurationInfo;

verus! {

/// A unique identifier, held as its 128-bit value.
pub type Uuid = u128;

/// A problem with one of an action's parameters.
#[derive(Clone, Debug, PartialEq)]
pub struct ParameterError {
    /// The parameter's name.
    pub name: String,
    /// What is wrong with it.
    pub err: String,
}

/// Where an action is in its life: the state machine of playback.
#[derive(Clone, Debug, PartialEq)]
pub enum PlaybackState {
    Inactive,
    Unverified(Vec<ParameterError>),
    Loaded,
    Loading,
    Paused(Option<DurationInfo>),
    Active(Option<DurationInfo>),
    Errored(String),
}

/// Data about an action that every kind of action has.
#[derive(Clone, Debug, PartialEq)]
pub struct ActionMetadata {
    /// A name given by the user.
    pub name: Option<String>,
    /// How long to wait between being told to execute and executing.
    pub prewait: Duration,
    /// A cue number given by the user.
    pub number: Option<String>,
}

impl Default for ActionMetadata {
    fn default() -> (m: ActionMetadata)
        ensures
            m.name is None,
            m.prewait@ == 0,
            m.number is None,
    {
        ActionMetadata { name: None, prewait: Duration::zero(), number: None }
    }
}

/// One channel of an audio action: where it is patched, and its level.
///
/// The level is a decibel value; it is held as the bit pattern of its `f32`.
#[derive(Clone, Copy, Debug, PartialEq)]
pub struct AudioChannel {
    pub patch: Option<Uuid>,
    pub vol: u32,
}

/// Parameters of an audio action.
#[derive(Clone, Debug, PartialEq)]
pub struct AudioParams {
    /// The URL of the file to play.
    pub url: Option<String>,
    /// One entry per channel of the file.
    pub chans: Vec<AudioChannel>,
}

/// One fade of a fade action: whether it is on, and the level to fade to
/// (a decibel value held as the bit pattern of its `f32`).
#[derive(Clone, Copy, Debug, PartialEq, Eq)]
pub struct FadeLevel {
    pub enabled: bool,
    pub level: u32,
}

/// Parameters of a fade action.
#[derive(Clone, Debug, PartialEq)]
pub struct FadeParams {
    /// The audio action to fade.
    pub target: Option<Uuid>,
    /// For each channel of the target: whether to fade it, and to what level.
    pub fades: Vec<FadeLevel>,
    /// Whether to fade the target's master level, and to what level.
    pub fade_master: FadeLevel,
    /// How long the fade takes.
    pub dur: Duration,
}

/// The parameters of an action, of whichever kind it is.
#[derive(Clone, Debug, PartialEq)]
pub enum ActionParameters {
    Audio(AudioParams),
    Fade(FadeParams),
}

/// The name of the kind of action that `p` holds parameters for.
pub open spec fn action_type_name(p: ActionParameters) -> Seq<char> {
    match p {
        ActionParameters::Audio(_) => "audio"@,
        ActionParameters::Fade(_) => "fade"@,
    }
}

/// Everything a client is told about an action.
#[derive(Clone, Debug, PartialEq)]
pub struct OpaqueAction {
    pub state: PlaybackState,
    pub params: ActionParameters,
    pub desc: String,
    pub meta: ActionMetadata,
    pub uu: Uuid,
}

impl OpaqueAction {
    /// The name to show for the action: the user's name for it if it has one,
    /// its description otherwise.
    pub fn display_name(&self) -> (r: &str)
        ensures
            r@ == match self.meta.name {
                Some(n) => n@,
                None => self.desc@,
            },
    {
        match &self.meta.name {
            Some(dsc) => dsc.as_str(),
            None => self.desc.as_str(),
        }
    }

    /// The name of the kind of action this is.
    pub fn typ(&self) -> (r: &'static str)
        ensures
            r@ == action_type_name(self.params),
    {
        match &self.params {
            ActionParameters::Audio(_) => "audio",
            ActionParameters::Fade(_) => "fade",
        }
    }
}

} // verus!
