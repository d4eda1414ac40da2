//! The playback state machine of an action: which transitions are allowed,
//! and what each step of loading, executing, pausing and polling leads to.
use vstd::prelude::*;
use crate::actions::{PlaybackState, ParameterError};
use crate::duration::{Duration, DurationInfo, NANOS_PER_SEC};
use crate::pending::AsyncResult;

verus! {

/// What to do with a requested change of playback state.
#[derive(Clone, Copy, Debug, PartialEq, Eq)]
pub enum StateChangeOutcome {
    /// Take the new state.
    Apply,
    /// Reset the action (which leaves it inactive).
    Reset,
    /// Refuse: no change can be made in the current state.
    Refused,
    /// Refuse: this change cannot be made from the current state.
    WrongChange,
}

/// Whether the action is somewhere in the middle of playback (loading, loaded,
/// active or paused).
pub open spec fn in_playback(s: PlaybackState) -> bool {
    s is Loading || s is Loaded || s is Active || s is Paused
}

/// What a requested change from `cur` to `ps` does: a change to `Errored` is
/// always taken; none is taken from `Inactive`, `Unverified` or `Errored`; from
/// the middle of playback, a change to `Inactive` resets the action, a change
/// to `Unverified` is refused, and any other is taken.
pub open spec fn state_change_spec(cur: PlaybackState, ps: PlaybackState) -> StateChangeOutcome {
    if ps is Errored {
        StateChangeOutcome::Apply
    } else if !in_playback(cur) {
        StateChangeOutcome::Refused
    } else if ps is Inactive {
        StateChangeOutcome::Reset
    } else if ps is Unverified {
        StateChangeOutcome::WrongChange
    } else {
        StateChangeOutcome::Apply
    }
}

/// Decides a requested change of playback state (see `state_change_spec`).
pub fn state_change_outcome(cur: &PlaybackState, ps: &PlaybackState) -> (r: StateChangeOutcome)
    ensures
        r == state_change_spec(*cur, *ps),
{
    if let PlaybackState::Errored(_) = ps {
        return StateChangeOutcome::Apply;
    }
    match cur {
        PlaybackState::Inactive | PlaybackState::Unverified(_) | PlaybackState::Errored(_) => {
            StateChangeOutcome::Refused
        },
        _ => match ps {
            PlaybackState::Inactive => StateChangeOutcome::Reset,
            PlaybackState::Unverified(_) => StateChangeOutcome::WrongChange,
            _ => StateChangeOutcome::Apply,
        },
    }
}

/// Whether an action in state `s` may be loaded: only an inactive one may.
pub fn load_allowed(s: &PlaybackState) -> (b: bool)
    ensures
        b == (*s is Inactive),
{
    matches!(s, PlaybackState::Inactive)
}

/// The state after loading: loaded if loading finished at once, loading if it
/// goes on, errored (with the error's message) if it failed.
pub fn state_after_load(res: Result<bool, String>) -> (s: PlaybackState)
    ensures
        match res {
            Ok(true) => s is Loaded,
            Ok(false) => s is Loading,
            Err(e) => s == PlaybackState::Errored(e),
        },
{
    match res {
        Ok(true) => PlaybackState::Loaded,
        Ok(false) => PlaybackState::Loading,
        Err(e) => PlaybackState::Errored(e),
    }
}

/// The state after executing: inactive if the action finished at once, active
/// if it goes on, errored (with the error's message) if it failed.
pub fn state_after_execute(res: Result<bool, String>) -> (s: PlaybackState)
    ensures
        match res {
            Ok(true) => s is Inactive,
            Ok(false) => s == PlaybackState::Active(None),
            Err(e) => s == PlaybackState::Errored(e),
        },
{
    match res {
        Ok(true) => PlaybackState::Inactive,
        Ok(false) => PlaybackState::Active(None),
        Err(e) => PlaybackState::Errored(e),
    }
}

/// The state after asking an action to pause: paused (keeping how far along
/// it was, if it was active and that is known) if it did pause, unchanged
/// otherwise.
pub fn state_after_pause(cur: PlaybackState, paused: bool, info: Option<DurationInfo>) -> (s:
    PlaybackState)
    ensures
        paused ==> s == PlaybackState::Paused(if cur is Active { info } else { None }),
        !paused ==> s == cur,
{
    if paused {
        let keep = if let PlaybackState::Active(_) = cur { info } else { None };
        PlaybackState::Paused(keep)
    } else {
        cur
    }
}

/// Whether an action in state `s` has its parameters checked again when it
/// is looked at: an inactive or unverified one does.
pub fn needs_verification(s: &PlaybackState) -> (b: bool)
    ensures
        b == (*s is Inactive || *s is Unverified),
{
    matches!(s, PlaybackState::Inactive | PlaybackState::Unverified(_))
}

/// The state after checking the parameters: inactive if nothing is wrong,
/// unverified (with the problems) otherwise.
pub fn state_after_verify(errors: Vec<ParameterError>) -> (s: PlaybackState)
    ensures
        errors@.len() == 0 ==> s is Inactive,
        errors@.len() != 0 ==> s == PlaybackState::Unverified(errors),
{
    if errors.len() == 0 {
        PlaybackState::Inactive
    } else {
        PlaybackState::Unverified(errors)
    }
}

/// What executing an action does, given its state.
#[derive(Clone, Copy, Debug, PartialEq, Eq)]
pub enum ExecuteStep {
    /// It is still loading: start it as soon as it has loaded.
    StartWhenLoaded,
    /// Start it as though it had started at this time (monotonic clock, ns).
    Run(u64),
    /// It is already running: nothing to do.
    AlreadyActive,
    /// It is inactive: load it first, then look again.
    LoadFirst,
    /// It cannot be executed in this state.
    Refuse,
}

/// Whether executing at `time` with a pre-wait of `prewait` nanoseconds stays
/// within the clock's range.
pub open spec fn execute_fits(s: PlaybackState, time: u64, prewait: nat) -> bool {
    match s {
        PlaybackState::Loaded => time + prewait <= u64::MAX,
        PlaybackState::Paused(None) => time + prewait <= u64::MAX,
        PlaybackState::Paused(Some(d)) => if d.pos {
            d.elapsed@ <= time
        } else {
            time + d.elapsed@ <= u64::MAX
        },
        _ => true,
    }
}

/// What executing an action in state `s` at `time` does: a loaded action (or
/// one paused before it started running) runs after its pre-wait; one paused
/// while running resumes where it was (its start moved back by the time that
/// had elapsed, or forward by the time that was left before its start).
pub open spec fn execute_step_spec(s: PlaybackState, time: u64, prewait: nat) -> ExecuteStep {
    match s {
        PlaybackState::Loading => ExecuteStep::StartWhenLoaded,
        PlaybackState::Loaded => ExecuteStep::Run((time + prewait) as u64),
        PlaybackState::Paused(None) => ExecuteStep::Run((time + prewait) as u64),
        PlaybackState::Paused(Some(d)) => ExecuteStep::Run(
            if d.pos {
                (time - d.elapsed@) as u64
            } else {
                (time + d.elapsed@) as u64
            },
        ),
        PlaybackState::Active(_) => ExecuteStep::AlreadyActive,
        PlaybackState::Inactive => ExecuteStep::LoadFirst,
        _ => ExecuteStep::Refuse,
    }
}

fn duration_nanos(d: &Duration) -> (n: u64)
    requires
        d@ <= u64::MAX,
    ensures
        n == d@,
{
    let secs = d.as_secs();
    let sub = d.subsec_nanos();
    assert(secs * NANOS_PER_SEC <= d@) by (nonlinear_arith)
        requires
            secs == d@ / (NANOS_PER_SEC as nat),
    ;
    (sub as u64) + secs * NANOS_PER_SEC
}

/// Decides what executing an action in state `s` at `time` does (see
/// `execute_step_spec`).
pub fn execute_step(s: &PlaybackState, time: u64, prewait: &Duration) -> (r: ExecuteStep)
    requires
        execute_fits(*s, time, prewait@),
    ensures
        r == execute_step_spec(*s, time, prewait@),
{
    match s {
        PlaybackState::Loading => ExecuteStep::StartWhenLoaded,
        PlaybackState::Loaded | PlaybackState::Paused(None) => {
            let p = duration_nanos(prewait);
            ExecuteStep::Run(time + p)
        },
        PlaybackState::Paused(Some(dur)) => {
            let delta = duration_nanos(&dur.elapsed);
            if dur.pos {
                ExecuteStep::Run(time - delta)
            } else {
                ExecuteStep::Run(time + delta)
            }
        },
        PlaybackState::Active(_) => ExecuteStep::AlreadyActive,
        PlaybackState::Inactive => ExecuteStep::LoadFirst,
        _ => ExecuteStep::Refuse,
    }
}

/// How long, in milliseconds, a running action waits before it next reports
/// its progress: until the next whole second of its elapsed time (counting
/// up) or of the time left before it starts (counting down), plus a second if
/// that is less than half a second away; a second if its progress is unknown.
pub open spec fn poll_delay_spec(elapsed: Option<(nat, bool)>) -> nat {
    match elapsed {
        None => 1000,
        Some((n, pos)) => {
            let sub = n % (NANOS_PER_SEC as nat);
            let delta: nat = if pos { (NANOS_PER_SEC - sub) as nat } else { sub };
            let ms = delta / 1_000_000;
            if ms < 500 { ms + 1000 } else { ms }
        },
    }
}

/// Decides how long a running action waits before it next reports its
/// progress (see `poll_delay_spec`), given its elapsed time and whether it
/// counts up, if known.
pub fn poll_delay_millis(elapsed: Option<(Duration, bool)>) -> (ms: u32)
    ensures
        ms == poll_delay_spec(
            match elapsed {
                Some((d, pos)) => Some((d@, pos)),
                None => None,
            },
        ),
{
    match elapsed {
        Some((d, pos)) => {
            let sub = d.subsec_nanos();
            let delta = if pos { NANOS_PER_SEC as u32 - sub } else { sub };
            let mut ms = delta / 1_000_000;
            if ms < 500 {
                ms = 1000 + ms;
            }
            ms
        },
        None => 1000,
    }
}

/// What a poll of an action does with the timer that paces its progress
/// reports.
#[derive(Clone, Copy, Debug, PartialEq, Eq)]
pub enum TimerStep {
    /// Start a new timer of this many milliseconds.
    Rearm(u32),
    /// Forget the timer.
    Clear,
    /// Leave the timer as it is.
    Keep,
}

/// What a poll does, given the status of the progress timer (after it was
/// looked at), the action's state and progress, and whether the action's
/// controller itself wants to be polled again: a timer that went off is
/// started again (see `poll_delay_spec`) while the action is running, and
/// forgotten otherwise; the action is polled again while a timer runs or was
/// started again, or when its controller asks for it.
pub open spec fn poll_step_spec<T>(
    timer: AsyncResult<T>,
    state: PlaybackState,
    elapsed: Option<(nat, bool)>,
    controller_wants: bool,
) -> (TimerStep, bool) {
    match timer {
        AsyncResult::Result(_) => if state is Active {
            (TimerStep::Rearm(poll_delay_spec(elapsed) as u32), true)
        } else {
            (TimerStep::Clear, controller_wants)
        },
        AsyncResult::Waiting => (TimerStep::Keep, true),
        AsyncResult::Empty => (TimerStep::Keep, controller_wants),
    }
}

/// Decides what a poll of an action does (see `poll_step_spec`).
pub fn poll_step<T>(
    timer: &AsyncResult<T>,
    state: &PlaybackState,
    elapsed: Option<(Duration, bool)>,
    controller_wants: bool,
) -> (r: (TimerStep, bool))
    ensures
        r == poll_step_spec(
            *timer,
            *state,
            match elapsed {
                Some((d, pos)) => Some((d@, pos)),
                None => None,
            },
            controller_wants,
        ),
{
    let mut continue_polling = false;
    let mut step = TimerStep::Keep;
    if timer.is_complete() {
        if let PlaybackState::Active(_) = state {
            step = TimerStep::Rearm(poll_delay_millis(elapsed));
            continue_polling = true;
        } else {
            step = TimerStep::Clear;
        }
    } else if timer.is_waiting() {
        continue_polling = true;
    }
    if !continue_polling {
        continue_polling = controller_wants;
    }
    (step, continue_polling)
}

/// What executing does in each state, at `time` with a pre-wait of `prewait`
/// nanoseconds: a loaded action, and one paused before it started running,
/// run once the pre-wait is over (`time + prewait`); one paused while counting
/// up resumes as though it had started `elapsed` ago, and one paused while
/// counting down to its start keeps the time that was left; one loading
/// starts once loaded; a running one is left alone; an inactive one is loaded
/// first; an unverified or errored one is refused.
pub proof fn lemma_execute_steps(time: u64, prewait: nat, d: DurationInfo, e: Vec<ParameterError>, m: String)
    requires
        time + prewait <= u64::MAX,
        d.pos ==> d.elapsed@ <= time,
        !d.pos ==> time + d.elapsed@ <= u64::MAX,
    ensures
        execute_step_spec(PlaybackState::Loaded, time, prewait) == ExecuteStep::Run((time + prewait) as u64),
        execute_step_spec(PlaybackState::Paused(None), time, prewait) == ExecuteStep::Run((time + prewait) as u64),
        d.pos ==> execute_step_spec(PlaybackState::Paused(Some(d)), time, prewait) == ExecuteStep::Run(
            (time - d.elapsed@) as u64,
        ),
        !d.pos ==> execute_step_spec(PlaybackState::Paused(Some(d)), time, prewait) == ExecuteStep::Run(
            (time + d.elapsed@) as u64,
        ),
        execute_step_spec(PlaybackState::Loading, time, prewait) == ExecuteStep::StartWhenLoaded,
        execute_step_spec(PlaybackState::Active(Some(d)), time, prewait) == ExecuteStep::AlreadyActive,
        execute_step_spec(PlaybackState::Active(None), time, prewait) == ExecuteStep::AlreadyActive,
        execute_step_spec(PlaybackState::Inactive, time, prewait) == ExecuteStep::LoadFirst,
        execute_step_spec(PlaybackState::Unverified(e), time, prewait) == ExecuteStep::Refuse,
        execute_step_spec(PlaybackState::Errored(m), time, prewait) == ExecuteStep::Refuse,
        execute_fits(PlaybackState::Loaded, time, prewait),
        execute_fits(PlaybackState::Paused(None), time, prewait),
        execute_fits(PlaybackState::Paused(Some(d)), time, prewait),
{
}

/// Which requested changes of state are taken: a change to `Errored` always
/// is; from `Inactive`, `Unverified` or `Errored` no other is; from loading,
/// loaded, active or paused, a change to `Inactive` resets the action, one to
/// `Unverified` is refused as the wrong change, and one to loading, loaded,
/// active or paused is taken.
pub proof fn lemma_state_changes(cur: PlaybackState, ps: PlaybackState)
    ensures
        ps is Errored ==> state_change_spec(cur, ps) == StateChangeOutcome::Apply,
        (cur is Inactive || cur is Unverified || cur is Errored) && !(ps is Errored) ==> state_change_spec(cur, ps)
            == StateChangeOutcome::Refused,
        (cur is Loading || cur is Loaded || cur is Active || cur is Paused) ==> {
            &&& ps is Inactive ==> state_change_spec(cur, ps) == StateChangeOutcome::Reset
            &&& ps is Unverified ==> state_change_spec(cur, ps) == StateChangeOutcome::WrongChange
            &&& (ps is Loading || ps is Loaded || ps is Active || ps is Paused) ==> state_change_spec(cur, ps)
                == StateChangeOutcome::Apply
        },
{
}

/// A running action reports its progress again after between half a second
/// and a second and a half; one whose progress is unknown, after a second.
pub proof fn lemma_poll_delay_bounds(elapsed: Option<(nat, bool)>)
    ensures
        elapsed is None ==> poll_delay_spec(elapsed) == 1000,
        elapsed is Some ==> 500 <= poll_delay_spec(elapsed) < 1500,
{
    if let Some((n, pos)) = elapsed {
        let sub = n % (NANOS_PER_SEC as nat);
        assert(sub < 1_000_000_000);
        let delta: nat = if pos { (NANOS_PER_SEC - sub) as nat } else { sub };
        assert(delta <= 1_000_000_000);
        assert(delta / 1_000_000 <= 1000) by (nonlinear_arith)
            requires
                delta <= 1_000_000_000,
        ;
    }
}

} // verus!
