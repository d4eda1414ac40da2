//! Fade actions: checking their parameters, describing them, and timing them.
use vstd::prelude::*;
use crate::actions::{FadeLevel, FadeParams, ParameterError, PlaybackState};
use crate::pending::AsyncResult;
use crate::duration::{Duration, DurationInfo, DurationInfoInt, max_duration_nanos};

verus! {

/// What the server found when it looked up the target of a fade.
#[derive(Clone, Copy, Debug, PartialEq, Eq)]
pub enum TargetLookup {
    /// No action has the target's UUID.
    Missing,
    /// The target is an action, but not an audio action.
    NotAudio,
    /// The target is an audio action.
    Audio,
}

/// The problems with a fade's parameters, as (parameter, message) pairs in the
/// order they are reported; `lookup` is what the target turned out to be (it
/// does not matter when there is no target).
pub open spec fn fade_problems(p: FadeParams, lookup: TargetLookup) -> Seq<(Seq<char>, Seq<char>)> {
    let target = match p.target {
        None => seq![("target"@, "No target is specified."@)],
        Some(_) => match lookup {
            TargetLookup::Missing => seq![("target"@, "No action with that UUID is present."@)],
            TargetLookup::NotAudio => seq![("target"@, "You must target an audio action."@)],
            TargetLookup::Audio => Seq::empty(),
        },
    };
    if !p.fade_master.enabled {
        target.push(("fades"@, "Nothing is being faded."@))
    } else {
        target
    }
}

/// The (parameter, message) pairs of a list of parameter errors.
pub open spec fn problem_texts(v: Seq<ParameterError>) -> Seq<(Seq<char>, Seq<char>)> {
    v.map_values(|e: ParameterError| (e.name@, e.err@))
}

fn problem(name: &str, err: &str) -> (e: ParameterError)
    ensures
        e.name@ == name@,
        e.err@ == err@,
{
    ParameterError { name: String::from_str(name), err: String::from_str(err) }
}

/// Checks a fade's parameters: it needs a target, which must be an audio
/// action, and must fade the master level.
///
/// (Which channels are faded is folded over in a way that never finds fault,
/// so only the master level decides whether anything is being faded.)
pub fn fade_verify_params(p: &FadeParams, lookup: TargetLookup) -> (r: Vec<ParameterError>)
    ensures
        problem_texts(r@) == fade_problems(*p, lookup),
{
    let mut ret: Vec<ParameterError> = Vec::new();
    match p.target {
        Some(_) => match lookup {
            TargetLookup::Audio => {},
            TargetLookup::NotAudio => ret.push(problem("target", "You must target an audio action.")),
            TargetLookup::Missing => ret.push(problem("target", "No action with that UUID is present.")),
        },
        None => ret.push(problem("target", "No target is specified.")),
    }
    let mut acc = true;
    let mut i: usize = 0;
    while i < p.fades.len()
        invariant
            i <= p.fades@.len(),
            acc,
        decreases p.fades@.len() - i,
    {
        let elem = p.fades[i];
        acc = if elem.enabled && !acc {
            true
        } else {
            acc
        };
        i = i + 1;
    }
    if !p.fade_master.enabled && acc {
        ret.push(problem("fades", "Nothing is being faded."));
    }
    proof {
        assert(problem_texts(ret@) =~= fade_problems(*p, lookup));
    }
    ret
}

/// The fades of a fade action, padded with disabled fades (to level zero) up
/// to `chans` entries when its target has that many channels and the fades are
/// fewer.
pub open spec fn padded_fades(fades: Seq<FadeLevel>, chans: Option<usize>) -> Seq<FadeLevel> {
    match chans {
        Some(n) => if n > fades.len() {
            fades + Seq::new((n - fades.len()) as nat, |i: int| FadeLevel { enabled: false, level: 0 })
        } else {
            fades
        },
        None => fades,
    }
}

/// The parameters that setting `params` on a fade action keeps: its fades are
/// padded up to the channel count of the audio action it targeted before
/// (`target_chans`, when that target exists and is an audio action).
pub fn fade_params_to_set(params: FadeParams, target_chans: Option<usize>) -> (r: FadeParams)
    ensures
        r.fades@ == padded_fades(params.fades@, target_chans),
        r.target == params.target,
        r.fade_master == params.fade_master,
        r.dur == params.dur,
{
    let FadeParams { target, fades, fade_master, dur } = params;
    let mut fades = fades;
    if let Some(n) = target_chans {
        if n > fades.len() {
            let ghost orig = fades@;
            let len = fades.len();
            let mut k: usize = len;
            while k < n
                invariant
                    len <= k <= n,
                    len == orig.len(),
                    fades@ == orig + Seq::new((k - len) as nat, |i: int| FadeLevel { enabled: false, level: 0 }),
                decreases n - k,
            {
                fades.push(FadeLevel { enabled: false, level: 0 });
                k = k + 1;
                proof {
                    assert(fades@ =~= orig + Seq::new((k - len) as nat, |i: int| FadeLevel { enabled: false, level: 0 }));
                }
            }
        }
    }
    FadeParams { target, fades, fade_master, dur }
}

/// The description of a fade action: "Fade " and the name of its target (its
/// user-given name, or else its own description), when the target exists and
/// is an audio action; "Fade [invalid]" otherwise.
pub open spec fn fade_desc_text(target: Option<(Option<String>, String)>) -> Seq<char> {
    match target {
        Some((name, desc)) => "Fade "@ + match name {
            Some(n) => n@,
            None => desc@,
        },
        None => "Fade [invalid]"@,
    }
}

/// Describes a fade action, given the name and description of its target when
/// that target exists and is an audio action.
pub fn fade_desc(target: Option<(Option<String>, String)>) -> (s: String)
    ensures
        s@ == fade_desc_text(target),
{
    match target {
        Some((name, desc)) => {
            let mut s = String::from_str("Fade ");
            match name {
                Some(n) => s.append(n.as_str()),
                None => s.append(desc.as_str()),
            }
            s
        },
        None => String::from_str("Fade [invalid]"),
    }
}

/// How long, in nanoseconds, a fade of length `dur` scheduled to start at
/// `time` still has to run when the clock reads `now`: its length plus the
/// wait until it starts, or what is left of it once it has started (none once
/// it is over).
pub open spec fn fade_wait_nanos(time: u64, now: u64, dur: nat) -> nat {
    if time > now {
        dur + (time - now) as nat
    } else if (now - time) as nat > dur {
        0
    } else {
        (dur - (now - time)) as nat
    }
}

/// How long a fade of length `dur`, scheduled to start at `time`, still has to
/// run when the clock reads `now`. A fade with nothing left to run completes
/// at once.
pub fn fade_wait(time: u64, now: u64, dur: Duration) -> (d: Duration)
    requires
        time > now ==> dur@ + (time - now) <= max_duration_nanos(),
    ensures
        d@ == fade_wait_nanos(time, now, dur@),
{
    let positive = time > now;
    let delta = if positive {
        time - now
    } else {
        now - time
    };
    let elapsed = DurationInfo::nanos_to_dur(delta);
    if positive {
        dur.add_dur(&elapsed)
    } else if dur.lt(&elapsed) {
        Duration::zero()
    } else {
        dur.sub_dur(&elapsed)
    }
}

/// How far along a running fade is, when the clock reads `now`: the time since
/// it started (none if it starts later), when it starts, and its length.
pub fn fade_duration_info(start: u64, now: u64, dur: Duration) -> (r: DurationInfoInt)
    ensures
        r.duration@ == if start > now { 0 } else { (now - start) as nat },
        r.start_time == start,
        r.est_duration == Some(dur),
{
    let delta = if start > now {
        0
    } else {
        now - start
    };
    DurationInfoInt { duration: DurationInfo::nanos_to_dur(delta), start_time: start, est_duration: Some(dur) }
}

/// What polling a running fade does, given the timer that waits for its end:
/// once that timer has gone off the fade becomes inactive and wants no more
/// polling; until then it wants to be polled again.
pub fn fade_poll<T>(timer: &AsyncResult<T>) -> (r: (Option<PlaybackState>, bool))
    ensures
        timer is Result ==> r.0 == Some(PlaybackState::Inactive) && !r.1,
        !(timer is Result) ==> r.0 is None && r.1,
{
    if timer.is_complete() {
        (Some(PlaybackState::Inactive), false)
    } else {
        (None, true)
    }
}

/// A fade of length `dur` scheduled to start at `time` ends at `time + dur`:
/// when the clock reads `now`, what it still has to run brings the clock to
/// that end (or leaves it where it is, once the fade is over).
pub proof fn lemma_fade_ends_on_time(time: u64, now: u64, dur: nat)
    ensures
        now + fade_wait_nanos(time, now, dur) == if time + dur >= now { time + dur } else { now as int },
{
}

/// A fade's parameters have no problem exactly when it has a target, that
/// target is an audio action, and it fades the master level; a fade with no
/// target is told so first.
pub proof fn lemma_fade_problems(p: FadeParams, lookup: TargetLookup)
    ensures
        fade_problems(p, lookup).len() == 0 <==> (p.target is Some && lookup == TargetLookup::Audio
            && p.fade_master.enabled),
        p.target is None ==> fade_problems(p, lookup)[0] == ("target"@, "No target is specified."@),
        !p.fade_master.enabled ==> fade_problems(p, lookup).last() == ("fades"@, "Nothing is being faded."@),
{
}

} // verus!
