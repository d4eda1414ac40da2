//! Requests for waveform overviews of audio files: when one is started, and
//! which part of the file it covers.
use vstd::prelude::*;
use crate::duration::Duration;
use crate::errors::BackendError;
use crate::audio::{FileUrl, parse_url, url_outcome};
use crate::actions::Uuid;

verus! {

/// A request for a waveform overview of (part of) an audio file.
#[derive(Clone, Debug, PartialEq)]
pub struct WaveformRequest {
    /// The URL of the file.
    pub file: String,
    /// How many samples each point of the overview sums up.
    pub samples_per_pixel: u32,
    /// Where to start (the start of the file if absent).
    pub range_start: Option<Duration>,
    /// Where to end (the end of the file if absent).
    pub range_end: Option<Duration>,
}

/// What to do with a waveform request for an action.
#[derive(Debug, PartialEq)]
pub enum WaveformStep {
    /// A request for this action is already being worked on: nothing.
    InProgress,
    /// The overview for this action was made before: send it to every client
    /// again.
    Resend,
    /// Open this file and make the overview.
    Open(FileUrl),
    /// The request fails with this error.
    Fail(BackendError),
}

/// Decides what to do with a waveform request for an action, given whether one
/// is in progress for it and whether one was completed for it.
pub fn waveform_step(in_progress: bool, completed: bool, req: &WaveformRequest) -> (r: WaveformStep)
    ensures
        in_progress ==> r == WaveformStep::InProgress,
        !in_progress && completed ==> r == WaveformStep::Resend,
        !in_progress && !completed ==> match r {
            WaveformStep::Open(f) => url_outcome(req.file@, Ok(f)),
            WaveformStep::Fail(e) => url_outcome(req.file@, Err(e)),
            _ => false,
        },
{
    if in_progress {
        return WaveformStep::InProgress;
    }
    if completed {
        return WaveformStep::Resend;
    }
    match parse_url(req.file.as_str()) {
        Ok(f) => WaveformStep::Open(f),
        Err(e) => WaveformStep::Fail(e),
    }
}

/// The part of a file of length `file_len` that a request covers: from its
/// start point (the start of the file if it gives none) to its end point (the
/// end of the file if it gives none). Refused when the part is empty or the
/// request asks for no samples per point.
pub fn waveform_range(req: &WaveformRequest, file_len: Duration) -> (r: Result<(Duration, Duration), BackendError>)
    ensures
        ({
            let start = match req.range_start { Some(s) => s@, None => 0 };
            let end = match req.range_end { Some(e) => e@, None => file_len@ };
            if start >= end {
                r matches Err(BackendError::Msg(m))
                    && m@ == "Waveform request start point is greater than or equal to end point."@
            } else if req.samples_per_pixel == 0 {
                r matches Err(BackendError::Msg(m)) && m@ == "Waveform request asks for no samples."@
            } else {
                r matches Ok((s, e)) && s@ == start && e@ == end
            }
        }),
{
    let start = match req.range_start {
        Some(s) => s,
        None => Duration::zero(),
    };
    let end = match req.range_end {
        Some(e) => e,
        None => file_len,
    };
    if !start.lt(&end) {
        return Err(BackendError::msg("Waveform request start point is greater than or equal to end point."));
    }
    if req.samples_per_pixel == 0 {
        return Err(BackendError::msg("Waveform request asks for no samples."));
    }
    Ok((start, end))
}

/// The waveform requests the server keeps track of: those being worked on,
/// and those whose overview was made (and is kept, to be sent again), each
/// by the UUID it was asked for under.
pub struct WaveformRegistry {
    active: Vec<Uuid>,
    completed: Vec<Uuid>,
}

/// What the server does with a waveform request.
#[derive(Debug, PartialEq)]
pub enum WaveformOutcome {
    /// One is already being worked on under this UUID: nothing.
    InProgress,
    /// The overview under this UUID was made before: send it to every client
    /// again.
    Resend,
    /// The file must be opened first: look again with its length.
    NeedLength(FileUrl),
    /// Work on the overview of this part of the file (start, end) has begun.
    Started(Duration, Duration),
    /// The request fails with this error.
    Fail(BackendError),
}

/// The result of looking at a waveform request under `uu` (see
/// `WaveformRegistry::execute_request`), with `active` and `completed` the
/// requests being worked on and done, and `file_len` the length of the file
/// once it was opened (or why it could not be).
pub open spec fn waveform_outcome(
    active: Set<Uuid>,
    completed: Set<Uuid>,
    uu: Uuid,
    req: WaveformRequest,
    file_len: Option<Result<Duration, BackendError>>,
    r: WaveformOutcome,
) -> bool {
    if active.contains(uu) {
        r == WaveformOutcome::InProgress
    } else if completed.contains(uu) {
        r == WaveformOutcome::Resend
    } else {
        match r {
            WaveformOutcome::Fail(e) => url_outcome(req.file@, Err(e)) || exists|f: FileUrl|
                url_outcome(req.file@, Ok(f)) && #[trigger] range_failure(req, file_len, e),
            WaveformOutcome::NeedLength(f) => url_outcome(req.file@, Ok(f)) && file_len is None,
            WaveformOutcome::Started(st, en) => exists|f: FileUrl| #[trigger] url_outcome(req.file@, Ok(f))
                && range_started(req, file_len, st, en),
            _ => false,
        }
    }
}

/// The start and end points that a request covers in a file of length
/// `len`.
pub open spec fn covered(req: WaveformRequest, len: Duration) -> (nat, nat) {
    (
        match req.range_start { Some(s) => s@, None => 0 },
        match req.range_end { Some(e) => e@, None => len@ },
    )
}

/// Why a request fails once the file was opened (or could not be): the error
/// opening it gave, an empty part, or no samples asked for.
pub open spec fn range_failure(req: WaveformRequest, file_len: Option<Result<Duration, BackendError>>, e: BackendError) -> bool {
    match file_len {
        Some(Err(oe)) => e == oe,
        Some(Ok(len)) => {
            let (start, end) = covered(req, len);
            if start >= end {
                e matches BackendError::Msg(m)
                    && m@ == "Waveform request start point is greater than or equal to end point."@
            } else {
                req.samples_per_pixel == 0 && (e matches BackendError::Msg(m) && m@
                    == "Waveform request asks for no samples."@)
            }
        },
        None => false,
    }
}

/// Work starts on the part (`st`, `en`) of the file, which has a length, a
/// nonempty part, and samples asked for.
pub open spec fn range_started(req: WaveformRequest, file_len: Option<Result<Duration, BackendError>>, st: Duration, en: Duration) -> bool {
    match file_len {
        Some(Ok(len)) => {
            let (start, end) = covered(req, len);
            start < end && req.samples_per_pixel != 0 && st@ == start && en@ == end
        },
        _ => false,
    }
}

impl WaveformRegistry {
    /// No UUID is listed twice.
    #[verifier::type_invariant]
    closed spec fn wf(self) -> bool {
        self.active@.no_duplicates() && self.completed@.no_duplicates()
    }

    /// The requests being worked on.
    pub closed spec fn active(self) -> Set<Uuid> {
        self.active@.to_set()
    }

    /// The requests whose overview was made.
    pub closed spec fn completed(self) -> Set<Uuid> {
        self.completed@.to_set()
    }

    /// A registry with nothing in it.
    pub fn new() -> (r: Self)
        ensures
            r.active() == Set::<Uuid>::empty(),
            r.completed() == Set::<Uuid>::empty(),
    {
        let r = WaveformRegistry { active: Vec::new(), completed: Vec::new() };
        proof {
            assert(r.active@.to_set() =~= Set::<Uuid>::empty());
            assert(r.completed@.to_set() =~= Set::<Uuid>::empty());
        }
        r
    }

    /// Looks at a waveform request under `uu`: one being worked on is left
    /// alone, a finished one is sent again; otherwise the file's URL is read
    /// and, once the file's length is known (`file_len`: what opening it gave),
    /// the part to cover is checked and work begins, the request being
    /// recorded as in progress. Nothing else changes.
    pub fn execute_request(
        &mut self,
        uu: Uuid,
        req: &WaveformRequest,
        file_len: Option<Result<Duration, BackendError>>,
    ) -> (r: WaveformOutcome)
        ensures
            waveform_outcome(old(self).active(), old(self).completed(), uu, *req, file_len, r),
            final(self).active() == if r is Started {
                old(self).active().insert(uu)
            } else {
                old(self).active()
            },
            final(self).completed() == old(self).completed(),
    {
        proof {
            use_type_invariant(&*self);
        }
        let in_progress = contains(&self.active, uu);
        let done = contains(&self.completed, uu);
        let f = match waveform_step(in_progress, done, req) {
            WaveformStep::InProgress => return WaveformOutcome::InProgress,
            WaveformStep::Resend => return WaveformOutcome::Resend,
            WaveformStep::Fail(e) => return WaveformOutcome::Fail(e),
            WaveformStep::Open(f) => f,
        };
        let len = match file_len {
            None => return WaveformOutcome::NeedLength(f),
            Some(Err(e)) => return WaveformOutcome::Fail(e),
            Some(Ok(len)) => len,
        };
        match waveform_range(req, len) {
            Err(e) => WaveformOutcome::Fail(e),
            Ok((st, en)) => {
                proof {
                    lemma_push_fresh(self.active@, uu);
                }
                let mut a = Vec::new();
                std::mem::swap(&mut a, &mut self.active);
                a.push(uu);
                self.active = a;
                WaveformOutcome::Started(st, en)
            },
        }
    }

    /// Work on the request under `uu` ended: it is no longer in progress, and
    /// if it succeeded its overview is kept.
    pub fn finish(&mut self, uu: Uuid, succeeded: bool)
        ensures
            final(self).active() == old(self).active().remove(uu),
            final(self).completed() == if succeeded {
                old(self).completed().insert(uu)
            } else {
                old(self).completed()
            },
    {
        proof {
            use_type_invariant(&*self);
        }
        match position(&self.active, uu) {
            Some(i) => {
                proof {
                    lemma_remove_unique(self.active@, i as int);
                }
                let mut a = Vec::new();
                std::mem::swap(&mut a, &mut self.active);
                a.remove(i);
                self.active = a;
            },
            None => {
                proof {
                    assert(self.active@.to_set() =~= self.active@.to_set().remove(uu));
                }
            },
        }
        if succeeded && !contains(&self.completed, uu) {
            proof {
                lemma_push_fresh(self.completed@, uu);
            }
            let mut c = Vec::new();
            std::mem::swap(&mut c, &mut self.completed);
            c.push(uu);
            self.completed = c;
        } else if succeeded {
            proof {
                assert(self.completed@.to_set() =~= self.completed@.to_set().insert(uu));
            }
        }
    }
}

/// Where `v` holds `u`, if it does.
fn position(v: &Vec<Uuid>, u: Uuid) -> (r: Option<usize>)
    ensures
        r matches Some(i) ==> i < v@.len() && v@[i as int] == u,
        r is None ==> !v@.to_set().contains(u),
{
    let mut i: usize = 0;
    while i < v.len()
        invariant
            i <= v@.len(),
            forall|j: int| 0 <= j < i ==> v@[j] != u,
        decreases v@.len() - i,
    {
        if v[i] == u {
            return Some(i);
        }
        i = i + 1;
    }
    None
}

/// Whether `v` holds `u`.
fn contains(v: &Vec<Uuid>, u: Uuid) -> (b: bool)
    ensures
        b == v@.to_set().contains(u),
{
    let mut i: usize = 0;
    while i < v.len()
        invariant
            i <= v@.len(),
            forall|j: int| 0 <= j < i ==> v@[j] != u,
        decreases v@.len() - i,
    {
        if v[i] == u {
            assert(v@.contains(u));
            return true;
        }
        i = i + 1;
    }
    false
}

/// Adding a UUID that is not there keeps a list without repeats, and adds it
/// to the set.
proof fn lemma_push_fresh(s: Seq<Uuid>, u: Uuid)
    requires
        s.no_duplicates(),
        !s.to_set().contains(u),
    ensures
        s.push(u).no_duplicates(),
        s.push(u).to_set() == s.to_set().insert(u),
{
    s.lemma_push_to_set_commute(u);
    assert forall|i: int, j: int| 0 <= i < j < s.push(u).len() implies s.push(u)[i] != s.push(u)[j] by {
        if j == s.len() {
            assert(s.contains(s[i]));
        }
    }
}

/// Removing the entry at `i` of a list without repeats removes it from the
/// set, and keeps the list without repeats.
proof fn lemma_remove_unique(s: Seq<Uuid>, i: int)
    requires
        s.no_duplicates(),
        0 <= i < s.len(),
    ensures
        s.remove(i).no_duplicates(),
        s.remove(i).to_set() == s.to_set().remove(s[i]),
{
    let t = s.remove(i);
    assert forall|a: int, b: int| 0 <= a < b < t.len() implies t[a] != t[b] by {
        let sa = if a < i { a } else { a + 1 };
        let sb = if b < i { b } else { b + 1 };
        assert(t[a] == s[sa] && t[b] == s[sb]);
    }
    assert forall|x: Uuid| #[trigger] t.to_set().contains(x) <==> s.to_set().remove(s[i]).contains(x) by {
        if t.contains(x) {
            let k = choose|k: int| 0 <= k < t.len() && t[k] == x;
            let sk = if k < i { k } else { k + 1 };
            assert(s[sk] == x);
            assert(sk != i);
        }
        if s.to_set().remove(s[i]).contains(x) {
            let k = choose|k: int| 0 <= k < s.len() && s[k] == x;
            assert(k != i);
            let tk = if k < i { k } else { k - 1 };
            assert(t[tk] == x);
        }
    }
    assert(t.to_set() =~= s.to_set().remove(s[i]));
}

/// Once work on a request has started, the same request is seen as in
/// progress; once it has finished well, it is sent again rather than redone.
pub proof fn lemma_waveform_lifecycle(
    r0: WaveformRegistry,
    uu: Uuid,
    req: WaveformRequest,
    r1: WaveformRegistry,
    r2: WaveformRegistry,
    file_len: Option<Result<Duration, BackendError>>,
    out: WaveformOutcome,
)
    requires
        r1.active() == r0.active().insert(uu),
        r1.completed() == r0.completed(),
        r2.active() == r1.active().remove(uu),
        r2.completed() == r1.completed().insert(uu),
    ensures
        waveform_outcome(r1.active(), r1.completed(), uu, req, file_len, out) <==> out == WaveformOutcome::InProgress,
        waveform_outcome(r2.active(), r2.completed(), uu, req, file_len, out) <==> out == WaveformOutcome::Resend,
{
    assert(r1.active().contains(uu));
    assert(!r2.active().contains(uu));
    assert(r2.completed().contains(uu));
}

} // verus!
