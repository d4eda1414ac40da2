//! Audio actions: reading the URL of the file to play, checking their
//! parameters, fitting their channels to the file, and describing them.
use vstd::prelude::*;
use crate::actions::{AudioChannel, AudioParams, ParameterError, Uuid};
use crate::errors::{BackendError, error_message};
use crate::fade::problem_texts;
use crate::text::{decimal, push_decimal};

verus! {

/// What `url::Url::parse` makes of a string: its scheme and its path, or the
/// `Debug` form of the crate's error.
pub uninterp spec fn url_parts(s: Seq<char>) -> Result<(Seq<char>, Seq<char>), Seq<char>>;

/// Parses a URL into its scheme and path.
///
/// Calls `url::Url::parse`, then `scheme` and `path` on the result. Claims that
/// the result is `url_parts` of the string.
#[verifier::external_body]
fn parse_url_parts(s: &str) -> (r: Result<(String, String), String>)
    ensures
        match url_parts(s@) {
            Ok((scheme, path)) => r matches Ok((a, b)) && a@ == scheme && b@ == path,
            Err(e) => r matches Err(m) && m@ == e,
        },
{
    match url::Url::parse(s) {
        Ok(u) => Ok((u.scheme().to_string(), u.path().to_string())),
        Err(e) => Err(format!("{:?}", e)),
    }
}

/// What `percent_decode(..).decode_utf8_lossy()` of `url::percent_encoding`
/// makes of a string's bytes.
pub uninterp spec fn percent_decoded(s: Seq<char>) -> Seq<char>;

/// Decodes the percent-escapes of a string.
///
/// Calls `url::percent_encoding::percent_decode` on the string's bytes and
/// `decode_utf8_lossy` on the result. Claims that the result is
/// `percent_decoded` of the string.
#[verifier::external_body]
fn percent_decode_text(s: &str) -> (r: String)
    ensures
        r@ == percent_decoded(s@),
{
    url::percent_encoding::percent_decode(s.as_bytes()).decode_utf8_lossy().into_owned()
}

/// What `std::path::Path::file_name` gives for a path: its last component, if
/// it has one.
pub uninterp spec fn path_file_name(p: Seq<char>) -> Option<Seq<char>>;

/// The last component of a path, if it has one.
///
/// Calls `std::path::Path::file_name` (and `to_string_lossy` on the result).
/// Claims that the result is `path_file_name` of the path.
#[verifier::external_body]
pub(crate) fn file_name_of(p: &str) -> (r: Option<String>)
    ensures
        match path_file_name(p@) {
            Some(n) => r matches Some(s) && s@ == n,
            None => r is None,
        },
{
    match std::path::Path::new(p).file_name() {
        Some(n) => Some(n.to_string_lossy().into_owned()),
        None => None,
    }
}

/// The file an audio action plays: its path, and the last component of that
/// path.
#[derive(Clone, Debug, PartialEq)]
pub struct FileUrl {
    pub path: String,
    pub file_name: String,
}

/// What reading a URL as the file to play gives: the URL must parse, have the
/// `file` scheme, and name a file (its path, percent-decoded, must have a
/// last component).
pub open spec fn url_outcome(s: Seq<char>, r: Result<FileUrl, BackendError>) -> bool {
    match url_parts(s) {
        Err(e) => r matches Err(BackendError::Url(m)) && m@ == e,
        Ok((scheme, path)) => if scheme != "file"@ {
            r matches Err(BackendError::Msg(m)) && m@ == "The URL scheme "@ + scheme
                + " is not yet supported; only file:// URLs currently work."@
        } else {
            match path_file_name(percent_decoded(path)) {
                None => r matches Err(BackendError::Msg(m)) && m@ == "The URL provided contains no file name."@,
                Some(n) => r matches Ok(f) && f.path@ == percent_decoded(path) && f.file_name@ == n,
            }
        },
    }
}

/// Reads a URL as the file to play (see `url_outcome`).
pub fn parse_url(st: &str) -> (r: Result<FileUrl, BackendError>)
    ensures
        url_outcome(st@, r),
{
    let (scheme, path) = match parse_url_parts(st) {
        Ok(parts) => parts,
        Err(e) => return Err(BackendError::Url(e)),
    };
    let file = String::from_str("file");
    if scheme != file {
        let mut m = String::from_str("The URL scheme ");
        m.append(scheme.as_str());
        m.append(" is not yet supported; only file:// URLs currently work.");
        return Err(BackendError::Msg(m));
    }
    let decoded = percent_decode_text(path.as_str());
    match file_name_of(decoded.as_str()) {
        None => Err(BackendError::msg("The URL provided contains no file name.")),
        Some(n) => Ok(FileUrl { path: decoded, file_name: n }),
    }
}

/// The description of an audio action, given what its URL was read as (if it
/// has one).
pub open spec fn audio_desc_text(url: Option<Result<FileUrl, BackendError>>) -> Seq<char> {
    match url {
        Some(Ok(f)) => "Play audio at "@ + f.file_name@,
        _ => "Play audio [invalid]"@,
    }
}

/// Describes an audio action.
pub fn audio_desc(url: &Option<Result<FileUrl, BackendError>>) -> (s: String)
    ensures
        s@ == audio_desc_text(*url),
{
    match url {
        Some(Ok(f)) => {
            let mut s = String::from_str("Play audio at ");
            s.append(f.file_name.as_str());
            s
        },
        _ => String::from_str("Play audio [invalid]"),
    }
}

/// The problems with the channel patches: one for each channel patched to a
/// mixer channel that does not exist, by its number.
pub open spec fn patch_problems(chans: Seq<AudioChannel>, known: Seq<Uuid>) -> Seq<(Seq<char>, Seq<char>)>
    decreases chans.len(),
{
    if chans.len() == 0 {
        Seq::empty()
    } else {
        let prev = patch_problems(chans.drop_last(), known);
        match chans.last().patch {
            Some(u) => if known.contains(u) {
                prev
            } else {
                prev.push(("chans"@, "Channel "@ + decimal((chans.len() - 1) as nat) + " does not exist."@))
            },
            None => prev,
        }
    }
}

/// The problems with an audio action's parameters, as (parameter, message)
/// pairs in the order they are reported. `url` is what the action's URL was
/// read as, `file` what opening the file gave (its channel count, or the
/// message of the error), and `known` the mixer's channels.
pub open spec fn audio_problems(
    p: AudioParams,
    url: Option<Result<FileUrl, BackendError>>,
    file: Option<Result<usize, String>>,
    known: Seq<Uuid>,
) -> Seq<(Seq<char>, Seq<char>)> {
    if p.url is None {
        seq![("url"@, "This field is required."@)]
    } else if let Some(Err(e)) = url {
        seq![("url"@, "Invalid URL: "@ + error_message(e))]
    } else {
        match file {
            None => seq![("url"@, "Internal error: no file opened!"@)],
            Some(Err(m)) => seq![("url"@, "Error opening URL: "@ + m@)] + patch_problems(p.chans@, known),
            Some(Ok(n)) => {
                let zero = if n == 0 {
                    seq![("url"@, "What sort of file has exactly ZERO channels in it?!"@)]
                } else {
                    Seq::empty()
                };
                let fewer = if p.chans@.len() > n {
                    seq![("chans"@, "The file has fewer channels than expected (FIXME: better error message here)"@)]
                } else {
                    Seq::empty()
                };
                zero + fewer + patch_problems(p.chans@, known)
            },
        }
    }
}

fn problem(name: &str, err: String) -> (e: ParameterError)
    ensures
        e.name@ == name@,
        e.err@ == err@,
{
    ParameterError { name: String::from_str(name), err }
}

fn prefixed(prefix: &str, s: &str) -> (r: String)
    ensures
        r@ == prefix@ + s@,
{
    let mut r = String::from_str(prefix);
    r.append(s);
    r
}

/// Whether `u` is one of `known`.
fn is_known(known: &Vec<Uuid>, u: Uuid) -> (b: bool)
    ensures
        b == known@.contains(u),
{
    let mut i: usize = 0;
    while i < known.len()
        invariant
            i <= known@.len(),
            forall|j: int| 0 <= j < i ==> known@[j] != u,
        decreases known@.len() - i,
    {
        if known[i] == u {
            proof {
                assert(known@[i as int] == u);
            }
            return true;
        }
        i = i + 1;
    }
    false
}

/// Adds the problems with the channel patches to `ret`.
fn push_patch_problems(ret: &mut Vec<ParameterError>, chans: &Vec<AudioChannel>, known: &Vec<Uuid>)
    ensures
        problem_texts(final(ret)@) == problem_texts(old(ret)@) + patch_problems(chans@, known@),
{
    let ghost start = problem_texts(ret@);
    let mut i: usize = 0;
    proof {
        assert(chans@.take(0) =~= Seq::<AudioChannel>::empty());
        assert(problem_texts(ret@) =~= start + patch_problems(chans@.take(0), known@));
    }
    while i < chans.len()
        invariant
            i <= chans@.len(),
            problem_texts(ret@) == start + patch_problems(chans@.take(i as int), known@),
        decreases chans@.len() - i,
    {
        let ghost prev = ret@;
        proof {
            assert(chans@.take(i as int + 1).drop_last() =~= chans@.take(i as int));
            assert(chans@.take(i as int + 1).last() == chans@[i as int]);
        }
        if let Some(u) = chans[i].patch {
            if !is_known(known, u) {
                let mut m = String::from_str("Channel ");
                push_decimal(&mut m, i as u64);
                m.append(" does not exist.");
                ret.push(problem("chans", m));
                proof {
                    assert(problem_texts(ret@) =~= problem_texts(prev).push((ret@.last().name@, ret@.last().err@)));
                }
            }
        }
        i = i + 1;
        proof {
            assert(problem_texts(ret@) =~= start + patch_problems(chans@.take(i as int), known@));
        }
    }
    proof {
        assert(chans@.take(chans@.len() as int) =~= chans@);
    }
}

/// Checks an audio action's parameters (see `audio_problems`).
pub fn audio_verify_params(
    p: &AudioParams,
    url: &Option<Result<FileUrl, BackendError>>,
    file: &Option<Result<usize, String>>,
    known: &Vec<Uuid>,
) -> (r: Vec<ParameterError>)
    ensures
        problem_texts(r@) == audio_problems(*p, *url, *file, known@),
{
    let mut ret: Vec<ParameterError> = Vec::new();
    if p.url.is_none() {
        ret.push(problem("url", String::from_str("This field is required.")));
        proof {
            assert(problem_texts(ret@) =~= audio_problems(*p, *url, *file, known@));
        }
        return ret;
    }
    if let Some(Err(e)) = url {
        let m = e.message();
        ret.push(problem("url", prefixed("Invalid URL: ", m.as_str())));
        proof {
            assert(problem_texts(ret@) =~= audio_problems(*p, *url, *file, known@));
        }
        return ret;
    }
    match file {
        None => {
            ret.push(problem("url", String::from_str("Internal error: no file opened!")));
            proof {
                assert(problem_texts(ret@) =~= audio_problems(*p, *url, *file, known@));
            }
            return ret;
        },
        Some(Err(m)) => {
            ret.push(problem("url", prefixed("Error opening URL: ", m.as_str())));
        },
        Some(Ok(n)) => {
            if *n == 0 {
                ret.push(problem("url", String::from_str("What sort of file has exactly ZERO channels in it?!")));
            }
            if p.chans.len() > *n {
                ret.push(problem(
                    "chans",
                    String::from_str("The file has fewer channels than expected (FIXME: better error message here)"),
                ));
            }
        },
    }
    let ghost before = problem_texts(ret@);
    push_patch_problems(&mut ret, &p.chans, known);
    proof {
        assert(problem_texts(ret@) =~= audio_problems(*p, *url, *file, known@));
    }
    ret
}

/// The channels of an audio action once its file, with `n` channels, is
/// opened: none given means one per file channel, patched to the mixer's
/// default channels in order (where there are enough); fewer than the file has
/// are padded with unpatched channels; more are kept as they are.
pub open spec fn chans_for_file(chans: Seq<AudioChannel>, n: nat, defs: Seq<Uuid>) -> Seq<AudioChannel> {
    if chans.len() == 0 {
        Seq::new(n, |i: int| AudioChannel { patch: if i < defs.len() { Some(defs[i]) } else { None }, vol: 0 })
    } else if chans.len() < n {
        chans + Seq::new((n - chans.len()) as nat, |i: int| AudioChannel { patch: None, vol: 0 })
    } else {
        chans
    }
}

/// Fits an audio action's channels to a file with `n` channels (see
/// `chans_for_file`).
pub fn fit_chans(chans: Vec<AudioChannel>, n: usize, defs: &Vec<Uuid>) -> (r: Vec<AudioChannel>)
    ensures
        r@ == chans_for_file(chans@, n as nat, defs@),
{
    let mut chans = chans;
    if chans.len() == n {
        return chans;
    }
    if chans.len() == 0 {
        let mut i: usize = 0;
        while i < n
            invariant
                i <= n,
                chans@ == Seq::new(i as nat, |k: int| AudioChannel { patch: if k < defs@.len() { Some(defs@[k]) } else { None }, vol: 0 }),
            decreases n - i,
        {
            let patch = if i < defs.len() {
                Some(defs[i])
            } else {
                None
            };
            chans.push(AudioChannel { patch, vol: 0 });
            i = i + 1;
            proof {
                assert(chans@ =~= Seq::new(i as nat, |k: int| AudioChannel { patch: if k < defs@.len() { Some(defs@[k]) } else { None }, vol: 0 }));
            }
        }
        return chans;
    } else if chans.len() < n {
        let ghost orig = chans@;
        let len = chans.len();
        let mut k: usize = len;
        while k < n
            invariant
                len <= k <= n,
                len == orig.len(),
                chans@ == orig + Seq::new((k - len) as nat, |i: int| AudioChannel { patch: None, vol: 0 }),
            decreases n - k,
        {
            chans.push(AudioChannel { patch: None, vol: 0 });
            k = k + 1;
            proof {
                assert(chans@ =~= orig + Seq::new((k - len) as nat, |i: int| AudioChannel { patch: None, vol: 0 }));
            }
        }
    }
    chans
}


/// A message to the thread that feeds an audio file to the audio engine.
#[derive(Clone, Copy, Debug, PartialEq, Eq, Structural)]
pub enum SpoolerMessage {
    /// The engine has room for more samples.
    Wakeup,
    /// Stop feeding.
    Quit,
}

/// What the feeding thread does next.
#[derive(Clone, Copy, Debug, PartialEq, Eq, Structural)]
pub enum SpoolStep {
    /// Stop.
    Stop,
    /// Wait for the next message.
    Wait,
    /// Send what is left of the frame that did not fit last time.
    ResumeFrame,
    /// Read and send the next frames of the file.
    ReadFrames,
}

/// What the feeding thread does next, given the message it was woken with (if
/// any), whether the engine's buffer is full, and whether part of a frame is
/// still waiting to be sent: a quit stops it; a full buffer makes it wait;
/// otherwise it sends what is left of the waiting frame, or else reads on.
pub fn spool_step(msg: Option<SpoolerMessage>, buffer_full: bool, pending_frame: bool) -> (r: SpoolStep)
    ensures
        msg == Some(SpoolerMessage::Quit) ==> r == SpoolStep::Stop,
        msg != Some(SpoolerMessage::Quit) && buffer_full ==> r == SpoolStep::Wait,
        msg != Some(SpoolerMessage::Quit) && !buffer_full && pending_frame ==> r == SpoolStep::ResumeFrame,
        msg != Some(SpoolerMessage::Quit) && !buffer_full && !pending_frame ==> r == SpoolStep::ReadFrames,
{
    if let Some(SpoolerMessage::Quit) = msg {
        return SpoolStep::Stop;
    }
    if buffer_full {
        SpoolStep::Wait
    } else if pending_frame {
        SpoolStep::ResumeFrame
    } else {
        SpoolStep::ReadFrames
    }
}

/// How many samples of a frame fit in the engine's buffers now: the room left
/// in the first channel's buffer, for each channel.
pub fn frame_budget(capacity: usize, size: usize, channels: usize) -> (n: usize)
    requires
        size <= capacity,
        (capacity - size) * channels <= usize::MAX,
    ensures
        n == (capacity - size) * channels,
{
    (capacity - size) * channels
}

/// Every problem with the channel patches is about the channels, and its
/// message names a channel ("Channel ...").
proof fn lemma_patch_problems_name_channels(chans: Seq<AudioChannel>, known: Seq<Uuid>)
    ensures
        forall|j: int| 0 <= j < patch_problems(chans, known).len() ==> {
            let q = #[trigger] patch_problems(chans, known)[j];
            q.0 == "chans"@ && q.1.len() > 0 && q.1[0] == 'C'
        },
    decreases chans.len(),
{
    reveal_strlit("Channel ");
    if chans.len() > 0 {
        lemma_patch_problems_name_channels(chans.drop_last(), known);
        let prev = patch_problems(chans.drop_last(), known);
        let m = "Channel "@ + decimal((chans.len() - 1) as nat) + " does not exist."@;
        assert(m[0] == "Channel "@[0]);
        assert forall|j: int| 0 <= j < patch_problems(chans, known).len() implies {
            let q = #[trigger] patch_problems(chans, known)[j];
            q.0 == "chans"@ && q.1.len() > 0 && q.1[0] == 'C'
        } by {
            if j < prev.len() {
                assert(patch_problems(chans, known)[j] == prev[j]);
            }
        }
    }
}

/// When every patched channel is patched to a channel there is, there is no
/// patch problem.
proof fn lemma_patch_problems_none(chans: Seq<AudioChannel>, known: Seq<Uuid>)
    requires
        forall|i: int| 0 <= i < chans.len() ==> (#[trigger] chans[i].patch matches Some(u) ==> known.contains(u)),
    ensures
        patch_problems(chans, known).len() == 0,
    decreases chans.len(),
{
    if chans.len() > 0 {
        let c = chans.drop_last();
        assert forall|i: int| 0 <= i < c.len() implies (#[trigger] c[i].patch matches Some(u) ==> known.contains(u)) by {
            assert(c[i] == chans[i]);
        }
        lemma_patch_problems_none(c, known);
        assert(chans.last() == chans[chans.len() - 1]);
    }
}

/// The channel counts of an audio action whose URL is good, on a file that
/// opened with `n` channels: "fewer channels" is reported exactly when the
/// action has more channels than the file, and "ZERO channels" exactly when
/// the file has none; an action with at most as many channels as a file that
/// has some, each patched (if at all) to a channel there is, has no problem.
pub proof fn lemma_audio_channel_counts(
    p: AudioParams,
    url: Option<Result<FileUrl, BackendError>>,
    n: usize,
    known: Seq<Uuid>,
)
    requires
        p.url is Some,
        !(url matches Some(Err(_))),
    ensures
        audio_problems(p, url, Some(Ok(n)), known).contains(
            ("chans"@, "The file has fewer channels than expected (FIXME: better error message here)"@),
        ) <==> p.chans@.len() > n,
        audio_problems(p, url, Some(Ok(n)), known).contains(
            ("url"@, "What sort of file has exactly ZERO channels in it?!"@),
        ) <==> n == 0,
        n > 0 && p.chans@.len() <= n && (forall|i: int|
            0 <= i < p.chans@.len() ==> (#[trigger] p.chans@[i].patch matches Some(u) ==> known.contains(u)))
            ==> audio_problems(p, url, Some(Ok(n)), known).len() == 0,
{
    reveal_strlit("The file has fewer channels than expected (FIXME: better error message here)");
    reveal_strlit("What sort of file has exactly ZERO channels in it?!");
    reveal_strlit("url");
    reveal_strlit("chans");
    let fewer_msg = ("chans"@, "The file has fewer channels than expected (FIXME: better error message here)"@);
    let zero_msg = ("url"@, "What sort of file has exactly ZERO channels in it?!"@);
    let zero = if n == 0 { seq![zero_msg] } else { Seq::empty() };
    let fewer = if p.chans@.len() > n { seq![fewer_msg] } else { Seq::empty() };
    let pp = patch_problems(p.chans@, known);
    let all = audio_problems(p, url, Some(Ok(n)), known);
    assert(all == zero + fewer + pp);
    lemma_patch_problems_name_channels(p.chans@, known);
    assert("url"@ != "chans"@) by {
        assert("url"@.len() != "chans"@.len());
    }
    if p.chans@.len() > n {
        assert(all[zero.len() as int] == fewer_msg);
    }
    if n == 0 {
        assert(all[0] == zero_msg);
    }
    if all.contains(fewer_msg) {
        let i = choose|i: int| 0 <= i < all.len() && all[i] == fewer_msg;
        if i >= zero.len() + fewer.len() {
            assert(pp[i - zero.len() - fewer.len()] == all[i]);
            assert(fewer_msg.1[0] == 'T');
        } else if i >= zero.len() {
        } else {
            assert(all[i] == zero_msg);
        }
    }
    if all.contains(zero_msg) {
        let i = choose|i: int| 0 <= i < all.len() && all[i] == zero_msg;
        if i >= zero.len() + fewer.len() {
            assert(pp[i - zero.len() - fewer.len()] == all[i]);
        } else if i >= zero.len() {
            assert(all[i] == fewer_msg);
        }
    }
    if n > 0 && p.chans@.len() <= n && (forall|i: int|
        0 <= i < p.chans@.len() ==> (#[trigger] p.chans@[i].patch matches Some(u) ==> known.contains(u))) {
        lemma_patch_problems_none(p.chans@, known);
    }
}

/// An audio action without a URL has exactly one problem: its URL is
/// required.
pub proof fn lemma_url_required(
    p: AudioParams,
    url: Option<Result<FileUrl, BackendError>>,
    file: Option<Result<usize, String>>,
    known: Seq<Uuid>,
)
    requires
        p.url is None,
    ensures
        audio_problems(p, url, file, known) == seq![("url"@, "This field is required."@)],
{
}

/// Fitting channels to a file with `n` channels: an action with no channels
/// takes one per channel of the file, patched to the default channels in
/// order (unpatched past them), at level zero; one with fewer keeps its
/// channels and gains unpatched ones at level zero up to `n`; one with at
/// least `n` keeps its channels as they are.
pub proof fn lemma_fitted_channels(chans: Seq<AudioChannel>, n: nat, defs: Seq<Uuid>)
    ensures
        chans.len() == 0 ==> chans_for_file(chans, n, defs).len() == n && forall|i: int| 0 <= i < n ==> (
            #[trigger] chans_for_file(chans, n, defs)[i]).vol == 0 && chans_for_file(chans, n, defs)[i].patch == if i
                < defs.len() {
                Some(defs[i])
            } else {
                None
            },
        0 < chans.len() < n ==> chans_for_file(chans, n, defs).len() == n && chans_for_file(chans, n, defs).take(
            chans.len() as int,
        ) == chans && forall|i: int| chans.len() <= i < n ==> #[trigger] chans_for_file(chans, n, defs)[i] == (
            AudioChannel { patch: None, vol: 0 }),
        chans.len() >= n && chans.len() > 0 ==> chans_for_file(chans, n, defs) == chans,
{
    if 0 < chans.len() < n {
        assert(chans_for_file(chans, n, defs).take(chans.len() as int) =~= chans);
    }
}

} // verus!
