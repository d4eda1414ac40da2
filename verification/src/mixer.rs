//! The mixer's configuration: its output channels, how each is patched, and
//! its default channels; and the decisions made when a new configuration is
//! applied.
use vstd::prelude::*;
use crate::actions::Uuid;
use crate::copies::{copy_channels, copy_vec};
use crate::text::{decimal, push_decimal};

verus! {

/// An output channel of the mixer.
#[derive(Clone, Debug, PartialEq)]
pub struct Channel {
    /// The channel's (JACK port) name.
    pub name: String,
    pub uuid: Uuid,
    /// The channel's number in the audio engine.
    pub eid: usize,
    /// The name of the port the channel is connected to, if any.
    pub patch: Option<String>,
}

/// The whole mixer configuration.
#[derive(Clone, Debug, PartialEq)]
pub struct MixerConf {
    pub channels: Vec<Channel>,
    /// The default channels, in order: the channel a file's n-th channel is
    /// patched to when nothing else is said.
    pub defs: Vec<Uuid>,
}

/// The text of an optional string.
pub open spec fn opt_text(o: Option<String>) -> Option<Seq<char>> {
    match o {
        Some(s) => Some(s@),
        None => None,
    }
}

/// The pairs (UUID, engine number) of the channels of `c` that share a name but
/// not a UUID with a channel of `conf`: one pair for each such channel of
/// `conf`, in order.
pub open spec fn clash_row(c: Channel, conf: Seq<Channel>) -> Seq<(Uuid, usize)>
    decreases conf.len(),
{
    if conf.len() == 0 {
        Seq::empty()
    } else {
        let prev = clash_row(c, conf.drop_last());
        let n = conf.last();
        if c.name@ == n.name@ && c.uuid != n.uuid {
            prev.push((c.uuid, c.eid))
        } else {
            prev
        }
    }
}

/// The clashing pairs of every channel of `chs`, channel by channel.
pub open spec fn clash_pairs(chs: Seq<Channel>, conf: Seq<Channel>) -> Seq<(Uuid, usize)>
    decreases chs.len(),
{
    if chs.len() == 0 {
        Seq::empty()
    } else {
        clash_pairs(chs.drop_last(), conf) + clash_row(chs.last(), conf)
    }
}

/// The channels of `chs` whose UUIDs are in `touched`, in order.
pub open spec fn kept(chs: Seq<Channel>, touched: Seq<Uuid>) -> Seq<Channel>
    decreases chs.len(),
{
    if chs.len() == 0 {
        Seq::empty()
    } else if touched.contains(chs.last().uuid) {
        kept(chs.drop_last(), touched).push(chs.last())
    } else {
        kept(chs.drop_last(), touched)
    }
}

/// The engine numbers of the channels of `chs` whose UUIDs are not in
/// `touched`, in order.
pub open spec fn dropped_eids(chs: Seq<Channel>, touched: Seq<Uuid>) -> Seq<usize>
    decreases chs.len(),
{
    if chs.len() == 0 {
        Seq::empty()
    } else if touched.contains(chs.last().uuid) {
        dropped_eids(chs.drop_last(), touched)
    } else {
        dropped_eids(chs.drop_last(), touched).push(chs.last().eid)
    }
}

/// The UUIDs of `defs` that are in `touched`, in order.
pub open spec fn kept_defs(defs: Seq<Uuid>, touched: Seq<Uuid>) -> Seq<Uuid>
    decreases defs.len(),
{
    if defs.len() == 0 {
        Seq::empty()
    } else if touched.contains(defs.last()) {
        kept_defs(defs.drop_last(), touched).push(defs.last())
    } else {
        kept_defs(defs.drop_last(), touched)
    }
}

/// No two channels share a UUID.
pub open spec fn uuids_distinct(chs: Seq<Channel>) -> bool {
    forall|i: int, j: int| 0 <= i < j < chs.len() ==> #[trigger] chs[i].uuid != #[trigger] chs[j].uuid
}

/// What applying one channel of a new configuration takes.
#[derive(Clone, Debug, PartialEq)]
pub enum ChannelPlan {
    /// The mixer has a channel with this UUID, with engine number `eid`:
    /// rename it if `rename`; when its patch changes, disconnect it from
    /// `unpatch` (if any; a failure there does not matter) and connect it to
    /// `patch` (if any).
    Existing { eid: usize, rename: bool, unpatch: Option<String>, patch: Option<String> },
    /// The channel is new: make it in the engine, and connect it to its patch
    /// (if any).
    New,
}

/// Whether two optional strings hold the same text.
fn same_opt_text(a: &Option<String>, b: &Option<String>) -> (r: bool)
    ensures
        r == (opt_text(*a) == opt_text(*b)),
{
    match (a, b) {
        (Some(x), Some(y)) => *x == *y,
        (None, None) => true,
        _ => false,
    }
}

fn clone_opt(a: &Option<String>) -> (r: Option<String>)
    ensures
        r == *a,
{
    match a {
        Some(x) => Some(x.clone()),
        None => None,
    }
}

/// The mixer's channels and default channels.
pub struct Mixer {
    channels: Vec<Channel>,
    defs: Vec<Uuid>,
}

impl Mixer {
    #[verifier::type_invariant]
    spec fn distinct(self) -> bool {
        uuids_distinct(self.channels@)
    }

    /// The channels, in the order the mixer keeps them.
    pub closed spec fn channels(self) -> Seq<Channel> {
        self.channels@
    }

    /// The default channels, in order.
    pub closed spec fn defs(self) -> Seq<Uuid> {
        self.defs@
    }

    /// No channels.
    pub fn new() -> (m: Self)
        ensures
            m.channels() == Seq::<Channel>::empty(),
            m.defs() == Seq::<Uuid>::empty(),
    {
        Mixer { channels: Vec::new(), defs: Vec::new() }
    }

    /// The current configuration.
    pub fn obtain_config(&self) -> (c: MixerConf)
        ensures
            c.channels@ == self.channels(),
            c.defs@ == self.defs(),
    {
        MixerConf { channels: copy_channels(&self.channels), defs: copy_vec(&self.defs) }
    }

    /// The default channel at place `idx`, if there is one.
    pub fn obtain_def(&self, idx: usize) -> (r: Option<Uuid>)
        ensures
            idx < self.defs().len() ==> r == Some(self.defs()[idx as int]),
            idx >= self.defs().len() ==> r is None,
    {
        if idx < self.defs.len() {
            Some(self.defs[idx])
        } else {
            None
        }
    }

    /// Where the channel with this UUID stands, if there is one.
    fn position(&self, uu: Uuid) -> (r: Option<usize>)
        ensures
            r matches Some(i) ==> i < self.channels@.len() && self.channels@[i as int].uuid == uu,
            r is None ==> forall|i: int| 0 <= i < self.channels@.len() ==> self.channels@[i].uuid != uu,
    {
        let mut i: usize = 0;
        while i < self.channels.len()
            invariant
                i <= self.channels@.len(),
                forall|j: int| 0 <= j < i ==> self.channels@[j].uuid != uu,
            decreases self.channels@.len() - i,
        {
            if self.channels[i].uuid == uu {
                return Some(i);
            }
            i = i + 1;
        }
        None
    }

    /// The engine number of the channel with this UUID, if there is one.
    pub fn obtain_channel(&self, uu: Uuid) -> (r: Option<usize>)
        ensures
            r matches Some(e) ==> exists|i: int| 0 <= i < self.channels().len() && self.channels()[i].uuid == uu
                && self.channels()[i].eid == e,
            r is None <==> forall|i: int| 0 <= i < self.channels().len() ==> self.channels()[i].uuid != uu,
    {
        match self.position(uu) {
            Some(i) => Some(self.channels[i].eid),
            None => None,
        }
    }

    /// The UUIDs of the channels.
    pub fn channel_uuids(&self) -> (r: Vec<Uuid>)
        ensures
            r@.len() == self.channels().len(),
            forall|i: int| 0 <= i < r@.len() ==> r@[i] == #[trigger] self.channels()[i].uuid,
    {
        let mut r: Vec<Uuid> = Vec::new();
        let mut i: usize = 0;
        while i < self.channels.len()
            invariant
                i <= self.channels@.len(),
                r@.len() == i,
                forall|k: int| 0 <= k < i ==> r@[k] == #[trigger] self.channels@[k].uuid,
            decreases self.channels@.len() - i,
        {
            r.push(self.channels[i].uuid);
            i = i + 1;
        }
        r
    }

    /// The channels to remove before a new configuration is applied, because
    /// a channel of it has the same name but another UUID (two ports of one
    /// name would clash): (UUID, engine number) pairs, one per clash, channel
    /// by channel.
    pub fn clashes(&self, conf: &MixerConf) -> (r: Vec<(Uuid, usize)>)
        ensures
            r@ == clash_pairs(self.channels(), conf.channels@),
    {
        let mut r: Vec<(Uuid, usize)> = Vec::new();
        let mut i: usize = 0;
        proof {
            assert(self.channels@.take(0) =~= Seq::<Channel>::empty());
        }
        while i < self.channels.len()
            invariant
                i <= self.channels@.len(),
                r@ == clash_pairs(self.channels@.take(i as int), conf.channels@),
            decreases self.channels@.len() - i,
        {
            let c = &self.channels[i];
            let ghost before = r@;
            let mut j: usize = 0;
            proof {
                assert(conf.channels@.take(0) =~= Seq::<Channel>::empty());
                assert(r@ =~= before + clash_row(*c, conf.channels@.take(0)));
            }
            while j < conf.channels.len()
                invariant
                    j <= conf.channels@.len(),
                    r@ == before + clash_row(*c, conf.channels@.take(j as int)),
                decreases conf.channels@.len() - j,
            {
                let n = &conf.channels[j];
                proof {
                    assert(conf.channels@.take(j as int + 1).drop_last() =~= conf.channels@.take(j as int));
                    assert(conf.channels@.take(j as int + 1).last() == *n);
                }
                if c.name == n.name && c.uuid != n.uuid {
                    r.push((c.uuid, c.eid));
                }
                j = j + 1;
                proof {
                    assert(r@ =~= before + clash_row(*c, conf.channels@.take(j as int)));
                }
            }
            proof {
                assert(conf.channels@.take(conf.channels@.len() as int) =~= conf.channels@);
                assert(self.channels@.take(i as int + 1).drop_last() =~= self.channels@.take(i as int));
                assert(self.channels@.take(i as int + 1).last() == *c);
            }
            i = i + 1;
        }
        proof {
            assert(self.channels@.take(self.channels@.len() as int) =~= self.channels@);
        }
        r
    }

    /// What applying the channel `ch` of a new configuration takes (see
    /// `ChannelPlan`): for a channel the mixer has, a rename when the names
    /// differ, and a repatch when the patches differ.
    pub fn plan_channel(&self, ch: &Channel) -> (p: ChannelPlan)
        ensures
            (forall|i: int| 0 <= i < self.channels().len() ==> self.channels()[i].uuid != ch.uuid) ==> p
                == ChannelPlan::New,
            forall|i: int| 0 <= i < self.channels().len() && #[trigger] self.channels()[i].uuid == ch.uuid ==> {
                let c2 = self.channels()[i];
                let repatch = opt_text(ch.patch) != opt_text(c2.patch);
                p == ChannelPlan::Existing {
                    eid: c2.eid,
                    rename: ch.name@ != c2.name@,
                    unpatch: if repatch { c2.patch } else { None },
                    patch: if repatch { ch.patch } else { None },
                }
            },
    {
        proof {
            use_type_invariant(self);
        }
        match self.position(ch.uuid) {
            None => ChannelPlan::New,
            Some(i) => {
                let c2 = &self.channels[i];
                let rename = !(ch.name == c2.name);
                let repatch = !same_opt_text(&ch.patch, &c2.patch);
                let unpatch = if repatch { clone_opt(&c2.patch) } else { None };
                let patch = if repatch { clone_opt(&ch.patch) } else { None };
                ChannelPlan::Existing { eid: c2.eid, rename, unpatch, patch }
            },
        }
    }

    /// The channel with this UUID was renamed in the engine: it takes the new
    /// name.
    pub fn rename_channel(&mut self, uu: Uuid, name: String)
        ensures
            forall|i: int| 0 <= i < old(self).channels().len() && old(self).channels()[i].uuid == uu ==> final(self).channels()
                == old(self).channels().update(i, Channel { name, ..old(self).channels()[i] }),
            (forall|i: int| 0 <= i < old(self).channels().len() ==> old(self).channels()[i].uuid != uu) ==> final(self).channels()
                == old(self).channels(),
            final(self).defs() == old(self).defs(),
    {
        proof {
            use_type_invariant(&*self);
        }
        let ghost orig = self.channels@;
        assert(uuids_distinct(orig));
        if let Some(i) = self.position(uu) {
            let mut chans = Vec::new();
            std::mem::swap(&mut chans, &mut self.channels);
            assert(chans@ == orig);
            let c = Channel { name, uuid: chans[i].uuid, eid: chans[i].eid, patch: clone_opt(&chans[i].patch) };
            let ghost before = chans@;
            let ghost cg = c;
            chans.set(i, c);
            proof {
                assert(chans@ == before.update(i as int, cg));
                assert(cg.uuid == before[i as int].uuid);
                assert forall|a: int, b: int| 0 <= a < b < chans@.len() implies #[trigger] chans@[a].uuid != #[trigger] chans@[b].uuid by {
                    assert(before == orig);
                    assert(orig[a].uuid != orig[b].uuid);
                    assert(chans@[a].uuid == before[a].uuid);
                    assert(chans@[b].uuid == before[b].uuid);
                }
                assert forall|k: int| 0 <= k < before.len() && before[k].uuid == uu implies chans@ == before.update(k, Channel { name: chans@[i as int].name, ..before[k] }) by {
                    if k != i {
                        assert(before[k].uuid != before[i as int].uuid);
                    }
                    assert(chans@ =~= before.update(k, Channel { name: chans@[i as int].name, ..before[k] }));
                }
            }
            self.channels = chans;
        }
    }

    /// A new channel was made in the engine (and connected to its patch): the
    /// mixer keeps it.
    pub fn add_channel(&mut self, ch: Channel)
        requires
            forall|i: int| 0 <= i < old(self).channels().len() ==> old(self).channels()[i].uuid != ch.uuid,
        ensures
            final(self).channels() == old(self).channels().push(ch),
            final(self).defs() == old(self).defs(),
    {
        proof {
            use_type_invariant(&*self);
        }
        let mut chans = Vec::new();
        std::mem::swap(&mut chans, &mut self.channels);
        let ghost before = chans@;
        chans.push(ch);
        proof {
            assert forall|a: int, b: int| 0 <= a < b < chans@.len() implies #[trigger] chans@[a].uuid != #[trigger] chans@[b].uuid by {
                assert(before == old(self).channels());
                if b == before.len() {
                    assert(chans@[a] == before[a]);
                    assert(old(self).channels()[a].uuid != ch.uuid);
                    assert(chans@[b] == ch);
                } else {
                    assert(chans@[a] == before[a] && chans@[b] == before[b]);
                    assert(before[a].uuid != before[b].uuid);
                }
            }
        }
        self.channels = chans;
    }

    /// Takes the default channels of a new configuration, keeping those that
    /// were applied (`touched`).
    pub fn set_defs(&mut self, defs: &Vec<Uuid>, touched: &Vec<Uuid>)
        ensures
            final(self).defs() == kept_defs(defs@, touched@),
            final(self).channels() == old(self).channels(),
    {
        proof {
            use_type_invariant(&*self);
        }
        let mut kept: Vec<Uuid> = Vec::new();
        let mut i: usize = 0;
        proof {
            assert(defs@.take(0) =~= Seq::<Uuid>::empty());
        }
        while i < defs.len()
            invariant
                i <= defs@.len(),
                kept@ == kept_defs(defs@.take(i as int), touched@),
            decreases defs@.len() - i,
        {
            proof {
                assert(defs@.take(i as int + 1).drop_last() =~= defs@.take(i as int));
                assert(defs@.take(i as int + 1).last() == defs@[i as int]);
            }
            if contains_uuid(touched, defs[i]) {
                kept.push(defs[i]);
            }
            i = i + 1;
        }
        proof {
            assert(defs@.take(defs@.len() as int) =~= defs@);
        }
        self.defs = kept;
    }

    /// The engine numbers of the channels that were not applied (`touched`),
    /// which the engine removes.
    pub fn untouched_eids(&self, touched: &Vec<Uuid>) -> (r: Vec<usize>)
        ensures
            r@ == dropped_eids(self.channels(), touched@),
    {
        let mut r: Vec<usize> = Vec::new();
        let mut i: usize = 0;
        proof {
            assert(self.channels@.take(0) =~= Seq::<Channel>::empty());
        }
        while i < self.channels.len()
            invariant
                i <= self.channels@.len(),
                r@ == dropped_eids(self.channels@.take(i as int), touched@),
            decreases self.channels@.len() - i,
        {
            proof {
                assert(self.channels@.take(i as int + 1).drop_last() =~= self.channels@.take(i as int));
                assert(self.channels@.take(i as int + 1).last() == self.channels@[i as int]);
            }
            if !contains_uuid(touched, self.channels[i].uuid) {
                r.push(self.channels[i].eid);
            }
            i = i + 1;
        }
        proof {
            assert(self.channels@.take(self.channels@.len() as int) =~= self.channels@);
        }
        r
    }

    /// Drops the channels that were not applied (`touched`).
    pub fn retain_touched(&mut self, touched: &Vec<Uuid>)
        ensures
            final(self).channels() == kept(old(self).channels(), touched@),
            final(self).defs() == old(self).defs(),
    {
        proof {
            use_type_invariant(&*self);
        }
        let mut chans = Vec::new();
        std::mem::swap(&mut chans, &mut self.channels);
        let ghost before = chans@;
        let mut out: Vec<Channel> = Vec::new();
        let mut rest = chans;
        proof {
            assert(before.take(0) =~= Seq::<Channel>::empty());
            assert(rest@ =~= before.skip(0));
        }
        let mut i: usize = 0;
        let n = rest.len();
        while rest.len() > 0
            invariant
                before.len() == n,
                i <= before.len(),
                i + rest@.len() == before.len(),
                rest@ == before.skip(i as int),
                out@ == kept(before.take(i as int), touched@),
            decreases rest@.len(),
        {
            let c = rest.remove(0);
            proof {
                assert(c == before[i as int]);
                assert(rest@ =~= before.skip(i as int + 1));
                assert(before.take(i as int + 1).drop_last() =~= before.take(i as int));
                assert(before.take(i as int + 1).last() == c);
            }
            if contains_uuid(touched, c.uuid) {
                out.push(c);
            }
            i = i + 1;
        }
        proof {
            assert(before.take(before.len() as int) =~= before);
            lemma_kept(before, touched@);
        }
        self.channels = out;
    }
}

/// Keeping some channels of a list without repeated UUIDs keeps it without
/// repeated UUIDs, and keeps only channels of the list.
proof fn lemma_kept(s: Seq<Channel>, t: Seq<Uuid>)
    requires
        uuids_distinct(s),
    ensures
        uuids_distinct(kept(s, t)),
        forall|c: Channel| #[trigger] kept(s, t).contains(c) ==> s.contains(c),
    decreases s.len(),
{
    if s.len() > 0 {
        let p = s.drop_last();
        assert(uuids_distinct(p)) by {
            assert forall|i: int, j: int| 0 <= i < j < p.len() implies #[trigger] p[i].uuid != #[trigger] p[j].uuid by {
                assert(p[i] == s[i] && p[j] == s[j]);
            }
        }
        lemma_kept(p, t);
        let k = kept(p, t);
        assert forall|c: Channel| #[trigger] kept(s, t).contains(c) implies s.contains(c) by {
            if k.contains(c) {
                let i = choose|i: int| 0 <= i < p.len() && p[i] == c;
                assert(s[i] == c);
            } else {
                assert(c == s.last());
                assert(s[s.len() - 1] == c);
            }
        }
        if t.contains(s.last().uuid) {
            assert forall|i: int, j: int| 0 <= i < j < k.push(s.last()).len() implies #[trigger] k.push(s.last())[i].uuid != #[trigger] k.push(s.last())[j].uuid by {
                if j == k.len() {
                    assert(k.contains(k[i]));
                    let m = choose|m: int| 0 <= m < p.len() && p[m] == k[i];
                    assert(s[m] == p[m]);
                    assert(s[m].uuid != s[s.len() - 1].uuid);
                } else {
                    assert(k.push(s.last())[i] == k[i] && k.push(s.last())[j] == k[j]);
                }
            }
        }
    }
}

/// Whether `u` is one of `v`.
fn contains_uuid(v: &Vec<Uuid>, u: Uuid) -> (b: bool)
    ensures
        b == v@.contains(u),
{
    let mut i: usize = 0;
    while i < v.len()
        invariant
            i <= v@.len(),
            forall|j: int| 0 <= j < i ==> v@[j] != u,
        decreases v@.len() - i,
    {
        if v[i] == u {
            proof {
                assert(v@[i as int] == u);
            }
            return true;
        }
        i = i + 1;
    }
    false
}

/// The name of the `i`-th default channel.
pub fn default_channel_name(i: usize) -> (s: String)
    ensures
        s@ == "default-chan-"@ + decimal(i as nat),
{
    let mut s = String::from_str("default-chan-");
    push_decimal(&mut s, i as u64);
    s
}

impl Mixer {
    /// A default channel was made in the engine (patched to port `patch`): the
    /// mixer keeps it, and it becomes the next default channel.
    pub fn add_default_channel(&mut self, ch: Channel)
        requires
            forall|i: int| 0 <= i < old(self).channels().len() ==> old(self).channels()[i].uuid != ch.uuid,
        ensures
            final(self).channels() == old(self).channels().push(ch),
            final(self).defs() == old(self).defs().push(ch.uuid),
    {
        let uu = ch.uuid;
        self.add_channel(ch);
        proof {
            use_type_invariant(&*self);
        }
        let mut defs = Vec::new();
        std::mem::swap(&mut defs, &mut self.defs);
        defs.push(uu);
        self.defs = defs;
    }
}

} // verus!
