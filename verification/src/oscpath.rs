//! OSC addresses: splitting them into segments at slashes, and joining
//! segments back into an address.
use vstd::prelude::*;

verus! {

/// The segments of `s` between slashes, as `str::split('/')` yields them (an
/// empty string yields one empty segment).
pub open spec fn split_slash(s: Seq<char>) -> Seq<Seq<char>>
    decreases s.len(),
{
    if s.len() == 0 {
        seq![Seq::<char>::empty()]
    } else {
        let prev = split_slash(s.drop_last());
        if s.last() == '/' {
            prev.push(Seq::<char>::empty())
        } else {
            prev.update(prev.len() - 1, prev.last().push(s.last()))
        }
    }
}

/// The segments joined with slashes between them.
pub open spec fn join_slash(segs: Seq<Seq<char>>) -> Seq<char>
    decreases segs.len(),
{
    if segs.len() <= 1 {
        if segs.len() == 1 { segs[0] } else { Seq::empty() }
    } else {
        join_slash(segs.drop_last()).push('/') + segs.last()
    }
}

/// The address made of the segments: a slash before each.
pub open spec fn address_of(segs: Seq<Seq<char>>) -> Seq<char> {
    join_slash(seq![Seq::<char>::empty()] + segs)
}

/// No segment holds a slash.
pub open spec fn plain_segments(segs: Seq<Seq<char>>) -> bool {
    forall|i: int| 0 <= i < segs.len() ==> !(#[trigger] segs[i]).contains('/')
}

/// Splitting never yields no segments.
pub proof fn lemma_split_nonempty(s: Seq<char>)
    ensures
        split_slash(s).len() >= 1,
    decreases s.len(),
{
    if s.len() > 0 {
        lemma_split_nonempty(s.drop_last());
    }
}

/// Appending text without slashes extends the last segment.
pub proof fn lemma_split_append_plain(x: Seq<char>, y: Seq<char>)
    requires
        !y.contains('/'),
    ensures
        split_slash(x + y) == split_slash(x).update(
            split_slash(x).len() - 1,
            split_slash(x).last() + y,
        ),
    decreases y.len(),
{
    lemma_split_nonempty(x);
    if y.len() == 0 {
        assert(x + y =~= x);
        assert(split_slash(x).last() + y =~= split_slash(x).last());
        assert(split_slash(x).update(split_slash(x).len() - 1, split_slash(x).last())
            =~= split_slash(x));
    } else {
        let y0 = y.drop_last();
        assert(!y0.contains('/')) by {
            if y0.contains('/') {
                let i = choose|i: int| 0 <= i < y0.len() && y0[i] == '/';
                assert(y[i] == '/');
            }
        }
        lemma_split_append_plain(x, y0);
        assert((x + y).drop_last() =~= x + y0);
        assert((x + y).last() == y.last());
        assert(y.last() != '/') by {
            assert(y[y.len() - 1] == y.last());
        }
        let p = split_slash(x);
        let prev = split_slash(x + y0);
        assert(prev == split_slash((x + y).drop_last()));
        assert(prev.len() == p.len());
        assert(prev.last() == p.last() + y0);
        assert(split_slash(x + y) == prev.update(prev.len() - 1, prev.last().push(y.last())));
        assert((p.last() + y0).push(y.last()) =~= p.last() + y);
        assert(split_slash(x + y) =~= p.update(p.len() - 1, p.last() + y));
    }
}

/// Splitting what was joined gives back the segments, when none holds a slash.
pub proof fn lemma_split_join(segs: Seq<Seq<char>>)
    requires
        segs.len() >= 1,
        plain_segments(segs),
    ensures
        split_slash(join_slash(segs)) == segs,
    decreases segs.len(),
{
    if segs.len() == 1 {
        lemma_split_append_plain(Seq::<char>::empty(), segs[0]);
        assert(Seq::<char>::empty() + segs[0] =~= segs[0]);
        assert(split_slash(Seq::<char>::empty()) == seq![Seq::<char>::empty()]);
        assert(Seq::<char>::empty() + segs[0] =~= segs[0]);
        assert(split_slash(segs[0]) =~= segs);
    } else {
        let init = segs.drop_last();
        assert(plain_segments(init)) by {
            assert forall|i: int| 0 <= i < init.len() implies !(#[trigger] init[i]).contains('/') by {
                assert(init[i] == segs[i]);
            }
        }
        lemma_split_join(init);
        let j = join_slash(init).push('/');
        assert(j.drop_last() =~= join_slash(init));
        assert(split_slash(j) == init.push(Seq::<char>::empty()));
        assert(!segs.last().contains('/')) by {
            assert(segs[segs.len() - 1] == segs.last());
        }
        lemma_split_append_plain(j, segs.last());
        assert(Seq::<char>::empty() + segs.last() =~= segs.last());
        assert(init.push(Seq::<char>::empty()).update(init.len() as int, segs.last()) =~= segs);
    }
}

/// Splitting an address made of segments without slashes gives an empty first
/// segment followed by the segments.
pub proof fn lemma_split_address(segs: Seq<Seq<char>>)
    requires
        plain_segments(segs),
    ensures
        split_slash(address_of(segs)) == seq![Seq::<char>::empty()] + segs,
        split_slash(address_of(segs)).drop_first() == segs,
{
    let all = seq![Seq::<char>::empty()] + segs;
    assert(plain_segments(all)) by {
        assert forall|i: int| 0 <= i < all.len() implies !(#[trigger] all[i]).contains('/') by {
            if i > 0 {
                assert(all[i] == segs[i - 1]);
            }
        }
    }
    lemma_split_join(all);
    assert(all.drop_first() =~= segs);
}

/// Splits `s` at slashes (see `split_slash`).
pub fn split_address(s: &str) -> (r: Vec<String>)
    ensures
        r@.len() == split_slash(s@).len(),
        forall|i: int| 0 <= i < r@.len() ==> (#[trigger] r@[i])@ == split_slash(s@)[i],
{
    let n = s.unicode_len();
    let mut segs: Vec<String> = Vec::new();
    let mut start: usize = 0;
    let mut i: usize = 0;
    while i < n
        invariant
            n == s@.len(),
            start <= i <= n,
            split_slash(s@.take(i as int)).len() == segs@.len() + 1,
            forall|j: int|
                0 <= j < segs@.len() ==> (#[trigger] segs@[j])@ == split_slash(s@.take(i as int))[j],
            split_slash(s@.take(i as int)).last() == s@.subrange(start as int, i as int),
        decreases n - i,
    {
        let c = s.get_char(i);
        proof {
            assert(s@.take(i as int + 1).drop_last() =~= s@.take(i as int));
            assert(s@.take(i as int + 1).last() == c);
        }
        if c == '/' {
            let seg = String::from_str(s.substring_char(start, i));
            segs.push(seg);
            start = i + 1;
        }
        i = i + 1;
        proof {
            assert(s@.subrange(start as int, i as int) =~= if c == '/' {
                Seq::<char>::empty()
            } else {
                s@.subrange(start as int, i as int - 1).push(c)
            });
        }
    }
    let last = String::from_str(s.substring_char(start, n));
    segs.push(last);
    proof {
        assert(s@.take(n as int) =~= s@);
    }
    segs
}

/// The texts of a sequence of strings.
pub open spec fn seg_views(v: Seq<String>) -> Seq<Seq<char>> {
    v.map_values(|s: String| s@)
}

/// The address made of the segments (see `address_of`).
pub fn join_address(segs: &Vec<String>) -> (s: String)
    ensures
        s@ == address_of(seg_views(segs@)),
{
    let mut s = String::new();
    let mut i: usize = 0;
    let ghost views = seg_views(segs@);
    proof {
        reveal_strlit("/");
        assert(seq![Seq::<char>::empty()] + views.take(0) =~= seq![Seq::<char>::empty()]);
    }
    while i < segs.len()
        invariant
            i <= segs.len(),
            views == seg_views(segs@),
            s@ == join_slash(seq![Seq::<char>::empty()] + views.take(i as int)),
        decreases segs.len() - i,
    {
        let ghost before = seq![Seq::<char>::empty()] + views.take(i as int);
        let ghost after = seq![Seq::<char>::empty()] + views.take(i as int + 1);
        proof {
            reveal_strlit("/");
            assert(after.drop_last() =~= before);
            assert(after.last() == segs@[i as int]@);
        }
        s.append("/");
        s.append(segs[i].as_str());
        i = i + 1;
        proof {
            assert(s@ =~= join_slash(before).push('/') + after.last());
        }
    }
    proof {
        assert(views.take(segs.len() as int) =~= views);
    }
    s
}

/// Whether the segment is the text `lit`.
pub fn segment_is(seg: &String, lit: &str) -> (b: bool)
    ensures
        b == (seg@ == lit@),
{
    let l = String::from_str(lit);
    *seg == l
}

} // verus!
