//! Managing actions: the set of actions, their order, and which of them
//! changed or want to be polled.
use vstd::prelude::*;
use std::collections::{HashMap, HashSet};
use crate::actions::Uuid;
use crate::errors::BackendError;
use crate::ids::{uuid_to_string, uuid_hyphenated};
use vstd::std_specs::iter::IteratorSpec;

verus! {

broadcast use vstd::std_specs::hash::group_hash_axioms;

/// Whether `i` is the first position of `x` in `s`.
pub open spec fn is_first_position(s: Seq<Uuid>, x: Uuid, i: int) -> bool {
    &&& 0 <= i < s.len()
    &&& s[i] == x
    &&& forall|j: int| 0 <= j < i ==> s[j] != x
}

/// The first position of `x` in `s`, if `x` occurs in `s`.
pub open spec fn first_position(s: Seq<Uuid>, x: Uuid) -> Option<int> {
    if s.contains(x) {
        Some(choose|i: int| is_first_position(s, x, i))
    } else {
        None
    }
}

/// The order after moving the entry at `pos` to `new_pos`.
pub open spec fn moved(s: Seq<Uuid>, pos: int, new_pos: int) -> Seq<Uuid> {
    s.remove(pos).insert(new_pos, s[pos])
}

/// Every position holds an action that exists.
pub open spec fn all_known<A>(order: Seq<Uuid>, actions: Map<Uuid, A>) -> bool {
    forall|i: int| 0 <= i < order.len() ==> actions.contains_key(#[trigger] order[i])
}

/// The first position in `order` that names no action in `actions`.
pub open spec fn is_first_unknown<A>(order: Seq<Uuid>, actions: Map<Uuid, A>, i: int) -> bool {
    &&& 0 <= i < order.len()
    &&& !actions.contains_key(order[i])
    &&& forall|j: int| 0 <= j < i ==> actions.contains_key(#[trigger] order[j])
}

/// The first position of `x` is the position found by a scan that saw no `x` before.
pub proof fn lemma_first_position(s: Seq<Uuid>, x: Uuid, i: int)
    requires
        is_first_position(s, x, i),
    ensures
        first_position(s, x) == Some(i),
{
    assert(s.contains(x));
    let k = choose|k: int| is_first_position(s, x, k);
    assert(is_first_position(s, x, k));
    if k < i {
        assert(s[k] != x);
    } else if i < k {
        assert(s[i] != x);
    }
}

/// The actions of the backend, keyed by UUID, with the order in which they are
/// shown and run, the actions that changed since the last look, and the
/// actions that want to be polled.
pub struct ActionManager<A> {
    actions: HashMap<Uuid, A>,
    async_actions: HashSet<Uuid>,
    changed: HashSet<Uuid>,
    order: Vec<Uuid>,
    order_changed: bool,
}

impl<A> ActionManager<A> {
    /// The actions, by UUID.
    pub closed spec fn actions(self) -> Map<Uuid, A> {
        self.actions@
    }

    /// The order of the actions.
    pub closed spec fn order_seq(self) -> Seq<Uuid> {
        self.order@
    }

    /// The actions that changed since the last `clear_changed`.
    pub closed spec fn changed(self) -> Set<Uuid> {
        self.changed@
    }

    /// The actions that want to be polled.
    pub closed spec fn interested(self) -> Set<Uuid> {
        self.async_actions@
    }

    /// Whether the order changed since the last `clear_order_changed`.
    pub closed spec fn order_changed(self) -> bool {
        self.order_changed
    }

    /// An empty manager.
    pub fn new() -> (m: Self)
        ensures
            m.actions() == Map::<Uuid, A>::empty(),
            m.order_seq() == Seq::<Uuid>::empty(),
            m.changed() == Set::<Uuid>::empty(),
            m.interested() == Set::<Uuid>::empty(),
            !m.order_changed(),
    {
        ActionManager {
            actions: HashMap::new(),
            async_actions: HashSet::new(),
            changed: HashSet::new(),
            order: Vec::new(),
            order_changed: false,
        }
    }

    /// The action with this UUID, if there is one.
    pub fn get(&self, uuid: &Uuid) -> (r: Option<&A>)
        ensures
            r is Some <==> self.actions().contains_key(*uuid),
            r matches Some(a) ==> *a == self.actions()[*uuid],
    {
        self.actions.get(uuid)
    }

    /// The order of the actions.
    pub fn order(&self) -> (r: &Vec<Uuid>)
        ensures
            r@ == self.order_seq(),
    {
        &self.order
    }

    /// Where the action with this UUID first stands in the order, if it does.
    pub fn position_of(&self, uuid: Uuid) -> (r: Option<usize>)
        ensures
            r matches Some(i) ==> is_first_position(self.order_seq(), uuid, i as int),
            r is None <==> !self.order_seq().contains(uuid),
            r matches Some(i) ==> first_position(self.order_seq(), uuid) == Some(i as int),
            r is None ==> first_position(self.order_seq(), uuid) is None,
    {
        let mut i: usize = 0;
        while i < self.order.len()
            invariant
                i <= self.order@.len(),
                forall|j: int| 0 <= j < i ==> self.order@[j] != uuid,
            decreases self.order@.len() - i,
        {
            if self.order[i] == uuid {
                proof {
                    lemma_first_position(self.order@, uuid, i as int);
                }
                return Some(i);
            }
            i = i + 1;
        }
        None
    }

    /// Replaces the order, provided that every UUID in it names an action;
    /// refuses, changing nothing, naming the first UUID that names none.
    pub fn restore_order(&mut self, order: Vec<Uuid>) -> (r: Result<(), BackendError>)
        ensures
            r is Ok <==> all_known(order@, old(self).actions()),
            r is Ok ==> final(self).order_seq() == order@,
            r is Err ==> final(self).order_seq() == old(self).order_seq(),
            r matches Err(e) ==> exists|i: int|
                {
                    &&& is_first_unknown(order@, old(self).actions(), i)
                    &&& e matches BackendError::Msg(m)
                    &&& m@ == "UUID "@ + uuid_hyphenated(#[trigger] order@[i])
                        + " is mentioned in order, but doesn't exist"@
                },
            final(self).actions() == old(self).actions(),
            final(self).changed() == old(self).changed(),
            final(self).interested() == old(self).interested(),
            final(self).order_changed() == old(self).order_changed(),
    {
        let mut i: usize = 0;
        while i < order.len()
            invariant
                i <= order@.len(),
                forall|j: int| 0 <= j < i ==> self.actions@.contains_key(#[trigger] order@[j]),
            decreases order@.len() - i,
        {
            let uu = order[i];
            if !self.actions.contains_key(&uu) {
                let mut m = String::from_str("UUID ");
                let s = uuid_to_string(uu);
                m.append(s.as_str());
                m.append(" is mentioned in order, but doesn't exist");
                proof {
                    assert(is_first_unknown(order@, self.actions@, i as int));
                }
                return Err(BackendError::Msg(m));
            }
            i = i + 1;
        }
        self.order = order;
        Ok(())
    }

    /// The UUIDs of all actions, each once, in no particular order.
    pub fn action_list(&self) -> (r: Vec<Uuid>)
        ensures
            r@.to_set() == self.actions().dom(),
            r@.no_duplicates(),
    {
        let mut r: Vec<Uuid> = Vec::new();
        let ghost keys_seq = self.actions.keys().remaining().unref();
        for k in iter: self.actions.keys()
            invariant
                keys_seq == iter.seq().unref(),
                keys_seq.to_set() == self.actions@.dom(),
                keys_seq.no_duplicates(),
                r@ == keys_seq.take(iter.index() as int),
        {
            r.push(*k);
            proof {
                assert(r@ =~= keys_seq.take(iter.index() as int + 1));
            }
        }
        proof {
            assert(r@ =~= keys_seq);
        }
        r
    }

    /// Adds a new action at the end of the order.
    pub fn insert(&mut self, uuid: Uuid, act: A)
        requires
            !old(self).actions().contains_key(uuid),
            !old(self).order_seq().contains(uuid),
        ensures
            final(self).actions() == old(self).actions().insert(uuid, act),
            final(self).order_seq() == old(self).order_seq().push(uuid),
            final(self).order_changed(),
            final(self).changed() == old(self).changed(),
            final(self).interested() == old(self).interested(),
    {
        self.actions.insert(uuid, act);
        self.order.push(uuid);
        self.order_changed = true;
    }

    /// Adds an action at position `order` (at the end if `order` is past it).
    pub fn insert_with_order(&mut self, uuid: Uuid, act: A, order: usize)
        ensures
            final(self).actions() == old(self).actions().insert(uuid, act),
            final(self).order_seq() == old(self).order_seq().insert(
                if order > old(self).order_seq().len() {
                    old(self).order_seq().len() as int
                } else {
                    order as int
                },
                uuid,
            ),
            final(self).order_changed(),
            final(self).changed() == old(self).changed(),
            final(self).interested() == old(self).interested(),
    {
        let mut order = order;
        if order > self.order.len() {
            order = self.order.len();
        }
        self.actions.insert(uuid, act);
        self.order.insert(order, uuid);
        self.order_changed = true;
    }

    /// Moves the action with this UUID to position `new_pos` of the order.
    /// Refuses, changing nothing, if the UUID is not in the order or the
    /// position is past its end.
    pub fn reorder(&mut self, uuid: Uuid, new_pos: usize) -> (r: Result<(), BackendError>)
        ensures
            r is Ok <==> old(self).order_seq().contains(uuid) && new_pos < old(self).order_seq().len(),
            r is Ok ==> final(self).order_seq() == moved(
                old(self).order_seq(),
                first_position(old(self).order_seq(), uuid).unwrap(),
                new_pos as int,
            ),
            r is Ok ==> final(self).order_changed(),
            r is Err ==> final(self).order_seq() == old(self).order_seq() && final(self).order_changed()
                == old(self).order_changed(),
            r matches Err(e) ==> {
                &&& e matches BackendError::Msg(m)
                &&& m@ == if !old(self).order_seq().contains(uuid) {
                    "UUID not present in order"@
                } else {
                    "New position is out of bounds"@
                }
            },
            final(self).actions() == old(self).actions(),
            final(self).changed() == old(self).changed(),
            final(self).interested() == old(self).interested(),
    {
        let pos = match self.position_of(uuid) {
            Some(p) => p,
            None => {
                return Err(BackendError::Msg(String::from_str("UUID not present in order")));
            },
        };
        if new_pos >= self.order.len() {
            return Err(BackendError::Msg(String::from_str("New position is out of bounds")));
        }
        self.order.remove(pos);
        self.order.insert(new_pos, uuid);
        self.order_changed = true;
        Ok(())
    }

    /// Removes the action with this UUID, and its first place in the order,
    /// returning it if there was one.
    pub fn remove(&mut self, uuid: Uuid) -> (r: Option<A>)
        ensures
            r is Some <==> old(self).actions().contains_key(uuid),
            r matches Some(a) ==> a == old(self).actions()[uuid],
            final(self).actions() == old(self).actions().remove(uuid),
            final(self).order_seq() == match first_position(old(self).order_seq(), uuid) {
                Some(p) => old(self).order_seq().remove(p),
                None => old(self).order_seq(),
            },
            final(self).order_changed() == (old(self).order_changed() || old(
                self,
            ).order_seq().contains(uuid)),
            final(self).changed() == old(self).changed(),
            final(self).interested() == old(self).interested(),
    {
        if let Some(pos) = self.position_of(uuid) {
            self.order.remove(pos);
            self.order_changed = true;
        }
        self.actions.remove(&uuid)
    }

    /// Takes the action with this UUID out (leaving the order alone), to be
    /// put back with `insert_after_editing`; marks it changed if asked to.
    pub fn remove_for_editing(&mut self, uuid: Uuid, mark_changed: bool) -> (r: Option<A>)
        ensures
            r is Some <==> old(self).actions().contains_key(uuid),
            r matches Some(a) ==> a == old(self).actions()[uuid],
            final(self).actions() == old(self).actions().remove(uuid),
            final(self).order_seq() == old(self).order_seq(),
            final(self).order_changed() == old(self).order_changed(),
            final(self).changed() == if mark_changed {
                old(self).changed().insert(uuid)
            } else {
                old(self).changed()
            },
            final(self).interested() == old(self).interested(),
    {
        if mark_changed {
            self.mark_changed(uuid);
        }
        self.actions.remove(&uuid)
    }

    /// Puts back an action taken out with `remove_for_editing`.
    pub fn insert_after_editing(&mut self, uuid: Uuid, act: A)
        requires
            !old(self).actions().contains_key(uuid),
        ensures
            final(self).actions() == old(self).actions().insert(uuid, act),
            final(self).order_seq() == old(self).order_seq(),
            final(self).order_changed() == old(self).order_changed(),
            final(self).changed() == old(self).changed(),
            final(self).interested() == old(self).interested(),
    {
        self.actions.insert(uuid, act);
    }

    /// Takes all actions out (leaving the order alone).
    pub fn remove_all_for_editing(&mut self) -> (r: HashMap<Uuid, A>)
        ensures
            r@ == old(self).actions(),
            final(self).actions() == Map::<Uuid, A>::empty(),
            final(self).order_seq() == old(self).order_seq(),
            final(self).order_changed() == old(self).order_changed(),
            final(self).changed() == old(self).changed(),
            final(self).interested() == old(self).interested(),
    {
        let mut r = HashMap::new();
        std::mem::swap(&mut r, &mut self.actions);
        r
    }

    /// Returns the set of changed actions, and forgets it.
    pub fn clear_changed(&mut self) -> (r: HashSet<Uuid>)
        ensures
            r@ == old(self).changed(),
            final(self).changed() == Set::<Uuid>::empty(),
            final(self).actions() == old(self).actions(),
            final(self).order_seq() == old(self).order_seq(),
            final(self).order_changed() == old(self).order_changed(),
            final(self).interested() == old(self).interested(),
    {
        let mut r = HashSet::new();
        std::mem::swap(&mut r, &mut self.changed);
        r
    }

    /// Returns whether the order changed, and forgets it.
    pub fn clear_order_changed(&mut self) -> (r: bool)
        ensures
            r == old(self).order_changed(),
            !final(self).order_changed(),
            final(self).actions() == old(self).actions(),
            final(self).order_seq() == old(self).order_seq(),
            final(self).changed() == old(self).changed(),
            final(self).interested() == old(self).interested(),
    {
        let r = self.order_changed;
        self.order_changed = false;
        r
    }

    /// Marks the action with this UUID as changed.
    pub fn mark_changed(&mut self, uu: Uuid)
        ensures
            final(self).changed() == old(self).changed().insert(uu),
            final(self).actions() == old(self).actions(),
            final(self).order_seq() == old(self).order_seq(),
            final(self).order_changed() == old(self).order_changed(),
            final(self).interested() == old(self).interested(),
    {
        self.changed.insert(uu);
    }

    /// Asks for the action with this UUID to be polled.
    pub fn register_interest(&mut self, uu: Uuid)
        ensures
            final(self).interested() == old(self).interested().insert(uu),
            final(self).actions() == old(self).actions(),
            final(self).order_seq() == old(self).order_seq(),
            final(self).order_changed() == old(self).order_changed(),
            final(self).changed() == old(self).changed(),
    {
        self.async_actions.insert(uu);
    }

    /// Stops polling the action with this UUID.
    pub fn unregister_interest(&mut self, uu: Uuid)
        ensures
            final(self).interested() == old(self).interested().remove(uu),
            final(self).actions() == old(self).actions(),
            final(self).order_seq() == old(self).order_seq(),
            final(self).order_changed() == old(self).order_changed(),
            final(self).changed() == old(self).changed(),
    {
        self.async_actions.remove(&uu);
    }

    /// Ends a round of polling. `polled` holds, for each action that was
    /// polled, its UUID and whether it wants to be polled again; an action
    /// stays polled only if it still exists and said so.
    pub fn on_wakeup(&mut self, polled: &Vec<(Uuid, bool)>)
        ensures
            final(self).interested() == old(self).interested().filter(
                |u: Uuid| old(self).actions().contains_key(u) && polled@.contains((u, true)),
            ),
            final(self).actions() == old(self).actions(),
            final(self).order_seq() == old(self).order_seq(),
            final(self).order_changed() == old(self).order_changed(),
            final(self).changed() == old(self).changed(),
    {
        let ghost before = self.async_actions@;
        let list = self.interested_list();
        let mut keep: HashSet<Uuid> = HashSet::new();
        let mut i: usize = 0;
        while i < list.len()
            invariant
                i <= list@.len(),
                list@.to_set() == before,
                keep@ == list@.take(i as int).to_set().filter(
                    |u: Uuid| self.actions@.contains_key(u) && polled@.contains((u, true)),
                ),
            decreases list@.len() - i,
        {
            let uu = list[i];
            let mut wants = false;
            if self.actions.contains_key(&uu) {
                let mut j: usize = 0;
                while j < polled.len()
                    invariant
                        j <= polled@.len(),
                        wants <==> exists|k: int| 0 <= k < j && polled@[k] == (uu, true),
                    decreases polled@.len() - j,
                {
                    let (pu, more) = polled[j];
                    if pu == uu && more {
                        wants = true;
                    }
                    j = j + 1;
                }
            }
            if wants {
                keep.insert(uu);
            }
            proof {
                assert(list@.take(i as int + 1) =~= list@.take(i as int).push(uu));
                list@.take(i as int).lemma_push_to_set_commute(uu);
                assert(wants <==> self.actions@.contains_key(uu) && polled@.contains((uu, true)));
                assert(keep@ =~= list@.take(i as int + 1).to_set().filter(
                    |u: Uuid| self.actions@.contains_key(u) && polled@.contains((u, true)),
                ));
            }
            i = i + 1;
        }
        proof {
            assert(list@.take(list@.len() as int) =~= list@);
        }
        self.async_actions = keep;
    }

    /// The UUIDs of the actions that want to be polled, each once, in no
    /// particular order.
    pub fn interested_list(&self) -> (r: Vec<Uuid>)
        ensures
            r@.to_set() == self.interested(),
            r@.no_duplicates(),
    {
        let mut r: Vec<Uuid> = Vec::new();
        let ghost keys_seq = self.async_actions.iter().remaining().unref();
        for k in iter: self.async_actions.iter()
            invariant
                keys_seq == iter.seq().unref(),
                keys_seq.to_set() == self.async_actions@,
                keys_seq.no_duplicates(),
                r@ == keys_seq.take(iter.index() as int),
        {
            r.push(*k);
            proof {
                assert(r@ =~= keys_seq.take(iter.index() as int + 1));
            }
        }
        proof {
            assert(r@ =~= keys_seq);
        }
        r
    }
}


/// Moving an entry of an order without repeats puts it first at its new
/// position, keeps the order without repeats and of the same length, and
/// leaves every other entry in the same relative order.
pub proof fn lemma_moved(s: Seq<Uuid>, pos: int, new_pos: int)
    requires
        s.no_duplicates(),
        0 <= pos < s.len(),
        0 <= new_pos < s.len(),
    ensures
        moved(s, pos, new_pos).len() == s.len(),
        moved(s, pos, new_pos)[new_pos] == s[pos],
        first_position(moved(s, pos, new_pos), s[pos]) == Some(new_pos),
        moved(s, pos, new_pos).no_duplicates(),
        moved(s, pos, new_pos).remove(new_pos) == s.remove(pos),
{
    let x = s[pos];
    let t = s.remove(pos);
    let m = moved(s, pos, new_pos);
    assert forall|j: int| 0 <= j < t.len() implies t[j] != x by {
        if j < pos {
            assert(t[j] == s[j]);
        } else {
            assert(t[j] == s[j + 1]);
        }
    }
    assert forall|j: int| 0 <= j < new_pos implies m[j] != x by {
        assert(m[j] == t[j]);
    }
    lemma_first_position(m, x, new_pos);
    assert forall|i: int, j: int| 0 <= i < m.len() && 0 <= j < m.len() && i != j implies m[i]
        != m[j] by {
        assert(forall|a: int, b: int|
            0 <= a < t.len() && 0 <= b < t.len() && a != b ==> t[a] != t[b]) by {
            assert forall|a: int, b: int|
                0 <= a < t.len() && 0 <= b < t.len() && a != b implies t[a] != t[b] by {
                let sa = if a < pos { a } else { a + 1 };
                let sb = if b < pos { b } else { b + 1 };
                assert(t[a] == s[sa] && t[b] == s[sb]);
            }
        }
        if i != new_pos && j != new_pos {
            let ti = if i < new_pos { i } else { i - 1 };
            let tj = if j < new_pos { j } else { j - 1 };
            assert(m[i] == t[ti] && m[j] == t[tj]);
        } else if i == new_pos {
            let tj = if j < new_pos { j } else { j - 1 };
            assert(m[j] == t[tj]);
        } else {
            let ti = if i < new_pos { i } else { i - 1 };
            assert(m[i] == t[ti]);
        }
    }
    assert(m.remove(new_pos) =~= t);
}

/// Reordering an action in an order without repeats puts it at the asked
/// position and leaves every other action where it was relative to the rest.
pub proof fn lemma_reorder<A>(before: ActionManager<A>, after: ActionManager<A>, uuid: Uuid, new_pos: usize)
    requires
        before.order_seq().no_duplicates(),
        before.order_seq().contains(uuid),
        new_pos < before.order_seq().len(),
        after.order_seq() == moved(
            before.order_seq(),
            first_position(before.order_seq(), uuid).unwrap(),
            new_pos as int,
        ),
    ensures
        first_position(after.order_seq(), uuid) == Some(new_pos as int),
        after.order_seq().no_duplicates(),
        after.order_seq().remove(new_pos as int) == before.order_seq().remove(
            first_position(before.order_seq(), uuid).unwrap(),
        ),
{
    let s = before.order_seq();
    let k = choose|i: int| is_first_position(s, uuid, i);
    assert(is_first_position(s, uuid, k)) by {
        assert(s.contains(uuid));
        let w = choose|w: int| 0 <= w < s.len() && s[w] == uuid;
        assert(is_first_position(s, uuid, w)) by {
            assert forall|z: int| 0 <= z < w implies s[z] != uuid by {
                assert(s[z] != s[w]);
            }
        }
    }
    lemma_moved(s, k, new_pos as int);
}

/// Inserting a new action and then removing it gives back that action and
/// leaves the actions and the order as they were.
pub proof fn lemma_insert_then_remove<A>(
    before: ActionManager<A>,
    uuid: Uuid,
    act: A,
    after_insert: ActionManager<A>,
    removed: Option<A>,
    after_remove: ActionManager<A>,
)
    requires
        !before.actions().contains_key(uuid),
        !before.order_seq().contains(uuid),
        after_insert.actions() == before.actions().insert(uuid, act),
        after_insert.order_seq() == before.order_seq().push(uuid),
        removed == Some(after_insert.actions()[uuid]),
        after_remove.actions() == after_insert.actions().remove(uuid),
        after_remove.order_seq() == match first_position(after_insert.order_seq(), uuid) {
            Some(p) => after_insert.order_seq().remove(p),
            None => after_insert.order_seq(),
        },
    ensures
        removed == Some(act),
        after_remove.actions() == before.actions(),
        after_remove.order_seq() == before.order_seq(),
{
    let s = before.order_seq();
    let t = s.push(uuid);
    assert forall|j: int| 0 <= j < s.len() implies t[j] != uuid by {
        assert(t[j] == s[j]);
    }
    lemma_first_position(t, uuid, s.len() as int);
    assert(t.remove(s.len() as int) =~= s);
    assert(after_remove.actions() =~= before.actions());
}

/// Taking an action out for editing without marking it, and putting it back,
/// leaves the manager as it was.
pub proof fn lemma_edit_round_trip<A>(
    before: ActionManager<A>,
    uuid: Uuid,
    taken: Option<A>,
    during: ActionManager<A>,
    after: ActionManager<A>,
)
    requires
        before.actions().contains_key(uuid),
        taken == Some(before.actions()[uuid]),
        during.actions() == before.actions().remove(uuid),
        during.changed() == before.changed(),
        after.actions() == during.actions().insert(uuid, taken.unwrap()),
        after.changed() == during.changed(),
    ensures
        after.actions() == before.actions(),
        after.changed() == before.changed(),
{
    assert(after.actions() =~= before.actions());
}

} // verus!
