use vstd::prelude::*;
use crate::parameters::{sorted_ids, strictly_increasing};

verus! {

/// The parameter changes pending at and after position `from`, in id order: the id and
/// latest value of each changed parameter.
pub open spec fn pending_from<V>(ids: Seq<u32>, values: Seq<V>, changed: Seq<bool>, from: int) -> Seq<(u32, V)>
    decreases ids.len() - from,
{
    if from < 0 || from >= ids.len() {
        Seq::empty()
    } else if changed[from] {
        seq![(ids[from], values[from])] + pending_from(ids, values, changed, from + 1)
    } else {
        pending_from(ids, values, changed, from + 1)
    }
}

/// The parameter changes the editor of a standalone plugin makes, kept by parameter id
/// until the audio callback takes them: one latest value per parameter.
pub struct StandaloneParameterEventMap<V> {
    ids: Vec<u32>,
    values: Vec<V>,
    changed: Vec<bool>,
}

impl<V: Copy> StandaloneParameterEventMap<V> {
    /// The parameter ids, in increasing order.
    pub closed spec fn ids(&self) -> Seq<u32> {
        self.ids@
    }

    pub closed spec fn values(&self) -> Seq<V> {
        self.values@
    }

    pub closed spec fn changed(&self) -> Seq<bool> {
        self.changed@
    }

    pub open spec fn wf(&self) -> bool {
        &&& strictly_increasing(self.ids())
        &&& self.values().len() == self.ids().len()
        &&& self.changed().len() == self.ids().len()
    }

    /// What the next call of `take_events` gives.
    pub open spec fn pending(&self) -> Seq<(u32, V)> {
        pending_from(self.ids(), self.values(), self.changed(), 0)
    }

    /// A map over the plugin's parameters (each id once) with nothing pending; `initial`
    /// is the value kept for a parameter not yet changed.
    pub fn new(parameter_ids: &[u32], initial: V) -> (map: Self)
        ensures
            map.wf(),
            forall|id: u32| map.ids().contains(id) <==> parameter_ids@.contains(id),
            forall|k: int| 0 <= k < map.ids().len() ==> !(#[trigger] map.changed()[k]),
            forall|k: int| 0 <= k < map.ids().len() ==> #[trigger] map.values()[k] == initial,
    {
        let ids = sorted_ids(parameter_ids);
        let mut values: Vec<V> = Vec::new();
        let mut changed: Vec<bool> = Vec::new();
        let mut i: usize = 0;
        while i < ids.len()
            invariant
                0 <= i <= ids@.len(),
                values@.len() == i,
                changed@.len() == i,
                forall|k: int| 0 <= k < i ==> !(#[trigger] changed@[k]),
                forall|k: int| 0 <= k < i ==> #[trigger] values@[k] == initial,
            decreases ids@.len() - i,
        {
            values.push(initial);
            changed.push(false);
            i = i + 1;
        }
        StandaloneParameterEventMap { ids, values, changed }
    }

    fn position_of(&self, id: u32) -> (k: usize)
        requires
            self.wf(),
            self.ids().contains(id),
        ensures
            k < self.ids().len(),
            self.ids()[k as int] == id,
    {
        let mut k: usize = 0;
        while k < self.ids.len()
            invariant
                0 <= k <= self.ids@.len(),
                forall|j: int| 0 <= j < k ==> self.ids@[j] != id,
                self.ids@.contains(id),
            decreases self.ids@.len() - k,
        {
            if self.ids[k] == id {
                return k;
            }
            k = k + 1;
        }
        proof {
            let j = choose|j: int| 0 <= j < self.ids@.len() && self.ids@[j] == id;
            assert(self.ids@[j] != id);
        }
        0
    }

    /// Records the editor's new value for a parameter of the plugin; it replaces any
    /// value still pending for it.
    pub fn change_parameter_value(&mut self, id: u32, value: V)
        requires
            old(self).wf(),
            old(self).ids().contains(id),
        ensures
            final(self).wf(),
            final(self).ids() == old(self).ids(),
            exists|k: int|
                0 <= k < old(self).ids().len() && old(self).ids()[k] == id && final(self).values()
                    == old(self).values().update(k, value) && final(self).changed()
                    == old(self).changed().update(k, true),
    {
        let k = self.position_of(id);
        self.values.set(k, value);
        self.changed.set(k, true);
        assert(self.ids@[k as int] == id);
    }

    /// Takes the pending changes, in id order, and leaves nothing pending.
    pub fn take_events(&mut self) -> (events: Vec<(u32, V)>)
        requires
            old(self).wf(),
        ensures
            final(self).wf(),
            events@ == old(self).pending(),
            final(self).ids() == old(self).ids(),
            final(self).values() == old(self).values(),
            forall|k: int| 0 <= k < final(self).ids().len() ==> !(#[trigger] final(self).changed()[k]),
    {
        let ghost ids = self.ids@;
        let ghost values = self.values@;
        let ghost changed = self.changed@;
        let mut events: Vec<(u32, V)> = Vec::new();
        let mut i: usize = 0;
        while i < self.ids.len()
            invariant
                0 <= i <= self.ids@.len(),
                self.ids@ == ids,
                self.values@ == values,
                self.changed@.len() == changed.len(),
                ids.len() == values.len(),
                ids.len() == changed.len(),
                forall|k: int| 0 <= k < i ==> !(#[trigger] self.changed@[k]),
                forall|k: int| i <= k < ids.len() ==> #[trigger] self.changed@[k] == changed[k],
                events@ + pending_from(ids, values, changed, i as int) == pending_from(ids, values, changed, 0),
            decreases self.ids@.len() - i,
        {
            if self.changed[i] {
                let ghost rest = pending_from(ids, values, changed, i + 1);
                let ghost before = events@;
                events.push((self.ids[i], self.values[i]));
                proof {
                    assert(before + (seq![(ids[i as int], values[i as int])] + rest) == before.push(
                        (ids[i as int], values[i as int]),
                    ) + rest);
                }
                self.changed.set(i, false);
            }
            i = i + 1;
        }
        proof {
            assert(events@ + Seq::<(u32, V)>::empty() == events@);
        }
        events
    }
}

/// With no change flagged from `from` on, nothing is pending from there.
pub proof fn lemma_nothing_flagged_nothing_pending<V>(ids: Seq<u32>, values: Seq<V>, changed: Seq<bool>, from: int)
    requires
        changed.len() == ids.len(),
        forall|k: int| from <= k < ids.len() ==> !(#[trigger] changed[k]),
    ensures
        pending_from(ids, values, changed, from) == Seq::<(u32, V)>::empty(),
    decreases ids.len() - from,
{
    if from < 0 {
        return;
    }
    if from < ids.len() {
        lemma_nothing_flagged_nothing_pending(ids, values, changed, from + 1);
    }
}

/// A flagged change is pending with its latest value.
pub proof fn lemma_flagged_change_pending<V>(ids: Seq<u32>, values: Seq<V>, changed: Seq<bool>, from: int, k: int)
    requires
        0 <= from <= k < ids.len(),
        changed.len() == ids.len(),
        values.len() == ids.len(),
        changed[k],
    ensures
        pending_from(ids, values, changed, from).contains((ids[k], values[k])),
    decreases k - from,
{
    if from == k {
        assert(pending_from(ids, values, changed, from)[0] == (ids[k], values[k]));
    } else {
        lemma_flagged_change_pending(ids, values, changed, from + 1, k);
        let rest = pending_from(ids, values, changed, from + 1);
        let j = choose|j: int| 0 <= j < rest.len() && rest[j] == (ids[k], values[k]);
        if changed[from] {
            assert(pending_from(ids, values, changed, from)[j + 1] == (ids[k], values[k]));
        }
    }
}

/// The pending changes come in increasing id order, so each parameter at most once, and
/// none has an id below the first one considered.
pub proof fn lemma_pending_in_id_order<V>(ids: Seq<u32>, values: Seq<V>, changed: Seq<bool>, from: int)
    requires
        0 <= from,
        strictly_increasing(ids),
        changed.len() == ids.len(),
        values.len() == ids.len(),
    ensures
        forall|a: int, b: int|
            0 <= a < b < pending_from(ids, values, changed, from).len() ==> (#[trigger] pending_from(
                ids,
                values,
                changed,
                from,
            )[a]).0 < (#[trigger] pending_from(ids, values, changed, from)[b]).0,
        from < ids.len() ==> forall|a: int|
            0 <= a < pending_from(ids, values, changed, from).len() ==> (#[trigger] pending_from(
                ids,
                values,
                changed,
                from,
            )[a]).0 >= ids[from],
    decreases ids.len() - from,
{
    if from < ids.len() {
        lemma_pending_in_id_order(ids, values, changed, from + 1);
        let rest = pending_from(ids, values, changed, from + 1);
        let p = pending_from(ids, values, changed, from);
        if from + 1 < ids.len() {
            assert(ids[from] < ids[from + 1]);
        } else {
            assert(rest.len() == 0);
        }
        if changed[from] {
            assert forall|a: int| 0 < a < p.len() implies #[trigger] p[a] == rest[a - 1] by {}
            assert forall|a: int, b: int| 0 <= a < b < p.len() implies (#[trigger] p[a]).0 < (
            #[trigger] p[b]).0 by {
                assert(p[b] == rest[b - 1]);
                if a > 0 {
                    assert(p[a] == rest[a - 1]);
                }
            }
            assert forall|a: int| 0 <= a < p.len() implies (#[trigger] p[a]).0 >= ids[from] by {
                if a > 0 {
                    assert(p[a] == rest[a - 1]);
                }
            }
        }
    }
}

impl<V: Copy> StandaloneParameterEventMap<V> {
    /// The changes taken come in increasing id order: at most one, the latest, per
    /// parameter.
    pub proof fn lemma_taken_in_id_order(&self)
        requires
            self.wf(),
        ensures
            forall|a: int, b: int|
                0 <= a < b < self.pending().len() ==> (#[trigger] self.pending()[a]).0 < (
                #[trigger] self.pending()[b]).0,
    {
        lemma_pending_in_id_order(self.ids(), self.values(), self.changed(), 0);
    }

    /// Once the changes are taken, none is pending until the editor makes another.
    pub proof fn lemma_taken_leaves_nothing(&self)
        requires
            self.wf(),
            forall|k: int| 0 <= k < self.ids().len() ==> !(#[trigger] self.changed()[k]),
        ensures
            self.pending() == Seq::<(u32, V)>::empty(),
    {
        lemma_nothing_flagged_nothing_pending(self.ids(), self.values(), self.changed(), 0);
    }

    /// A value the editor set is among the changes next taken, for its parameter, unless
    /// a later value replaced it.
    pub proof fn lemma_changed_value_pending(before: Self, after: Self, id: u32, value: V)
        requires
            before.wf(),
            after.wf(),
            after.ids() == before.ids(),
            exists|k: int|
                0 <= k < before.ids().len() && before.ids()[k] == id && after.values()
                    == before.values().update(k, value) && after.changed()
                    == before.changed().update(k, true),
        ensures
            after.pending().contains((id, value)),
    {
        let k = choose|k: int|
            0 <= k < before.ids().len() && before.ids()[k] == id && after.values()
                == before.values().update(k, value) && after.changed() == before.changed().update(
                k,
                true,
            );
        lemma_flagged_change_pending(after.ids(), after.values(), after.changed(), 0, k);
    }
}

} // verus!
