use vstd::prelude::*;

verus! {

/// One automation queue that the host hands in for a block: the parameter it changes
/// and the sample offsets of its points, in queue order.
#[derive(Clone, Debug)]
pub struct ParameterQueue {
    pub id: u32,
    pub offsets: Vec<usize>,
}

/// How many of the first `upto` offsets equal `c`.
pub open spec fn count_equal(offsets: Seq<usize>, upto: int, c: usize) -> nat
    decreases upto,
{
    if upto <= 0 {
        0
    } else {
        count_equal(offsets, upto - 1, c) + if offsets[upto - 1] == c {
            1nat
        } else {
            0nat
        }
    }
}

/// Point `p` of a queue is still to be delivered when the iterator stands at sample
/// offset `offset` after `index` deliveries there: it lies later, or it lies at `offset`
/// and at least `index` earlier points of its own queue lie there too.
pub open spec fn is_candidate(offsets: Seq<usize>, p: int, offset: usize, index: usize) -> bool {
    &&& 0 <= p < offsets.len()
    &&& offsets[p] > offset || (offsets[p] == offset && count_equal(offsets, p, offset) >= index)
}

/// Point `(q1, p1)` comes no later than `(q2, p2)` in queue-major order.
pub open spec fn comes_first(q1: int, p1: int, q2: int, p2: int) -> bool {
    q1 < q2 || (q1 == q2 && p1 <= p2)
}

pub open spec fn some_candidate(queues: Seq<ParameterQueue>, offset: usize, index: usize) -> bool {
    exists|q: int, p: int|
        0 <= q < queues.len() && #[trigger] is_candidate(queues[q].offsets@, p, offset, index)
}

/// `(q, p)` is the point delivered next: among the candidates it has the smallest offset,
/// and among those it comes first.
pub open spec fn is_next_point(
    queues: Seq<ParameterQueue>,
    q: int,
    p: int,
    offset: usize,
    index: usize,
) -> bool {
    &&& 0 <= q < queues.len()
    &&& is_candidate(queues[q].offsets@, p, offset, index)
    &&& forall|q2: int, p2: int|
        0 <= q2 < queues.len() && #[trigger] is_candidate(queues[q2].offsets@, p2, offset, index)
            ==> queues[q].offsets@[p] < queues[q2].offsets@[p2] || (queues[q].offsets@[p]
            == queues[q2].offsets@[p2] && comes_first(q, p, q2, p2))
}

/// The position of the first entry of `ids` at or after `from` that equals `id`.
pub open spec fn first_index_of(ids: Seq<u32>, id: u32, from: int) -> Option<int>
    decreases ids.len() - from,
{
    if from < 0 || from >= ids.len() {
        None
    } else if ids[from] == id {
        Some(from)
    } else {
        first_index_of(ids, id, from + 1)
    }
}

/// What a delivered point becomes: the pitch bend of a MIDI channel when its parameter
/// is the one reserved for that channel's pitch bend, else a parameter value.
#[derive(Clone, Copy, Debug, PartialEq, Eq, Structural)]
pub enum ChangeKind {
    PitchBend { channel: u8 },
    Value,
}

pub open spec fn change_kind(pitch_bend_parameter_ids: Seq<u32>, id: u32) -> ChangeKind {
    match first_index_of(pitch_bend_parameter_ids, id, 0) {
        Some(channel) => ChangeKind::PitchBend { channel: channel as u8 },
        None => ChangeKind::Value,
    }
}

proof fn lemma_first_index_of_facts(ids: Seq<u32>, id: u32, from: int)
    requires
        0 <= from,
    ensures
        first_index_of(ids, id, from) matches Some(k) ==> {
            &&& from <= k < ids.len()
            &&& ids[k] == id
            &&& forall|j: int| from <= j < k ==> ids[j] != id
        },
        first_index_of(ids, id, from) is None ==> forall|j: int| from <= j < ids.len() ==> ids[j] != id,
    decreases ids.len() - from,
{
    if from < ids.len() && ids[from] != id {
        lemma_first_index_of_facts(ids, id, from + 1);
    }
}

/// A change to a channel's pitch-bend parameter is that channel's pitch bend: the channel
/// is the first one whose reserved parameter has the change's id, and a change to any
/// other parameter is a plain value.
pub proof fn lemma_change_kind_by_reserved_channel(pitch_bend_parameter_ids: Seq<u32>, id: u32)
    requires
        pitch_bend_parameter_ids.len() == 16,
    ensures
        change_kind(pitch_bend_parameter_ids, id) matches ChangeKind::PitchBend { channel } ==> {
            &&& channel < 16
            &&& pitch_bend_parameter_ids[channel as int] == id
            &&& forall|j: int| 0 <= j < channel ==> pitch_bend_parameter_ids[j] != id
        },
        change_kind(pitch_bend_parameter_ids, id) is Value <==> !pitch_bend_parameter_ids.contains(id),
{
    lemma_first_index_of_facts(pitch_bend_parameter_ids, id, 0);
    if let Some(k) = first_index_of(pitch_bend_parameter_ids, id, 0) {
        assert((k as u8) as int == k);
        assert(pitch_bend_parameter_ids.contains(id)) by {
            assert(pitch_bend_parameter_ids[k] == id);
        }
    }
}

/// The kind of event a parameter change with this id becomes.
pub fn parameter_change_kind(pitch_bend_parameter_ids: &[u32; 16], id: u32) -> (kind: ChangeKind)
    ensures
        kind == change_kind(pitch_bend_parameter_ids@, id),
{
    let mut i: usize = 0;
    while i < 16
        invariant
            0 <= i <= 16,
            pitch_bend_parameter_ids@.len() == 16,
            first_index_of(pitch_bend_parameter_ids@, id, 0) == first_index_of(
                pitch_bend_parameter_ids@,
                id,
                i as int,
            ),
        decreases 16 - i,
    {
        if pitch_bend_parameter_ids[i] == id {
            return ChangeKind::PitchBend { channel: i as u8 };
        }
        i = i + 1;
    }
    ChangeKind::Value
}

/// A point of a queue delivered by the iterator: where it stands (`queue`, `point`, for
/// reading its value) and what it is.
#[derive(Clone, Copy, Debug, PartialEq, Eq, Structural)]
pub struct ParameterChange {
    pub queue: usize,
    pub point: usize,
    pub id: u32,
    pub offset: usize,
    pub kind: ChangeKind,
}

/// Delivers the points of the host's automation queues in order of their sample offsets.
pub struct ParameterChangeIterator {
    parameter_changes: Option<Vec<ParameterQueue>>,
    pitch_bend_parameter_ids: [u32; 16],
    offset: usize,
    index: usize,
    finished: bool,
}

impl ParameterChangeIterator {
    pub closed spec fn queues(&self) -> Option<Seq<ParameterQueue>> {
        match self.parameter_changes {
            Some(v) => Some(v@),
            None => None,
        }
    }

    pub closed spec fn pitch_bend_parameter_ids(&self) -> Seq<u32> {
        self.pitch_bend_parameter_ids@
    }

    /// The sample offset of the last delivery.
    pub closed spec fn offset(&self) -> usize {
        self.offset
    }

    /// How many deliveries have been made at that offset since it was reached.
    pub closed spec fn index(&self) -> usize {
        self.index
    }

    pub closed spec fn finished(&self) -> bool {
        self.finished
    }

    /// `parameter_changes` is `None` where the host passed no queues.
    pub fn new(parameter_changes: Option<Vec<ParameterQueue>>, pitch_bend_parameter_ids: [u32; 16]) -> (it:
        Self)
        ensures
            it.queues() == match parameter_changes {
                Some(v) => Some(v@),
                None => None::<Seq<ParameterQueue>>,
            },
            it.pitch_bend_parameter_ids() == pitch_bend_parameter_ids@,
            it.offset() == 0,
            it.index() == 0,
            !it.finished(),
    {
        ParameterChangeIterator {
            parameter_changes,
            pitch_bend_parameter_ids,
            offset: 0,
            index: 0,
            finished: false,
        }
    }

    pub fn next(&mut self) -> (change: Option<ParameterChange>)
        ensures
            final(self).queues() == old(self).queues(),
            final(self).pitch_bend_parameter_ids() == old(self).pitch_bend_parameter_ids(),
            old(self).finished() || old(self).queues() is None || old(self).queues().unwrap().len()
                == 0 ==> change is None && *final(self) == *old(self),
            !old(self).finished() && old(self).queues() is Some && old(self).queues().unwrap().len()
                > 0 ==> {
                let queues = old(self).queues().unwrap();
                if some_candidate(queues, old(self).offset(), old(self).index()) {
                    change matches Some(c) && {
                        &&& is_next_point(
                            queues,
                            c.queue as int,
                            c.point as int,
                            old(self).offset(),
                            old(self).index(),
                        )
                        &&& c.id == queues[c.queue as int].id
                        &&& c.offset == queues[c.queue as int].offsets@[c.point as int]
                        &&& c.kind == change_kind(old(self).pitch_bend_parameter_ids(), c.id)
                        &&& c.offset >= old(self).offset()
                        &&& !final(self).finished()
                        &&& final(self).offset() == c.offset
                        &&& final(self).index() == if c.offset > old(self).offset() {
                            0
                        } else {
                            old(self).index() + 1
                        }
                    }
                } else {
                    &&& change is None
                    &&& final(self).finished()
                    &&& final(self).offset() == old(self).offset()
                    &&& final(self).index() == old(self).index()
                }
            },
    {
        if self.finished {
            return None;
        }
        let queues = match &self.parameter_changes {
            Some(queues) => queues,
            None => {
                return None;
            },
        };
        if queues.len() == 0 {
            return None;
        }
        let current_offset = self.offset;
        let current_index = self.index;
        let mut best: Option<(usize, usize, usize)> = None;
        let mut q: usize = 0;
        while q < queues.len()
            invariant
                0 <= q <= queues@.len(),
                match best {
                    None => forall|q2: int, p2: int|
                        0 <= q2 < q ==> !#[trigger] is_candidate(
                            queues@[q2].offsets@,
                            p2,
                            current_offset,
                            current_index,
                        ),
                    Some((bq, bp, bo)) => {
                        &&& bq < q
                        &&& 0 <= bq < queues@.len()
                        &&& is_candidate(queues@[bq as int].offsets@, bp as int, current_offset, current_index)
                        &&& bo == queues@[bq as int].offsets@[bp as int]
                        &&& forall|q2: int, p2: int|
                            0 <= q2 < q && #[trigger] is_candidate(
                                queues@[q2].offsets@,
                                p2,
                                current_offset,
                                current_index,
                            ) ==> bo < queues@[q2].offsets@[p2] || (bo == queues@[q2].offsets@[p2]
                                && comes_first(bq as int, bp as int, q2, p2))
                    },
                },
            decreases queues@.len() - q,
        {
            let offsets = &queues[q].offsets;
            let mut nth: usize = 0;
            let mut p: usize = 0;
            while p < offsets.len()
                invariant
                    0 <= q < queues@.len(),
                    offsets@ == queues@[q as int].offsets@,
                    0 <= p <= offsets@.len(),
                    nth == if count_equal(offsets@, p as int, current_offset) < current_index {
                        count_equal(offsets@, p as int, current_offset)
                    } else {
                        current_index as nat
                    },
                    match best {
                        None => forall|q2: int, p2: int|
                            (0 <= q2 < q || (q2 == q && p2 < p)) ==> !#[trigger] is_candidate(
                                queues@[q2].offsets@,
                                p2,
                                current_offset,
                                current_index,
                            ),
                        Some((bq, bp, bo)) => {
                            &&& (bq < q || (bq == q && bp < p))
                            &&& 0 <= bq < queues@.len()
                            &&& is_candidate(
                                queues@[bq as int].offsets@,
                                bp as int,
                                current_offset,
                                current_index,
                            )
                            &&& bo == queues@[bq as int].offsets@[bp as int]
                            &&& forall|q2: int, p2: int|
                                (0 <= q2 < q || (q2 == q && 0 <= p2 < p)) && #[trigger] is_candidate(
                                    queues@[q2].offsets@,
                                    p2,
                                    current_offset,
                                    current_index,
                                ) ==> bo < queues@[q2].offsets@[p2] || (bo
                                    == queues@[q2].offsets@[p2] && comes_first(
                                    bq as int,
                                    bp as int,
                                    q2,
                                    p2,
                                ))
                        },
                    },
                decreases offsets@.len() - p,
            {
                let point_offset = offsets[p];
                let candidate = if point_offset == current_offset {
                    if nth >= current_index {
                        true
                    } else {
                        nth = nth + 1;
                        false
                    }
                } else {
                    point_offset > current_offset
                };
                proof {
                    assert(candidate == is_candidate(offsets@, p as int, current_offset, current_index));
                }
                if candidate {
                    match best {
                        None => {
                            best = Some((q, p, point_offset));
                        },
                        Some((_, _, best_offset)) => {
                            if point_offset < best_offset {
                                best = Some((q, p, point_offset));
                            }
                        },
                    }
                }
                p = p + 1;
            }
            q = q + 1;
        }
        match best {
            None => {
                self.finished = true;
                None
            },
            Some((bq, bp, bo)) => {
                let id = queues[bq].id;
                let point_count = queues[bq].offsets.len();
                proof {
                    assert(count_equal(queues@[bq as int].offsets@, bp as int, current_offset)
                        < point_count) by {
                        lemma_count_equal_bound(queues@[bq as int].offsets@, bp as int, current_offset);
                    }
                }
                let kind = parameter_change_kind(&self.pitch_bend_parameter_ids, id);
                if bo > self.offset {
                    self.offset = bo;
                    self.index = 0;
                } else {
                    self.index = self.index + 1;
                }
                Some(ParameterChange { queue: bq, point: bp, id, offset: bo, kind })
            },
        }
    }
}

pub proof fn lemma_count_equal_bound(offsets: Seq<usize>, upto: int, c: usize)
    requires
        0 <= upto <= offsets.len(),
    ensures
        count_equal(offsets, upto, c) <= upto,
    decreases upto,
{
    if upto > 0 {
        lemma_count_equal_bound(offsets, upto - 1, c);
    }
}

} // verus!
