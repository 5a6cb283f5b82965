use vstd::prelude::*;

verus! {

/// A group of parameters as the formats show it: its path (which parameters name to
/// join it), its display name, and the path of the group it nests in.
#[derive(Clone, Debug)]
pub struct ParameterGroup {
    pub path: String,
    pub name: String,
    pub parent: Option<String>,
}

/// The position of the first group with this path.
pub open spec fn group_position(groups: Seq<ParameterGroup>, path: Seq<char>) -> Option<int> {
    if exists|i: int| 0 <= i < groups.len() && #[trigger] groups[i].path@ == path {
        Some(
            choose|i: int|
                0 <= i < groups.len() && #[trigger] groups[i].path@ == path && forall|j: int|
                    0 <= j < i ==> #[trigger] groups[j].path@ != path,
        )
    } else {
        None
    }
}

/// The position of the first group with `path`, if any.
pub fn find_group(groups: &[ParameterGroup], path: &String) -> (position: Option<usize>)
    ensures
        match position {
            Some(i) => {
                &&& i < groups@.len()
                &&& groups@[i as int].path@ == path@
                &&& forall|j: int| 0 <= j < i ==> #[trigger] groups@[j].path@ != path@
            },
            None => forall|j: int| 0 <= j < groups@.len() ==> #[trigger] groups@[j].path@ != path@,
        },
        position matches Some(i) ==> group_position(groups@, path@) == Some(i as int),
        position is None ==> group_position(groups@, path@) is None,
{
    let mut i: usize = 0;
    while i < groups.len()
        invariant
            0 <= i <= groups@.len(),
            forall|j: int| 0 <= j < i ==> #[trigger] groups@[j].path@ != path@,
        decreases groups@.len() - i,
    {
        if groups[i].path == *path {
            proof {
                let k = choose|k: int|
                    0 <= k < groups@.len() && #[trigger] groups@[k].path@ == path@ && forall|j: int|
                        0 <= j < k ==> #[trigger] groups@[j].path@ != path@;
                assert(k == i) by {
                    if k < i {
                        assert(groups@[k].path@ != path@);
                    }
                    if k > i {
                        assert(groups@[i as int].path@ != path@);
                    }
                }
            }
            return Some(i);
        }
        i = i + 1;
    }
    None
}

/// Whether some id occurs twice.
pub open spec fn has_duplicate_ids(ids: Seq<u32>) -> bool {
    exists|i: int, j: int| 0 <= i < j < ids.len() && ids[i] == ids[j]
}

/// Whether some parameter id occurs twice.
pub fn has_duplicates(ids: &[u32]) -> (duplicates: bool)
    ensures
        duplicates == has_duplicate_ids(ids@),
{
    let mut j: usize = 0;
    while j < ids.len()
        invariant
            0 <= j <= ids@.len(),
            forall|a: int, b: int| 0 <= a < b < j ==> ids@[a] != ids@[b],
        decreases ids@.len() - j,
    {
        let mut i: usize = 0;
        while i < j
            invariant
                0 <= i <= j < ids@.len(),
                forall|a: int| 0 <= a < i ==> ids@[a] != ids@[j as int],
            decreases j - i,
        {
            if ids[i] == ids[j] {
                return true;
            }
            i = i + 1;
        }
        j = j + 1;
    }
    false
}

/// How many of the flags are set.
pub open spec fn count_set(flags: Seq<bool>) -> nat
    decreases flags.len(),
{
    if flags.len() == 0 {
        0
    } else {
        count_set(flags.drop_last()) + if flags.last() {
            1nat
        } else {
            0nat
        }
    }
}

/// Why a plugin's parameter set is refused.
#[derive(Clone, Copy, Debug, PartialEq, Eq, Structural)]
pub enum ParameterSetError {
    DuplicateId,
    SeveralBypassParameters,
}

/// Checks a plugin's parameters, given by id with a flag for the bypass parameter: ids
/// must be distinct and at most one parameter may bypass.
pub fn check_parameter_set(ids: &[u32], is_bypass: &[bool]) -> (checked: Result<(), ParameterSetError>)
    requires
        ids@.len() == is_bypass@.len(),
    ensures
        checked == if has_duplicate_ids(ids@) {
            Err::<(), ParameterSetError>(ParameterSetError::DuplicateId)
        } else if count_set(is_bypass@) > 1 {
            Err(ParameterSetError::SeveralBypassParameters)
        } else {
            Ok(())
        },
{
    if has_duplicates(ids) {
        return Err(ParameterSetError::DuplicateId);
    }
    let mut count: usize = 0;
    let mut i: usize = 0;
    while i < is_bypass.len()
        invariant
            0 <= i <= is_bypass@.len(),
            count == count_set(is_bypass@.subrange(0, i as int)),
            count <= i,
        decreases is_bypass@.len() - i,
    {
        proof {
            assert(is_bypass@.subrange(0, i + 1).drop_last() == is_bypass@.subrange(0, i as int));
        }
        if is_bypass[i] {
            count = count + 1;
        }
        i = i + 1;
    }
    proof {
        assert(is_bypass@.subrange(0, is_bypass@.len() as int) == is_bypass@);
    }
    if count > 1 {
        Err(ParameterSetError::SeveralBypassParameters)
    } else {
        Ok(())
    }
}

/// Strictly increasing: each id once, in order.
pub open spec fn strictly_increasing(ids: Seq<u32>) -> bool {
    forall|i: int, j: int| 0 <= i < j < ids.len() ==> ids[i] < ids[j]
}

/// The ids in increasing order, each once: the order in which a map keyed by id holds
/// the parameters.
pub fn sorted_ids(ids: &[u32]) -> (sorted: Vec<u32>)
    ensures
        strictly_increasing(sorted@),
        forall|id: u32| sorted@.contains(id) <==> ids@.contains(id),
{
    let mut sorted: Vec<u32> = Vec::new();
    let mut i: usize = 0;
    while i < ids.len()
        invariant
            0 <= i <= ids@.len(),
            strictly_increasing(sorted@),
            forall|id: u32| sorted@.contains(id) <==> ids@.subrange(0, i as int).contains(id),
        decreases ids@.len() - i,
    {
        let id = ids[i];
        let mut pos: usize = 0;
        while pos < sorted.len() && sorted[pos] < id
            invariant
                0 <= pos <= sorted@.len(),
                forall|k: int| 0 <= k < pos ==> #[trigger] sorted@[k] < id,
            decreases sorted@.len() - pos,
        {
            pos = pos + 1;
        }
        let ghost prefix = ids@.subrange(0, i as int);
        let ghost next = ids@.subrange(0, i + 1);
        proof {
            assert(next == prefix.push(id));
        }
        if pos < sorted.len() && sorted[pos] == id {
            proof {
                assert forall|x: u32| sorted@.contains(x) <==> next.contains(x) by {
                    if x == id {
                        assert(sorted@[pos as int] == id);
                        assert(next[i as int] == id);
                    } else {
                        if next.contains(x) {
                            let k = choose|k: int| 0 <= k < i + 1 && #[trigger] next[k] == x;
                            assert(prefix[k] == x);
                        }
                        if prefix.contains(x) {
                            let k = choose|k: int| 0 <= k < i && #[trigger] prefix[k] == x;
                            assert(next[k] == x);
                        }
                    }
                }
            }
        } else {
            let ghost old_sorted = sorted@;
            sorted.insert(pos, id);
            proof {
                assert forall|k: int| 0 <= k < pos implies #[trigger] sorted@[k] == old_sorted[k] by {}
                assert forall|k: int| pos < k < sorted@.len() implies #[trigger] sorted@[k] == old_sorted[k - 1] by {}
                assert forall|a: int, b: int| 0 <= a < b < sorted@.len() implies sorted@[a] < sorted@[b] by {
                    if b < pos {
                    } else if b == pos {
                    } else if a < pos {
                        assert(old_sorted[a] < id);
                        if pos < old_sorted.len() {
                            assert(old_sorted[pos as int] >= id);
                            assert(old_sorted[pos as int] != id);
                            assert(old_sorted[b - 1] >= old_sorted[pos as int]);
                        }
                    } else if a == pos {
                        assert(old_sorted[pos as int] != id);
                        assert(old_sorted[b - 1] >= old_sorted[pos as int]);
                    } else {
                    }
                }
                assert forall|x: u32| sorted@.contains(x) <==> next.contains(x) by {
                    if x == id {
                        assert(sorted@[pos as int] == id);
                        assert(next[i as int] == id);
                    } else {
                        if sorted@.contains(x) {
                            let k = choose|k: int| 0 <= k < sorted@.len() && #[trigger] sorted@[k] == x;
                            if k < pos {
                                assert(old_sorted[k] == x);
                            } else {
                                assert(old_sorted[k - 1] == x);
                            }
                        }
                        if old_sorted.contains(x) {
                            let k = choose|k: int| 0 <= k < old_sorted.len() && #[trigger] old_sorted[k] == x;
                            if k < pos {
                                assert(sorted@[k] == x);
                            } else {
                                assert(sorted@[k + 1] == x);
                            }
                        }
                        if next.contains(x) {
                            let k = choose|k: int| 0 <= k < i + 1 && #[trigger] next[k] == x;
                            assert(prefix[k] == x);
                        }
                        if prefix.contains(x) {
                            let k = choose|k: int| 0 <= k < i && #[trigger] prefix[k] == x;
                            assert(next[k] == x);
                        }
                    }
                }
            }
        }
        i = i + 1;
    }
    proof {
        assert(ids@.subrange(0, ids@.len() as int) == ids@);
    }
    sorted
}

/// A parameter as the plugin declares it, as far as the plugin formats read it.
#[derive(Clone, Debug)]
pub struct ParameterDescriptor {
    pub id: u32,
    pub name: String,
    /// The path of the group the parameter belongs to; empty for none.
    pub path: String,
    /// The number of steps of a stepped parameter, 0 for a continuous one.
    pub steps: u32,
    pub is_bypass: bool,
    pub visible: bool,
}

pub open spec fn descriptor_ids(descriptors: Seq<ParameterDescriptor>) -> Seq<u32> {
    descriptors.map_values(|d: ParameterDescriptor| d.id)
}

/// Ids strictly increasing: each parameter once, in id order.
pub open spec fn in_id_order(descriptors: Seq<ParameterDescriptor>) -> bool {
    forall|i: int, j: int| 0 <= i < j < descriptors.len() ==> descriptors[i].id < descriptors[j].id
}

/// The parameters in id order, the order in which a map keyed by id holds them. Their
/// ids must be distinct.
pub fn sorted_by_id(descriptors: Vec<ParameterDescriptor>) -> (sorted: Vec<ParameterDescriptor>)
    requires
        !has_duplicate_ids(descriptor_ids(descriptors@)),
    ensures
        in_id_order(sorted@),
        sorted@.len() == descriptors@.len(),
        forall|d: ParameterDescriptor| sorted@.contains(d) <==> descriptors@.contains(d),
{
    let ghost input = descriptors@;
    let ghost n = input.len() as int;
    proof {
        assert forall|a: int, b: int| 0 <= a < b < n implies input[a].id != input[b].id by {
            assert(descriptor_ids(input)[a] == input[a].id);
            assert(descriptor_ids(input)[b] == input[b].id);
        }
    }
    let mut rest = descriptors;
    let mut sorted: Vec<ParameterDescriptor> = Vec::new();
    while rest.len() > 0
        invariant
            n == input.len(),
            forall|a: int, b: int| 0 <= a < b < n ==> input[a].id != input[b].id,
            rest@ == input.subrange(0, rest@.len() as int),
            sorted@.len() == n - rest@.len(),
            in_id_order(sorted@),
            forall|d: ParameterDescriptor|
                sorted@.contains(d) <==> input.subrange(rest@.len() as int, n).contains(d),
        decreases rest@.len(),
    {
        let m = rest.len();
        let d = rest.pop().unwrap();
        proof {
            assert(d == input[m - 1]);
            assert(rest@ == input.subrange(0, m - 1));
        }
        let mut pos: usize = 0;
        while pos < sorted.len() && sorted[pos].id < d.id
            invariant
                0 <= pos <= sorted@.len(),
                forall|k: int| 0 <= k < pos ==> #[trigger] sorted@[k].id < d.id,
            decreases sorted@.len() - pos,
        {
            pos = pos + 1;
        }
        let ghost old_sorted = sorted@;
        let ghost tail = input.subrange(m as int, n);
        let ghost new_tail = input.subrange(m - 1, n);
        proof {
            assert(new_tail == seq![d] + tail);
            if pos < old_sorted.len() {
                assert(old_sorted.contains(old_sorted[pos as int]));
                let j = choose|j: int| 0 <= j < tail.len() && tail[j] == old_sorted[pos as int];
                assert(input[m + j] == old_sorted[pos as int]);
                assert(old_sorted[pos as int].id != d.id);
            }
        }
        let id = d.id;
        sorted.insert(pos, d);
        proof {
            assert forall|k: int| 0 <= k < pos implies #[trigger] sorted@[k] == old_sorted[k] by {}
            assert forall|k: int| pos < k < sorted@.len() implies #[trigger] sorted@[k] == old_sorted[k
                - 1] by {}
            assert(sorted@[pos as int].id == id);
            assert forall|a: int, b: int| 0 <= a < b < sorted@.len() implies sorted@[a].id < sorted@[b].id by {
                if b < pos {
                } else if b == pos {
                } else if a < pos {
                    assert(old_sorted[a].id < id);
                    assert(old_sorted[pos as int].id > id);
                    assert(old_sorted[b - 1].id >= old_sorted[pos as int].id);
                } else if a == pos {
                    assert(old_sorted[pos as int].id > id);
                    assert(old_sorted[b - 1].id >= old_sorted[pos as int].id);
                } else {
                }
            }
            assert forall|x: ParameterDescriptor| sorted@.contains(x) <==> new_tail.contains(x) by {
                if sorted@.contains(x) {
                    let k = choose|k: int| 0 <= k < sorted@.len() && sorted@[k] == x;
                    if k == pos {
                        assert(new_tail[0] == x);
                    } else {
                        let k0 = if k < pos { k } else { k - 1 };
                        assert(old_sorted[k0] == x);
                        assert(old_sorted.contains(x));
                        let j = choose|j: int| 0 <= j < tail.len() && tail[j] == x;
                        assert(new_tail[j + 1] == x);
                    }
                }
                if new_tail.contains(x) {
                    let j = choose|j: int| 0 <= j < new_tail.len() && new_tail[j] == x;
                    if j == 0 {
                        assert(sorted@[pos as int] == x);
                    } else {
                        assert(tail[j - 1] == x);
                        assert(tail.contains(x));
                        assert(old_sorted.contains(x));
                        let k = choose|k: int| 0 <= k < old_sorted.len() && old_sorted[k] == x;
                        if k < pos {
                            assert(sorted@[k] == x);
                        } else {
                            assert(sorted@[k + 1] == x);
                        }
                    }
                }
            }
        }
    }
    proof {
        assert(input.subrange(0, n) == input);
    }
    sorted
}

} // verus!
