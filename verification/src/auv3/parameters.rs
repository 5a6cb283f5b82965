use vstd::prelude::*;
use std::collections::HashMap;
use crate::parameters::{find_group, group_position, has_duplicate_ids, ParameterGroup};
use crate::text::{append_decimal, decimal};

verus! {

/// What the Audio Unit front end keeps of a parameter besides its value.
#[derive(Clone, Debug)]
pub struct ParameterEntry {
    pub id: u32,
    /// The number of steps of a stepped parameter, 0 for a continuous one.
    pub steps: u32,
    pub name: String,
    /// The path of the group the parameter belongs to.
    pub path: String,
}

pub open spec fn entry_ids(entries: Seq<ParameterEntry>) -> Seq<u32> {
    entries.map_values(|e: ParameterEntry| e.id)
}

/// The factor between the host's parameter values and normalized ones: the number of
/// steps of a stepped parameter, 1 for a continuous one.
pub open spec fn multiplier_of(steps: u32) -> u32 {
    if steps > 0 {
        steps
    } else {
        1
    }
}

/// What a value set by the host passes on: to which parameter, the factor by which the
/// value is divided to normalize it, and whether the plugin itself is told (it is not
/// while the change comes from its own editor). The processor is always told.
#[derive(Clone, Copy, Debug, PartialEq, Eq, Structural)]
pub struct ValueForwarding {
    pub id: u32,
    pub multiplier: u32,
    pub notify_plugin: bool,
}

/// A parameter as the host is told of it.
#[derive(Clone, Debug)]
pub struct ParameterDescription {
    pub address: u64,
    pub steps: u32,
    pub name: String,
    /// The identifier the host keeps: "ID" and the parameter id.
    pub identifier: String,
    /// Position of the parameter's group among the plugin's groups, -1 if none.
    pub parent_group_index: i64,
}

/// A parameter group as the host is told of it.
#[derive(Clone, Debug)]
pub struct GroupDescription {
    pub name: String,
    /// The identifier the host keeps: "Group" and the group's position.
    pub identifier: String,
    /// Position of the group this one nests in, -1 for a top-level group.
    pub parent_group_index: i64,
}

/// The identifier of a parameter.
pub fn parameter_identifier(id: u32) -> (identifier: String)
    ensures
        identifier@ == "ID"@ + decimal(id as nat),
{
    let mut identifier = String::from_str("ID");
    append_decimal(&mut identifier, id as u64);
    identifier
}

/// The identifier of the group at a position.
pub fn group_identifier(index: usize) -> (identifier: String)
    ensures
        identifier@ == "Group"@ + decimal(index as nat),
{
    let mut identifier = String::from_str("Group");
    append_decimal(&mut identifier, index as u64);
    identifier
}

/// The bit pattern of the host's value 0.0 (a 32-bit float), which every parameter
/// starts at.
pub const ZERO_VALUE: u32 = 0;

/// The plugin's parameters in the order the host indexes them, with the last value the
/// host set for each. Values are the host's 32-bit floats, held by their bit patterns.
pub struct ParameterTable {
    entries: Vec<ParameterEntry>,
    values: Vec<u32>,
    /// Each parameter's position, by id.
    index_from_id: HashMap<u32, usize>,
}

impl ParameterTable {
    pub closed spec fn entries(&self) -> Seq<ParameterEntry> {
        self.entries@
    }

    pub closed spec fn values(&self) -> Seq<u32> {
        self.values@
    }

    pub open spec fn ids(&self) -> Seq<u32> {
        entry_ids(self.entries())
    }

    /// The index by id holds exactly the parameters' ids, each with its position.
    pub closed spec fn index_consistent(&self) -> bool {
        &&& forall|id: u32| self.index_from_id@.contains_key(id) <==> self.ids().contains(id)
        &&& forall|id: u32|
            #[trigger] self.index_from_id@.contains_key(id) ==> self.index_from_id@[id]
                < self.entries().len() && self.entries()[self.index_from_id@[id] as int].id == id
    }

    /// One value per parameter, no id twice, and the index by id in step.
    pub open spec fn wf(&self) -> bool {
        &&& self.values().len() == self.entries().len()
        &&& !has_duplicate_ids(self.ids())
        &&& self.index_consistent()
    }

    /// Every parameter starts at 0.0.
    pub fn new(entries: Vec<ParameterEntry>) -> (table: Self)
        requires
            !has_duplicate_ids(entry_ids(entries@)),
        ensures
            table.wf(),
            table.entries() == entries@,
            table.values() == Seq::new(entries@.len(), |i: int| ZERO_VALUE),
    {
        broadcast use vstd::std_specs::hash::group_hash_axioms;

        let mut values: Vec<u32> = Vec::new();
        let mut index_from_id: HashMap<u32, usize> = HashMap::new();
        let mut i: usize = 0;
        while i < entries.len()
            invariant
                0 <= i <= entries@.len(),
                values@ == Seq::new(i as nat, |k: int| ZERO_VALUE),
                forall|id: u32|
                    index_from_id@.contains_key(id) <==> entry_ids(entries@.subrange(0, i as int)).contains(
                        id,
                    ),
                forall|id: u32|
                    #[trigger] index_from_id@.contains_key(id) ==> index_from_id@[id] < i
                        && entries@[index_from_id@[id] as int].id == id,
            decreases entries@.len() - i,
        {
            let ghost before = index_from_id@;
            let id = entries[i].id;
            index_from_id.insert(id, i);
            values.push(ZERO_VALUE);
            proof {
                let prefix = entry_ids(entries@.subrange(0, i as int));
                let next = entry_ids(entries@.subrange(0, i + 1));
                assert(next == prefix.push(id));
                assert forall|x: u32| index_from_id@.contains_key(x) <==> next.contains(x) by {
                    if x == id {
                        assert(next[i as int] == id);
                    } else {
                        if next.contains(x) {
                            let k = choose|k: int| 0 <= k < next.len() && next[k] == x;
                            assert(prefix[k] == x);
                        }
                        if prefix.contains(x) {
                            let k = choose|k: int| 0 <= k < prefix.len() && prefix[k] == x;
                            assert(next[k] == x);
                        }
                    }
                }
            }
            i = i + 1;
        }
        proof {
            assert(entries@.subrange(0, entries@.len() as int) == entries@);
        }
        ParameterTable { entries, values, index_from_id }
    }

    pub fn parameter_ids(&self) -> (ids: Vec<u32>)
        ensures
            ids@ == self.ids(),
    {
        let mut ids: Vec<u32> = Vec::new();
        let mut i: usize = 0;
        while i < self.entries.len()
            invariant
                0 <= i <= self.entries@.len(),
                ids@ == entry_ids(self.entries@.subrange(0, i as int)),
            decreases self.entries@.len() - i,
        {
            proof {
                assert(entry_ids(self.entries@.subrange(0, i + 1)) == entry_ids(
                    self.entries@.subrange(0, i as int),
                ).push(self.entries@[i as int].id));
            }
            ids.push(self.entries[i].id);
            i = i + 1;
        }
        proof {
            assert(self.entries@.subrange(0, self.entries@.len() as int) == self.entries@);
        }
        ids
    }

    pub fn parameter_count(&self) -> (count: u64)
        ensures
            count == self.entries().len(),
    {
        self.entries.len() as u64
    }

    /// The position of the parameter whose id is the address (taken to 32 bits).
    pub fn index_of(&self, address: u64) -> (index: Option<usize>)
        requires
            self.wf(),
        ensures
            match index {
                Some(i) => i < self.entries().len() && self.entries()[i as int].id == address as u32,
                None => !self.ids().contains(address as u32),
            },
    {
        broadcast use vstd::std_specs::hash::group_hash_axioms;

        let id = address as u32;
        match self.index_from_id.get(&id) {
            Some(i) => Some(*i),
            None => None,
        }
    }

    /// The last value set for the parameter at this address; `None` for an address that
    /// names no parameter.
    pub fn parameter_value(&self, address: u64) -> (value: Option<u32>)
        requires
            self.wf(),
        ensures
            !self.ids().contains(address as u32) ==> value is None,
            forall|i: int|
                0 <= i < self.entries().len() && #[trigger] self.entries()[i].id == address as u32
                    ==> value == Some(self.values()[i]),
    {
        match self.index_of(address) {
            Some(i) => {
                proof {
                    assert(self.ids()[i as int] == address as u32);
                    assert forall|k: int|
                        0 <= k < self.entries().len() && #[trigger] self.entries()[k].id
                            == address as u32 implies k == i by {
                        if k != i {
                            assert(self.ids()[k] == self.ids()[i as int]);
                        }
                    }
                }
                Some(self.values[i])
            },
            None => {
                proof {
                    assert forall|k: int|
                        0 <= k < self.entries().len() && #[trigger] self.entries()[k].id
                            == address as u32 implies false by {
                        assert(self.ids()[k] == address as u32);
                    }
                }
                None
            },
        }
    }

    /// Stores a value the host set. For an address that names no parameter nothing
    /// changes and nothing is passed on.
    pub fn set_parameter_value(&mut self, address: u64, value: u32, sending_from_editor: bool) -> (forwarding: Option<ValueForwarding>)
        requires
            old(self).wf(),
        ensures
            final(self).wf(),
            final(self).entries() == old(self).entries(),
            !old(self).ids().contains(address as u32) ==> {
                &&& forwarding is None
                &&& final(self).values() == old(self).values()
            },
            forall|i: int|
                0 <= i < old(self).entries().len() && #[trigger] old(self).entries()[i].id
                    == address as u32 ==> {
                    &&& final(self).values() == old(self).values().update(i, value)
                    &&& forwarding == Some(
                        ValueForwarding {
                            id: address as u32,
                            multiplier: multiplier_of(old(self).entries()[i].steps),
                            notify_plugin: !sending_from_editor,
                        },
                    )
                },
    {
        match self.index_of(address) {
            Some(i) => {
                proof {
                    assert(self.ids()[i as int] == address as u32);
                    assert forall|k: int|
                        0 <= k < self.entries().len() && #[trigger] self.entries()[k].id
                            == address as u32 implies k == i by {
                        if k != i {
                            assert(self.ids()[k] == self.ids()[i as int]);
                        }
                    }
                }
                self.values.set(i, value);
                let steps = self.entries[i].steps;
                let multiplier = if steps > 0 {
                    steps
                } else {
                    1
                };
                Some(
                    ValueForwarding {
                        id: address as u32,
                        multiplier,
                        notify_plugin: !sending_from_editor,
                    },
                )
            },
            None => {
                proof {
                    assert forall|k: int|
                        0 <= k < self.entries().len() && #[trigger] self.entries()[k].id
                            == address as u32 implies false by {
                        assert(self.ids()[k] == address as u32);
                    }
                }
                None
            },
        }
    }

    /// The factor between the host's values for a parameter and normalized ones.
    pub fn parameter_multiplier(&self, id: u32) -> (multiplier: u32)
        requires
            self.wf(),
            self.ids().contains(id),
        ensures
            forall|i: int|
                0 <= i < self.entries().len() && #[trigger] self.entries()[i].id == id
                    ==> multiplier == multiplier_of(self.entries()[i].steps),
    {
        match self.index_of(id as u64) {
            Some(i) => {
                proof {
                    assert forall|k: int|
                        0 <= k < self.entries().len() && #[trigger] self.entries()[k].id == id implies k
                        == i by {
                        if k != i {
                            assert(self.ids()[k] == self.ids()[i as int]);
                        }
                    }
                }
                let steps = self.entries[i].steps;
                if steps > 0 {
                    steps
                } else {
                    1
                }
            },
            None => {
                proof {
                    assert(false);
                }
                1
            },
        }
    }

    /// Keeps a value the editor sent to the host (in the host's units) as the parameter's
    /// last value.
    pub fn store_editor_value(&mut self, id: u32, value: u32)
        requires
            old(self).wf(),
            old(self).ids().contains(id),
        ensures
            final(self).wf(),
            final(self).entries() == old(self).entries(),
            forall|i: int|
                0 <= i < old(self).entries().len() && #[trigger] old(self).entries()[i].id == id
                    ==> final(self).values() == old(self).values().update(i, value),
    {
        match self.index_of(id as u64) {
            Some(i) => {
                proof {
                    assert forall|k: int|
                        0 <= k < self.entries().len() && #[trigger] self.entries()[k].id == id implies k
                        == i by {
                        if k != i {
                            assert(self.ids()[k] == self.ids()[i as int]);
                        }
                    }
                }
                self.values.set(i, value);
            },
            None => {
                proof {
                    assert(false);
                }
            },
        }
    }

    /// How the parameter at `index` is described to the host; `None` past the last one.
    pub fn parameter_info(&self, index: usize, groups: &[ParameterGroup]) -> (info: Option<ParameterDescription>)
        requires
            groups@.len() <= i64::MAX,
        ensures
            index >= self.entries().len() ==> info is None,
            index < self.entries().len() ==> (info matches Some(d) && {
                let e = self.entries()[index as int];
                &&& d.address == e.id as u64
                &&& d.steps == e.steps
                &&& d.name@ == e.name@
                &&& d.identifier@ == "ID"@ + decimal(e.id as nat)
                &&& d.parent_group_index == group_index_or_none(groups@, e.path@)
            }),
    {
        if index >= self.entries.len() {
            return None;
        }
        let entry = &self.entries[index];
        Some(
            ParameterDescription {
                address: entry.id as u64,
                steps: entry.steps,
                name: entry.name.clone(),
                identifier: parameter_identifier(entry.id),
                parent_group_index: parent_group_index(groups, &entry.path),
            },
        )
    }
}

/// The position of the group with this path, -1 if there is none.
pub open spec fn group_index_or_none(groups: Seq<ParameterGroup>, path: Seq<char>) -> i64 {
    match group_position(groups, path) {
        Some(i) => i as i64,
        None => -1i64,
    }
}

/// The position of the group with this path among the groups, -1 if there is none.
pub fn parent_group_index(groups: &[ParameterGroup], path: &String) -> (index: i64)
    requires
        groups@.len() <= i64::MAX,
    ensures
        index == group_index_or_none(groups@, path@),
{
    match find_group(groups, path) {
        Some(i) => i as i64,
        None => -1i64,
    }
}

/// The position of the group that the group at `index` nests in, -1 for a top-level
/// group. Every parent must be among the groups.
pub fn group_parent_index(groups: &[ParameterGroup], index: usize) -> (parent: i64)
    requires
        index < groups@.len(),
        groups@.len() <= i64::MAX,
        groups@[index as int].parent matches Some(p) ==> group_position(groups@, p@) is Some,
    ensures
        parent == match groups@[index as int].parent {
            Some(p) => group_index_or_none(groups@, p@),
            None => -1i64,
        },
{
    match &groups[index].parent {
        Some(p) => parent_group_index(groups, p),
        None => -1i64,
    }
}

/// How the group at `index` is described to the host. Every parent must be among the
/// groups.
pub fn group_info(groups: &[ParameterGroup], index: usize) -> (info: GroupDescription)
    requires
        index < groups@.len(),
        groups@.len() <= i64::MAX,
        groups@[index as int].parent matches Some(p) ==> group_position(groups@, p@) is Some,
    ensures
        info.name@ == groups@[index as int].name@,
        info.identifier@ == "Group"@ + decimal(index as nat),
        info.parent_group_index == match groups@[index as int].parent {
            Some(p) => group_index_or_none(groups@, p@),
            None => -1i64,
        },
{
    GroupDescription {
        name: groups[index].name.clone(),
        identifier: group_identifier(index),
        parent_group_index: group_parent_index(groups, index),
    }
}

impl ParameterTable {
    /// A value the host set for a parameter is the value read back for it.
    pub proof fn lemma_set_value_read_back(before: Self, after: Self, address: u64, value: u32)
        requires
            before.wf(),
            after.entries() == before.entries(),
            before.ids().contains(address as u32),
            forall|i: int|
                0 <= i < before.entries().len() && #[trigger] before.entries()[i].id == address as u32
                    ==> after.values() == before.values().update(i, value),
        ensures
            forall|i: int|
                0 <= i < after.entries().len() && #[trigger] after.entries()[i].id == address as u32
                    ==> after.values()[i] == value,
    {
        assert forall|i: int|
            0 <= i < after.entries().len() && #[trigger] after.entries()[i].id == address as u32 implies after.values()[i]
            == value by {
            assert(before.entries()[i].id == address as u32);
        }
    }
}

} // verus!
