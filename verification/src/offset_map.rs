//! Offsets by partition.

use vstd::prelude::*;

use crate::wire::{Topition, TopitionView};

verus! {

/// Offsets by partition. No partition is there twice.
#[derive(Debug)]
pub struct OffsetMap {
    entries: Vec<(Topition, i64)>,
}

/// Whether no partition is there twice.
pub open spec fn distinct(entries: Seq<(TopitionView, i64)>) -> bool {
    forall|i: int, j: int|
        0 <= i < j < entries.len() ==> (#[trigger] entries[i]).0 != (#[trigger] entries[j]).0
}

/// The place of a partition.
pub open spec fn is_place(
    entries: Seq<(TopitionView, i64)>,
    topition: TopitionView,
    i: int,
) -> bool {
    0 <= i < entries.len() && entries[i].0 == topition
}

/// The offsets that entries give.
pub open spec fn offsets_of(entries: Seq<(TopitionView, i64)>) -> Map<TopitionView, i64> {
    Map::new(
        |topition: TopitionView| exists|i: int| is_place(entries, topition, i),
        |topition: TopitionView| entries[choose|i: int| is_place(entries, topition, i)].1,
    )
}

impl DeepView for OffsetMap {
    type V = Map<TopitionView, i64>;

    closed spec fn deep_view(&self) -> Map<TopitionView, i64> {
        offsets_of(self.entries.deep_view())
    }
}

/// An entry gives the offset of its partition.
proof fn entry_is_given(entries: Seq<(TopitionView, i64)>, i: int)
    requires
        distinct(entries),
        0 <= i < entries.len(),
    ensures
        offsets_of(entries).dom().contains(entries[i].0),
        offsets_of(entries)[entries[i].0] == entries[i].1,
{
    assert(is_place(entries, entries[i].0, i));
    let j = choose|j: int| is_place(entries, entries[i].0, j);
    assert(is_place(entries, entries[i].0, j));
    assert(i == j);
}

impl OffsetMap {
    #[verifier::type_invariant]
    spec fn wf(self) -> bool {
        distinct(self.entries.deep_view())
    }

    /// No offsets.
    pub fn new() -> (map: OffsetMap)
        ensures
            map.deep_view() == Map::<TopitionView, i64>::empty(),
    {
        let map = OffsetMap { entries: Vec::new() };
        assert(map.deep_view() =~= Map::<TopitionView, i64>::empty());
        map
    }

    /// The place of a partition.
    fn place(&self, topition: &Topition) -> (place: Option<usize>)
        ensures
            match place {
                Some(i) => is_place(self.entries.deep_view(), topition.deep_view(), i as int),
                None => forall|i: int|
                    !is_place(self.entries.deep_view(), topition.deep_view(), i),
            },
    {
        let mut i: usize = 0;
        while i < self.entries.len()
            invariant
                i <= self.entries.len(),
                forall|j: int|
                    0 <= j < i ==> (#[trigger] self.entries.deep_view()[j]).0
                        != topition.deep_view(),
            decreases self.entries.len() - i,
        {
            let there = &self.entries[i].0;
            assert(self.entries.deep_view()[i as int].0 == there.deep_view());
            if there.partition == topition.partition && there.topic == topition.topic {
                return Some(i);
            }
            i = i + 1;
        }
        None
    }

    /// The offset of a partition.
    pub fn get(&self, topition: &Topition) -> (offset: Option<i64>)
        ensures
            match offset {
                Some(offset) => self.deep_view().dom().contains(topition.deep_view())
                    && self.deep_view()[topition.deep_view()] == offset,
                None => !self.deep_view().dom().contains(topition.deep_view()),
            },
    {
        proof {
            use_type_invariant(self);
        }
        match self.place(topition) {
            Some(i) => {
                proof {
                    entry_is_given(self.entries.deep_view(), i as int);
                }
                Some(self.entries[i].1)
            },
            None => None,
        }
    }

    /// The map with the offset of a partition, in place of one that it may have had.
    pub fn with(self, topition: Topition, offset: i64) -> (map: OffsetMap)
        ensures
            map.deep_view() == self.deep_view().insert(topition.deep_view(), offset),
    {
        proof {
            use_type_invariant(&self);
        }
        let place = self.place(&topition);
        let ghost before = self.entries.deep_view();
        let ghost key = topition.deep_view();
        let mut entries = self.entries;
        match place {
            Some(i) => {
                entries.set(i, (topition, offset));
                assert(entries.deep_view() =~= before.update(i as int, (key, offset)));
            },
            None => {
                entries.push((topition, offset));
                assert(entries.deep_view() =~= before.push((key, offset)));
            },
        }
        let ghost after = entries.deep_view();
        proof {
            assert forall|k: TopitionView| #[trigger]
                offsets_of(after).dom().contains(k) == offsets_of(before).insert(
                    key,
                    offset,
                ).dom().contains(k) by {
                if exists|i: int| is_place(before, k, i) {
                    let i = choose|i: int| is_place(before, k, i);
                    assert(is_place(after, k, i));
                }
                if exists|i: int| is_place(after, k, i) {
                    let i = choose|i: int| is_place(after, k, i);
                    if k != key {
                        assert(is_place(before, k, i));
                    }
                }
                match place {
                    Some(i) => assert(is_place(after, key, i as int)),
                    None => assert(is_place(after, key, before.len() as int)),
                }
            }
            assert forall|i: int, j: int|
                #![trigger after[i], after[j]]
                0 <= i < j < after.len() implies after[i].0 != after[j].0 by {
                if place is None {
                    assert(!is_place(before, key, i));
                }
            }
            assert forall|k: TopitionView| #[trigger]
                offsets_of(after).dom().contains(k) implies offsets_of(after)[k] == offsets_of(
                before,
            ).insert(key, offset)[k] by {
                let i = choose|i: int| is_place(after, k, i);
                assert(is_place(after, k, i));
                entry_is_given(after, i);
                if k != key {
                    assert(is_place(before, k, i));
                    entry_is_given(before, i);
                }
            }
            assert(offsets_of(after) =~= offsets_of(before).insert(key, offset));
        }
        OffsetMap { entries }
    }

    /// The entries.
    pub fn entries(&self) -> (entries: &Vec<(Topition, i64)>)
        ensures
            distinct(entries.deep_view()),
            self.deep_view() == offsets_of(entries.deep_view()),
    {
        proof {
            use_type_invariant(self);
        }
        &self.entries
    }
}

/// Entries give each partition that is among them the offset that stands with it, and give no other
/// partition an offset.
pub proof fn entries_give_their_offsets(
    entries: Seq<(TopitionView, i64)>,
    topition: TopitionView,
    i: int,
)
    requires
        distinct(entries),
    ensures
        0 <= i < entries.len() ==> offsets_of(entries).dom().contains(entries[i].0)
            && offsets_of(entries)[entries[i].0] == entries[i].1,
        offsets_of(entries).dom().contains(topition) ==> exists|j: int|
            0 <= j < entries.len() && (#[trigger] entries[j]).0 == topition,
{
    if 0 <= i < entries.len() {
        entry_is_given(entries, i);
    }
    if offsets_of(entries).dom().contains(topition) {
        let j = choose|j: int| is_place(entries, topition, j);
        assert(entries[j].0 == topition);
    }
}

} // verus!
