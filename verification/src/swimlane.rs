//! Grouping work items into swimlanes by assignee or by label.

use std::collections::HashMap;

use vstd::prelude::*;

use crate::model::{UserId, WorkItem, WorkItemId};
use crate::text::{decimal, i64_to_decimal};

verus! {

broadcast use vstd::std_specs::hash::group_hash_axioms;

/// What items are grouped by.
#[derive(Debug, Clone, Copy, PartialEq, Eq, Structural)]
pub enum SwimlaneDimension {
    Assignee,
    Label,
}

/// The lane of an assignee: the user id in decimal, or `unassigned`.
pub open spec fn assignee_lane(a: Option<UserId>) -> Seq<char> {
    match a {
        Some(id) => decimal(id as int),
        None => "unassigned"@,
    }
}

/// The lanes an item goes into: its assignee's, or one per label it has (in
/// the order listed; none when it has no labels).
pub open spec fn lane_keys(item: WorkItem, labels: Map<WorkItemId, Vec<String>>, dim: SwimlaneDimension) -> Seq<Seq<char>> {
    match dim {
        SwimlaneDimension::Assignee => seq![assignee_lane(item.assignee_id)],
        SwimlaneDimension::Label => if labels.contains_key(item.id) {
            labels[item.id]@.map_values(|s: String| s@)
        } else {
            Seq::empty()
        },
    }
}

/// How many times `k` occurs in `keys`.
pub open spec fn occurrences(keys: Seq<Seq<char>>, k: Seq<char>) -> nat
    decreases keys.len(),
{
    if keys.len() == 0 {
        0
    } else {
        occurrences(keys.drop_last(), k) + if keys.last() == k { 1nat } else { 0nat }
    }
}

/// `item` repeated `n` times.
pub open spec fn repeated(item: WorkItem, n: nat) -> Seq<WorkItem> {
    Seq::new(n, |_i: int| item)
}

/// The items of lane `k`, in the order of `items`, each as often as it names
/// the lane.
pub open spec fn lane_members(
    items: Seq<WorkItem>,
    labels: Map<WorkItemId, Vec<String>>,
    dim: SwimlaneDimension,
    k: Seq<char>,
) -> Seq<WorkItem>
    decreases items.len(),
{
    if items.len() == 0 {
        Seq::empty()
    } else {
        lane_members(items.drop_last(), labels, dim, k) + repeated(
            items.last(),
            occurrences(lane_keys(items.last(), labels, dim), k),
        )
    }
}

/// The items a lane holds, by value.
pub open spec fn lane_items(lane: Seq<&WorkItem>) -> Seq<WorkItem> {
    lane.map_values(|r: &WorkItem| *r)
}

/// `lanes` groups `members`: one lane per key, each holding the members of
/// its key, and a lane for every key that has members.
pub open spec fn lanes_hold(lanes: Seq<(String, Vec<&WorkItem>)>, members: spec_fn(Seq<char>) -> Seq<WorkItem>) -> bool {
    &&& forall|g: int, h: int| 0 <= g < h < lanes.len() ==> lanes[g].0@ != lanes[h].0@
    &&& forall|g: int| 0 <= g < lanes.len() ==> lane_items((#[trigger] lanes[g]).1@) == members(lanes[g].0@)
    &&& forall|g: int| 0 <= g < lanes.len() ==> (#[trigger] lanes[g]).1@.len() > 0
    &&& forall|k: Seq<char>| #[trigger] members(k).len() > 0 ==> exists|g: int| 0 <= g < lanes.len() && lanes[g].0@ == k
}

fn lane_index(lanes: &Vec<(String, Vec<&WorkItem>)>, key: &str) -> (r: Option<usize>)
    ensures
        r matches Some(g) ==> g < lanes@.len() && lanes@[g as int].0@ == key@,
        r is None ==> forall|g: int| 0 <= g < lanes@.len() ==> lanes@[g].0@ != key@,
{
    let mut g: usize = 0;
    while g < lanes.len()
        invariant
            g <= lanes@.len(),
            forall|h: int| 0 <= h < g ==> lanes@[h].0@ != key@,
        decreases lanes.len() - g,
    {
        if crate::text::same_text(lanes[g].0.as_str(), key) {
            return Some(g);
        }
        g = g + 1;
    }
    None
}

fn item_lane_keys(item: &WorkItem, labels: &HashMap<WorkItemId, Vec<String>>, dimension: SwimlaneDimension) -> (r: Vec<String>)
    ensures
        r@.map_values(|s: String| s@) == lane_keys(*item, labels@, dimension),
{
    match dimension {
        SwimlaneDimension::Assignee => {
            let key = match item.assignee_id {
                Some(id) => i64_to_decimal(id),
                None => String::from_str("unassigned"),
            };
            let mut r = Vec::new();
            r.push(key);
            proof {
                assert(r@.map_values(|s: String| s@) =~= lane_keys(*item, labels@, dimension));
            }
            r
        },
        SwimlaneDimension::Label => {
            let mut r: Vec<String> = Vec::new();
            match labels.get(&item.id) {
                Some(ls) => {
                    let mut i: usize = 0;
                    while i < ls.len()
                        invariant
                            i <= ls@.len(),
                            r@.len() == i,
                            forall|j: int| 0 <= j < i ==> (#[trigger] r@[j])@ == ls@[j]@,
                        decreases ls.len() - i,
                    {
                        r.push(ls[i].clone());
                        i = i + 1;
                    }
                    proof {
                        assert(r@.map_values(|s: String| s@) =~= lane_keys(*item, labels@, dimension));
                    }
                },
                None => {
                    proof {
                        assert(r@.map_values(|s: String| s@) =~= lane_keys(*item, labels@, dimension));
                    }
                },
            }
            r
        },
    }
}

/// Groups items into lanes: by assignee (`unassigned` for none), or by label,
/// an item with several labels going into each of their lanes. Lanes come in
/// no particular order; within a lane, items keep their order.
pub fn group_by_swimlane<'a>(
    items: &'a [WorkItem],
    labels: &HashMap<WorkItemId, Vec<String>>,
    dimension: SwimlaneDimension,
) -> (lanes: Vec<(String, Vec<&'a WorkItem>)>)
    ensures
        lanes_hold(lanes@, |k: Seq<char>| lane_members(items@, labels@, dimension, k)),
{
    let mut lanes: Vec<(String, Vec<&'a WorkItem>)> = Vec::new();
    let mut i: usize = 0;
    proof {
        assert(items@.subrange(0, 0) =~= Seq::<WorkItem>::empty());
    }
    while i < items.len()
        invariant
            i <= items@.len(),
            lanes_hold(lanes@, |k: Seq<char>| lane_members(items@.subrange(0, i as int), labels@, dimension, k)),
        decreases items.len() - i,
    {
        let item = &items[i];
        let keys = item_lane_keys(item, labels, dimension);
        let ghost kv = keys@.map_values(|s: String| s@);
        let ghost before = |k: Seq<char>| lane_members(items@.subrange(0, i as int), labels@, dimension, k);
        let mut j: usize = 0;
        proof {
            assert forall|k: Seq<char>| before(k) + repeated(*item, occurrences(kv.subrange(0, 0), k)) == #[trigger] before(k) by {
                assert(before(k) + repeated(*item, 0) =~= before(k));
            }
        }
        while j < keys.len()
            invariant
                i < items@.len(),
                item == &items@[i as int],
                j <= keys@.len(),
                kv == keys@.map_values(|s: String| s@),
                lanes_hold(lanes@, |k: Seq<char>| before(k) + repeated(*item, occurrences(kv.subrange(0, j as int), k))),
            decreases keys.len() - j,
        {
            let key = &keys[j];
            let ghost cur = |k: Seq<char>| before(k) + repeated(*item, occurrences(kv.subrange(0, j as int), k));
            let ghost nxt = |k: Seq<char>| before(k) + repeated(*item, occurrences(kv.subrange(0, j + 1), k));
            proof {
                assert(kv.subrange(0, j + 1).drop_last() =~= kv.subrange(0, j as int));
                assert(kv[j as int] == key@);
                assert forall|k: Seq<char>| #[trigger] nxt(k) == if k == key@ { cur(k).push(*item) } else { cur(k) } by {
                    let n = occurrences(kv.subrange(0, j as int), k);
                    if k == key@ {
                        assert(repeated(*item, n + 1) =~= repeated(*item, n).push(*item));
                        assert(before(k) + repeated(*item, n).push(*item) =~= (before(k) + repeated(*item, n)).push(*item));
                    }
                }
            }
            match lane_index(&lanes, key.as_str()) {
                Some(g) => {
                    let ghost old_lanes = lanes@;
                    let (name, mut members) = lanes.remove(g);
                    members.push(item);
                    lanes.insert(g, (name, members));
                    proof {
                        assert(lanes@ =~= old_lanes.update(g as int, lanes@[g as int]));
                        assert(lane_items(lanes@[g as int].1@) =~= lane_items(old_lanes[g as int].1@).push(*item));
                        assert forall|k: Seq<char>| #[trigger] nxt(k).len() > 0 implies exists|h: int| 0 <= h < lanes@.len() && lanes@[h].0@ == k by {
                            if k == key@ {
                                assert(lanes@[g as int].0@ == k);
                            } else {
                                assert(cur(k).len() > 0);
                                let h = choose|h: int| 0 <= h < old_lanes.len() && old_lanes[h].0@ == k;
                                assert(lanes@[h].0@ == k);
                            }
                        }
                        assert forall|h: int| 0 <= h < lanes@.len() implies lane_items((#[trigger] lanes@[h]).1@) == nxt(lanes@[h].0@) by {
                            if h != g {
                                assert(lanes@[h] == old_lanes[h]);
                                assert(old_lanes[h].0@ != key@);
                            }
                        }
                    }
                },
                None => {
                    let ghost old_lanes = lanes@;
                    let mut members: Vec<&'a WorkItem> = Vec::new();
                    members.push(item);
                    lanes.push((key.clone(), members));
                    proof {
                        assert(cur(key@).len() == 0) by {
                            if cur(key@).len() > 0 {
                                let h = choose|h: int| 0 <= h < old_lanes.len() && old_lanes[h].0@ == key@;
                                assert(old_lanes[h].0@ != key@);
                            }
                        }
                        assert(cur(key@) =~= Seq::<WorkItem>::empty());
                        let last = old_lanes.len() as int;
                        assert(lane_items(lanes@[last].1@) =~= seq![*item]);
                        assert(cur(key@).push(*item) =~= seq![*item]);
                        assert forall|k: Seq<char>| #[trigger] nxt(k).len() > 0 implies exists|h: int| 0 <= h < lanes@.len() && lanes@[h].0@ == k by {
                            if k == key@ {
                                assert(lanes@[last].0@ == k);
                            } else {
                                assert(cur(k).len() > 0);
                                let h = choose|h: int| 0 <= h < old_lanes.len() && old_lanes[h].0@ == k;
                                assert(lanes@[h].0@ == k);
                            }
                        }
                        assert forall|h: int| 0 <= h < lanes@.len() implies lane_items((#[trigger] lanes@[h]).1@) == nxt(lanes@[h].0@) by {
                            if h != last {
                                assert(lanes@[h] == old_lanes[h]);
                                assert(old_lanes[h].0@ != key@);
                            }
                        }
                    }
                },
            }
            j = j + 1;
        }
        proof {
            assert(kv.subrange(0, keys@.len() as int) =~= kv);
            assert(items@.subrange(0, i + 1).drop_last() =~= items@.subrange(0, i as int));
            assert(items@.subrange(0, i + 1).last() == *item);
            assert(kv == lane_keys(*item, labels@, dimension));
            let done_fn = |k: Seq<char>| before(k) + repeated(*item, occurrences(kv.subrange(0, j as int), k));
            let next_fn = |k: Seq<char>| lane_members(items@.subrange(0, i + 1), labels@, dimension, k);
            assert forall|k: Seq<char>| #[trigger] next_fn(k) == done_fn(k) by {
                assert(j == keys@.len());
            }
            assert(next_fn =~= done_fn);
        }
        i = i + 1;
    }
    proof {
        assert(items@.subrange(0, items@.len() as int) =~= items@);
    }
    lanes
}

/// By assignee, each item names exactly one lane: that of its assignee, or
/// `unassigned`.
pub proof fn lemma_assignee_lane_unique(item: WorkItem, labels: Map<WorkItemId, Vec<String>>, k: Seq<char>)
    ensures
        occurrences(lane_keys(item, labels, SwimlaneDimension::Assignee), k)
            == if k == assignee_lane(item.assignee_id) { 1nat } else { 0nat },
{
    let keys = lane_keys(item, labels, SwimlaneDimension::Assignee);
    assert(keys.drop_last() =~= Seq::<Seq<char>>::empty());
    assert(occurrences(keys.drop_last(), k) == 0);
    assert(keys.last() == assignee_lane(item.assignee_id));
}

} // verus!
