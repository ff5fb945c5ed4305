//! Lists of identified items as maps from identity to item.

use std::collections::BTreeMap;
use vstd::laws_cmp::obeys_cmp;
use vstd::prelude::*;

verus! {

/// The map that a list of identified items stands for: every identity of
/// the list is a key, and where an identity comes twice, the later item
/// stays.
pub open spec fn indexed<K, D>(items: Seq<(K, D)>) -> Map<K, D>
    decreases items.len(),
{
    if items.len() == 0 {
        Map::empty()
    } else {
        indexed(items.drop_last()).insert(items.last().0, items.last().1)
    }
}

/// The keys of the map are the identities of the list.
pub proof fn lemma_indexed_keys<K, D>(items: Seq<(K, D)>, id: K)
    ensures
        indexed(items).contains_key(id) <==> exists|i: int|
            0 <= i < items.len() && (#[trigger] items[i]).0 == id,
    decreases items.len(),
{
    if items.len() > 0 {
        let front = items.drop_last();
        lemma_indexed_keys(front, id);
        if indexed(items).contains_key(id) {
            if items.last().0 == id {
                assert(items[items.len() - 1].0 == id);
            } else {
                let i = choose|i: int| 0 <= i < front.len() && (#[trigger] front[i]).0 == id;
                assert(items[i].0 == id);
            }
        }
        if exists|i: int| 0 <= i < items.len() && (#[trigger] items[i]).0 == id {
            let i = choose|i: int| 0 <= i < items.len() && (#[trigger] items[i]).0 == id;
            if i < front.len() {
                assert(front[i].0 == id);
            }
        }
    }
}

/// Collects identified items into a map from identity to item. Where an
/// identity comes twice, the later item stays.
pub fn as_map<K: Ord, D>(items: Vec<(K, D)>) -> (acc: BTreeMap<K, D>)
    ensures
        obeys_cmp::<K>() ==> acc@ == indexed(items@),
{
    let mut acc: BTreeMap<K, D> = BTreeMap::new();
    for item in it: items.into_iter()
        invariant
            it.seq() == items@,
            obeys_cmp::<K>() ==> acc@ == indexed(items@.take(it.index())),
    {
        proof {
            assert(items@.take(it.index() + 1).drop_last() == items@.take(it.index()));
        }
        acc.insert(item.0, item.1);
    }
    proof {
        crate::containers::lemma_take_all(items@);
    }
    acc
}

} // verus!
