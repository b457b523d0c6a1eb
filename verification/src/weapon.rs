use vstd::prelude::*;

verus! {

/// The index that `Iterator::max_by` picks when ordering by `keys`: the
/// largest key, and of equal keys the last.
pub open spec fn last_max_index(keys: Seq<u64>) -> int
    decreases keys.len(),
{
    if keys.len() <= 1 {
        0
    } else {
        let b = last_max_index(keys.drop_last());
        if keys.last() >= keys[b] {
            keys.len() - 1
        } else {
            b
        }
    }
}

/// The picked index holds a largest key, and no later index holds one as large.
pub proof fn lemma_last_max_index(keys: Seq<u64>)
    requires
        keys.len() > 0,
    ensures
        0 <= last_max_index(keys) < keys.len(),
        forall|j: int| 0 <= j < keys.len() ==> #[trigger] keys[j] <= keys[last_max_index(keys)],
        forall|j: int| last_max_index(keys) < j < keys.len() ==> #[trigger] keys[j] < keys[last_max_index(keys)],
    decreases keys.len(),
{
    if keys.len() > 1 {
        let t = keys.drop_last();
        lemma_last_max_index(t);
        assert forall|j: int| 0 <= j < t.len() implies #[trigger] keys[j] == t[j] by {}
    }
}

/// The hotbar place of the weapon with the highest damage per second, given
/// for each hotbar place a key that orders as its damage per second does (for
/// the non-negative values here, the bits of the `f64`). Of equal keys the last
/// place wins.
pub fn best_weapon_in_hotbar(dps_keys: &Vec<u64>) -> (r: usize)
    requires
        dps_keys@.len() > 0,
    ensures
        r == last_max_index(dps_keys@),
        r < dps_keys@.len(),
{
    proof {
        lemma_last_max_index(dps_keys@);
    }
    let mut best: usize = 0;
    let mut i: usize = 1;
    assert(dps_keys@.take(1).len() == 1);
    while i < dps_keys.len()
        invariant
            1 <= i <= dps_keys@.len(),
            best < i,
            best == last_max_index(dps_keys@.take(i as int)),
        decreases dps_keys@.len() - i,
    {
        let ghost pre = dps_keys@.take(i as int);
        let ghost post = dps_keys@.take(i + 1);
        assert(post.drop_last() =~= pre);
        assert(post[best as int] == dps_keys@[best as int]);
        if dps_keys[i] >= dps_keys[best] {
            best = i;
        }
        i = i + 1;
    }
    assert(dps_keys@.take(dps_keys@.len() as int) =~= dps_keys@);
    best
}

} // verus!

verus! {

/// Place `s` holds a largest key, and no later place holds one as large.
pub open spec fn is_last_max(keys: Seq<u64>, s: int) -> bool {
    &&& 0 <= s < keys.len()
    &&& forall|j: int| 0 <= j < keys.len() ==> #[trigger] keys[j] <= keys[s]
    &&& forall|j: int| s < j < keys.len() ==> #[trigger] keys[j] < keys[s]
}

/// Exactly one place is the last of the largest keys, and it is the one picked.
pub proof fn lemma_last_max_unique(keys: Seq<u64>, s: int)
    requires
        keys.len() > 0,
    ensures
        is_last_max(keys, last_max_index(keys)),
        is_last_max(keys, s) <==> s == last_max_index(keys),
{
    lemma_last_max_index(keys);
    let b = last_max_index(keys);
    if is_last_max(keys, s) && s != b {
        if s < b {
            assert(keys[b] < keys[s]);
            assert(keys[s] <= keys[b]);
        } else {
            assert(keys[s] < keys[b]);
            assert(keys[b] <= keys[s]);
        }
    }
}

} // verus!
