use vstd::prelude::*;

use crate::key::{key_space, Key};

verus! {

/// A cursor over keys that hands out one key per field of a composite
/// value, each field taking as many slots as its footprint.
///
/// Copies of a cursor are independent of each other.
#[derive(Clone, Copy, Debug, PartialEq, Eq, Structural)]
pub struct KeyPtr {
    pub key: Key,
}

/// The sum of the footprints `fps`.
pub open spec fn total_footprint(fps: Seq<u64>) -> nat
    decreases fps.len(),
{
    if fps.len() == 0 {
        0
    } else {
        (total_footprint(fps.drop_last()) + fps.last()) as nat
    }
}

/// Where a cursor that started at `root` stands after it has handed out
/// one key for each footprint of `fps`, in order.
pub open spec fn position_after(root: nat, fps: Seq<u64>) -> nat
    decreases fps.len(),
{
    if fps.len() == 0 {
        root
    } else {
        ((position_after(root, fps.drop_last()) + fps.last()) % (key_space() as int)) as nat
    }
}

impl KeyPtr {
    /// A cursor positioned at `key`.
    pub fn from_key(key: Key) -> (r: KeyPtr)
        ensures
            r.key == key,
    {
        KeyPtr { key }
    }

    /// Hands out the current key for a field of `footprint` slots and moves
    /// the cursor past that field.
    pub fn next(&mut self, footprint: u64) -> (r: Key)
        ensures
            r == old(self).key,
            final(self).key.value() == old(self).key.spec_add(footprint as nat),
    {
        let r = self.key;
        self.key = self.key.add(footprint);
        r
    }
}

proof fn lemma_position_is_sum(root: nat, fps: Seq<u64>)
    requires
        root < key_space(),
    ensures
        position_after(root, fps) == (root + total_footprint(fps)) as int % (key_space() as int),
    decreases fps.len(),
{
    let k = key_space() as int;
    if fps.len() == 0 {
        vstd::arithmetic::div_mod::lemma_small_mod(root, key_space());
    } else {
        let init = fps.drop_last();
        lemma_position_is_sum(root, init);
        let base = root as int + total_footprint(init) as int;
        vstd::arithmetic::div_mod::lemma_add_mod_noop(base, fps.last() as int, k);
        vstd::arithmetic::div_mod::lemma_small_mod(fps.last() as nat, k as nat);
        assert(position_after(root, fps) == (base % k + fps.last()) % k);
    }
}

/// Fields visited in a fixed order never share a key: when every field
/// takes at least one slot and all of them together fit in the key space,
/// the keys that a cursor hands out for two different fields differ.
pub proof fn lemma_fields_disjoint(root: Key, fps: Seq<u64>, i: int, j: int)
    requires
        forall|x: int| 0 <= x < fps.len() ==> fps[x] >= 1,
        total_footprint(fps) < key_space(),
        0 <= i < j < fps.len(),
    ensures
        position_after(root.value(), fps.take(i)) != position_after(root.value(), fps.take(j)),
{
    let k = key_space() as int;
    let v = root.value() as int;
    root.lemma_value_bound();
    lemma_position_is_sum(root.value(), fps.take(i));
    lemma_position_is_sum(root.value(), fps.take(j));
    let a = total_footprint(fps.take(i)) as int;
    let b = total_footprint(fps.take(j)) as int;
    lemma_prefix_grows(fps, i, j);
    lemma_prefix_bound(fps, j);
    if (v + a) % k == (v + b) % k {
        vstd::arithmetic::div_mod::lemma_mod_equivalence(v + b, v + a, k);
        vstd::arithmetic::div_mod::lemma_small_mod((b - a) as nat, k as nat);
        vstd::arithmetic::div_mod::lemma_mod_multiples_basic(0, k);
    }
}

/// A longer prefix of positive footprints has a strictly larger total.
proof fn lemma_prefix_grows(fps: Seq<u64>, i: int, j: int)
    requires
        forall|x: int| 0 <= x < fps.len() ==> fps[x] >= 1,
        0 <= i < j <= fps.len(),
    ensures
        total_footprint(fps.take(i)) < total_footprint(fps.take(j)),
    decreases j - i,
{
    let pre = fps.take(j);
    assert(pre.drop_last() =~= fps.take(j - 1));
    if i < j - 1 {
        lemma_prefix_grows(fps, i, j - 1);
    }
}

/// A prefix totals no more than the whole.
proof fn lemma_prefix_bound(fps: Seq<u64>, j: int)
    requires
        0 <= j <= fps.len(),
    ensures
        total_footprint(fps.take(j)) <= total_footprint(fps),
    decreases fps.len() - j,
{
    if j < fps.len() {
        assert(fps.take(j + 1).drop_last() =~= fps.take(j));
        lemma_prefix_bound(fps, j + 1);
    } else {
        assert(fps.take(j) =~= fps);
    }
}

} // verus!
