use vstd::prelude::*;

use crate::key::Key;

verus! {

/// `n + 1`, staying at `usize::MAX` once it is reached.
pub open spec fn bump(n: usize) -> usize {
    if n < usize::MAX {
        (n + 1) as usize
    } else {
        n
    }
}

fn bumped(n: usize) -> (r: usize)
    ensures
        r == bump(n),
{
    if n < usize::MAX {
        n + 1
    } else {
        n
    }
}

/// A flat key-addressed store of byte strings that counts the reads and
/// writes made on it.
///
/// Writing or clearing a key counts as a write; reading a key, whether or
/// not it holds bytes, counts as a read.
pub struct Storage {
    entries: Vec<(Key, Vec<u8>)>,
    contents: Ghost<Map<Key, Seq<u8>>>,
    reads: usize,
    writes: usize,
}

impl View for Storage {
    type V = Map<Key, Seq<u8>>;

    closed spec fn view(&self) -> Map<Key, Seq<u8>> {
        self.contents@
    }
}

impl Storage {
    /// The entries hold exactly the contents, each key once.
    pub closed spec fn wf(&self) -> bool {
        &&& forall|i: int|
            0 <= i < self.entries@.len() ==> {
                let (k, b) = #[trigger] self.entries@[i];
                self.contents@.contains_key(k) && self.contents@[k] == b@
            }
        &&& forall|k: Key|
            #[trigger] self.contents@.contains_key(k) ==> exists|i: int|
                0 <= i < self.entries@.len() && (#[trigger] self.entries@[i]).0 == k
        &&& forall|i: int, j: int|
            0 <= i < j < self.entries@.len() ==> (#[trigger] self.entries@[i]).0
                != (#[trigger] self.entries@[j]).0
    }

    /// The number of reads made so far.
    pub closed spec fn spec_reads(&self) -> usize {
        self.reads
    }

    /// The number of writes made so far.
    pub closed spec fn spec_writes(&self) -> usize {
        self.writes
    }

    /// An empty store with no reads or writes counted.
    pub fn new() -> (r: Storage)
        ensures
            r.wf(),
            r@ == Map::<Key, Seq<u8>>::empty(),
            r.spec_reads() == 0,
            r.spec_writes() == 0,
    {
        Storage { entries: Vec::new(), contents: Ghost(Map::empty()), reads: 0, writes: 0 }
    }

    pub fn reads(&self) -> (r: usize)
        ensures
            r == self.spec_reads(),
    {
        self.reads
    }

    pub fn writes(&self) -> (r: usize)
        ensures
            r == self.spec_writes(),
    {
        self.writes
    }

    /// The position of `key` among the entries, if it is there.
    fn find(&self, key: &Key) -> (r: Option<usize>)
        requires
            self.wf(),
        ensures
            match r {
                Some(i) => i < self.entries@.len() && self.entries@[i as int].0 == *key,
                None => !self@.contains_key(*key),
            },
    {
        let mut i: usize = 0;
        while i < self.entries.len()
            invariant
                i <= self.entries@.len(),
                forall|x: int| 0 <= x < i ==> (#[trigger] self.entries@[x]).0 != *key,
            decreases self.entries@.len() - i,
        {
            if self.entries[i].0 == *key {
                return Some(i);
            }
            i = i + 1;
        }
        None
    }

    /// The bytes at `key`, if any. Counts one read.
    pub fn read(&mut self, key: &Key) -> (r: Option<Vec<u8>>)
        requires
            old(self).wf(),
        ensures
            final(self).wf(),
            final(self)@ == old(self)@,
            final(self).spec_reads() == bump(old(self).spec_reads()),
            final(self).spec_writes() == old(self).spec_writes(),
            match r {
                Some(b) => old(self)@.contains_key(*key) && b@ == old(self)@[*key],
                None => !old(self)@.contains_key(*key),
            },
    {
        let r = match self.find(key) {
            Some(i) => Some(self.entries[i].1.clone()),
            None => None,
        };
        self.reads = bumped(self.reads);
        assert(self.entries@ == old(self).entries@);
        assert(self.contents@ == old(self).contents@);
        r
    }

    /// Stores `bytes` at `key`, replacing what was there. Counts one write.
    pub fn write(&mut self, key: &Key, bytes: Vec<u8>)
        requires
            old(self).wf(),
        ensures
            final(self).wf(),
            final(self)@ == old(self)@.insert(*key, bytes@),
            final(self).spec_reads() == old(self).spec_reads(),
            final(self).spec_writes() == bump(old(self).spec_writes()),
    {
        let found = self.find(key);
        let ghost old_entries = old(self).entries@;
        let ghost m = old(self).contents@.insert(*key, bytes@);
        let ghost pos: int;
        match found {
            Some(i) => {
                self.entries.set(i, (*key, bytes));
                proof {
                    pos = i as int;
                }
            },
            None => {
                self.entries.push((*key, bytes));
                proof {
                    pos = old_entries.len() as int;
                }
            },
        }
        assert forall|x: int| 0 <= x < self.entries@.len() && x != pos implies (
        #[trigger] self.entries@[x]).0 != *key && self.entries@[x] == old_entries[x] by {
            if found is Some {
                assert(old_entries[x].0 != old_entries[pos].0);
            } else {
                assert(old(self).contents@.contains_key(old_entries[x].0));
            }
        }
        assert forall|x: int| 0 <= x < self.entries@.len() implies {
            let (k, b) = #[trigger] self.entries@[x];
            m.contains_key(k) && m[k] == b@
        } by {
            if x != pos {
                assert(self.entries@[x] == old_entries[x]);
            }
        }
        assert forall|x: int, y: int| 0 <= x < y < self.entries@.len() implies (
        #[trigger] self.entries@[x]).0 != (#[trigger] self.entries@[y]).0 by {
            if x != pos && y != pos {
                assert(self.entries@[x] == old_entries[x]);
                assert(self.entries@[y] == old_entries[y]);
            }
        }
        assert forall|k: Key| #[trigger] m.contains_key(k) implies exists|x: int|
            0 <= x < self.entries@.len() && (#[trigger] self.entries@[x]).0 == k by {
            if k != *key {
                let x = choose|x: int| 0 <= x < old_entries.len() && (#[trigger] old_entries[x]).0 == k;
                assert(self.entries@[x] == old_entries[x]);
            } else {
                assert(self.entries@[pos].0 == k);
            }
        }
        let ghost entries = self.entries@;
        self.contents = Ghost(m);
        self.writes = bumped(self.writes);
        assert(self.entries@ == entries && self.contents@ == m);
    }

    /// Removes whatever is stored at `key`. Counts one write.
    pub fn clear(&mut self, key: &Key)
        requires
            old(self).wf(),
        ensures
            final(self).wf(),
            final(self)@ == old(self)@.remove(*key),
            final(self).spec_reads() == old(self).spec_reads(),
            final(self).spec_writes() == bump(old(self).spec_writes()),
    {
        let found = self.find(key);
        let ghost old_entries = old(self).entries@;
        let ghost m = old(self).contents@.remove(*key);
        match found {
            Some(i) => {
                self.entries.remove(i);
                assert forall|x: int| 0 <= x < self.entries@.len() implies {
                    let (k, b) = #[trigger] self.entries@[x];
                    m.contains_key(k) && m[k] == b@
                } by {
                    if x < i {
                        assert(self.entries@[x] == old_entries[x]);
                    } else {
                        assert(self.entries@[x] == old_entries[x + 1]);
                    }
                }
                assert forall|k: Key| #[trigger] m.contains_key(k) implies exists|x: int|
                    0 <= x < self.entries@.len() && (#[trigger] self.entries@[x]).0 == k by {
                    let x = choose|x: int|
                        0 <= x < old_entries.len() && (#[trigger] old_entries[x]).0 == k;
                    if x < i {
                        assert(self.entries@[x] == old_entries[x]);
                    } else {
                        assert(self.entries@[x - 1] == old_entries[x]);
                    }
                }
                assert forall|x: int, y: int| 0 <= x < y < self.entries@.len() implies (
                #[trigger] self.entries@[x]).0 != (#[trigger] self.entries@[y]).0 by {
                    let x0 = if x < i {
                        x
                    } else {
                        x + 1
                    };
                    let y0 = if y < i {
                        y
                    } else {
                        y + 1
                    };
                    assert(self.entries@[x] == old_entries[x0]);
                    assert(self.entries@[y] == old_entries[y0]);
                }
                assert forall|x: int| 0 <= x < self.entries@.len() implies (#[trigger] self.entries@[x]).0
                    != *key by {
                    let x0 = if x < i {
                        x
                    } else {
                        x + 1
                    };
                    assert(self.entries@[x] == old_entries[x0]);
                    assert(old_entries[x0].0 != old_entries[i as int].0);
                }
            },
            None => {
                assert(m =~= old(self).contents@);
            },
        }
        let ghost entries = self.entries@;
        self.contents = Ghost(m);
        self.writes = bumped(self.writes);
        assert(self.entries@ == entries && self.contents@ == m);
    }
}

} // verus!
