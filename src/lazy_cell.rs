use vstd::prelude::*;

use crate::entry::{EntryState, StorageEntry};
use crate::key::Key;
use crate::key_ptr::KeyPtr;
use crate::storable::Storable;
use crate::storage::{bump, Storage};

verus! {

/// The value that the bytes at `key` decode to; `None` when nothing is
/// stored there.
pub open spec fn stored_value<T: Storable>(m: Map<Key, Seq<u8>>, key: Key) -> Option<T> {
    if m.contains_key(key) {
        T::spec_decode(m[key])
    } else {
        None
    }
}

/// Whatever is stored at `key`, if anything, decodes as a `T`.
pub open spec fn decodes_at<T: Storable>(m: Map<Key, Seq<u8>>, key: Key) -> bool {
    m.contains_key(key) ==> T::spec_decode(m[key]).is_some()
}

/// A storage cell that loads its value from the store on first use and
/// keeps it cached from then on.
///
/// A cell made from a value has no key and is populated from the start; a
/// cell made for a key stays empty until it is first read or written. Once
/// populated, the cache is never emptied again.
/// The fields are public so that contracts can speak of them;
/// `well_formed` is what the constructors establish and the methods keep.
#[derive(Debug)]
pub struct LazyCell<T> {
    /// The key the cell loads from, if any.
    pub key: Option<Key>,
    /// The cached entry, `None` while nothing has been loaded.
    pub cache: Option<StorageEntry<T>>,
}

impl<T: Storable> LazyCell<T> {
    /// The key the cell loads from, if any.
    pub open spec fn spec_key(&self) -> Option<Key> {
        self.key
    }

    /// The cached entry, `None` while nothing has been loaded.
    pub open spec fn spec_cache(&self) -> Option<StorageEntry<T>> {
        self.cache
    }

    /// A cell without a key is always populated.
    pub open spec fn well_formed(&self) -> bool {
        self.spec_key().is_none() ==> self.spec_cache().is_some()
    }

    /// Resolving the cell against the store reads it.
    pub open spec fn needs_load(&self) -> bool {
        self.spec_cache().is_none() && self.spec_key().is_some()
    }

    /// Resolving the cell against the store contents `m` meets no bytes
    /// that fail to decode.
    pub open spec fn loadable(&self, m: Map<Key, Seq<u8>>) -> bool {
        self.needs_load() ==> decodes_at::<T>(m, self.spec_key().unwrap())
    }

    /// The entry the cell holds once resolved against the store contents
    /// `m`: the cached one if there is one, else what is stored at its key,
    /// marked as preserved.
    pub open spec fn resolved(&self, m: Map<Key, Seq<u8>>) -> StorageEntry<T> {
        match self.spec_cache() {
            Some(e) => e,
            None => StorageEntry {
                value: match self.spec_key() {
                    Some(k) => stored_value::<T>(m, k),
                    None => None,
                },
                state: EntryState::Preserved,
            },
        }
    }

    /// Pushing the cell writes its value: its entry is mutated and holds
    /// a value.
    pub open spec fn push_writes(&self) -> bool {
        self.spec_cache() matches Some(e) && e.state == EntryState::Mutated && e.value.is_some()
    }

    /// The store contents after this cell has been pushed to `key`: only a
    /// mutated entry that holds a value is written.
    pub open spec fn pushed(&self, m: Map<Key, Seq<u8>>, key: Key) -> Map<Key, Seq<u8>> {
        if self.push_writes() {
            m.insert(key, self.spec_cache().unwrap().value.unwrap().spec_encode())
        } else {
            m
        }
    }

    /// Finalizing the cell clears its key: it has a key and a populated
    /// cache.
    pub open spec fn finalize_clears(&self) -> bool {
        self.spec_key().is_some() && self.spec_cache().is_some()
    }

    /// A populated cell without a key; it must eventually be written.
    pub fn new(value: Option<T>) -> (r: LazyCell<T>)
        ensures
            r.well_formed(),
            r.spec_key().is_none(),
            r.spec_cache() == Some(StorageEntry { value, state: EntryState::Mutated }),
    {
        LazyCell { key: None, cache: Some(StorageEntry::new(value, EntryState::Mutated)) }
    }

    /// An empty cell that loads from `key` on first use. Reads nothing.
    pub fn lazy(key: Key) -> (r: LazyCell<T>)
        ensures
            r.well_formed(),
            r.spec_key() == Some(key),
            r.spec_cache().is_none(),
    {
        LazyCell { key: Some(key), cache: None }
    }

    /// The key the cell loads from, if any.
    pub fn key(&self) -> (r: Option<Key>)
        ensures
            r == self.spec_key(),
    {
        self.key
    }

    /// The cached entry, if the cell has been populated.
    pub fn entry(&self) -> (r: Option<&StorageEntry<T>>)
        ensures
            r == match self.spec_cache() {
                Some(e) => Some(&e),
                None => None::<&StorageEntry<T>>,
            },
    {
        self.cache.as_ref()
    }

    /// Populates the cache from the store if it is empty; a cell without a
    /// key is populated with an absent value.
    fn load_through_cache(&mut self, store: &mut Storage)
        requires
            old(store).wf(),
            old(self).loadable(old(store)@),
        ensures
            final(store).wf(),
            final(store)@ == old(store)@,
            final(store).spec_writes() == old(store).spec_writes(),
            final(store).spec_reads() == if old(self).needs_load() {
                bump(old(store).spec_reads())
            } else {
                old(store).spec_reads()
            },
            final(self).spec_key() == old(self).spec_key(),
            final(self).spec_cache() == Some(old(self).resolved(old(store)@)),
    {
        if self.cache.is_none() {
            let value = match self.key {
                Some(k) => pull_root::<T>(&k, store),
                None => None,
            };
            self.cache = Some(StorageEntry::new(value, EntryState::Preserved));
        }
    }

    /// A shared view of the value, loading it first if the cell is empty.
    /// The entry's state is left as it is.
    pub fn get(&mut self, store: &mut Storage) -> (r: Option<&T>)
        requires
            old(store).wf(),
            old(self).loadable(old(store)@),
        ensures
            final(store).wf(),
            final(store)@ == old(store)@,
            final(store).spec_writes() == old(store).spec_writes(),
            final(store).spec_reads() == if old(self).needs_load() {
                bump(old(store).spec_reads())
            } else {
                old(store).spec_reads()
            },
            final(self).well_formed(),
            final(self).spec_key() == old(self).spec_key(),
            final(self).spec_cache() == Some(old(self).resolved(old(store)@)),
            r == match old(self).resolved(old(store)@).value {
                Some(v) => Some(&v),
                None => None::<&T>,
            },
    {
        self.load_through_cache(store);
        match &self.cache {
            Some(e) => e.value(),
            None => None,
        }
    }

    /// An exclusive view of the value, loading it first if the cell is
    /// empty. The entry is marked as mutated.
    pub fn get_mut(&mut self, store: &mut Storage) -> (r: Option<&mut T>)
        requires
            old(store).wf(),
            old(self).loadable(old(store)@),
        ensures
            final(store).wf(),
            final(store)@ == old(store)@,
            final(store).spec_writes() == old(store).spec_writes(),
            final(store).spec_reads() == if old(self).needs_load() {
                bump(old(store).spec_reads())
            } else {
                old(store).spec_reads()
            },
            final(self).well_formed(),
            final(self).spec_key() == old(self).spec_key(),
            match old(self).resolved(old(store)@).value {
                None => r.is_none() && final(self).spec_cache() == Some(
                    StorageEntry::<T> { value: None, state: EntryState::Mutated },
                ),
                Some(v) => r.is_some() && *r.unwrap() == v && final(self).spec_cache() == Some(
                    StorageEntry { value: Some(*final(r.unwrap())), state: EntryState::Mutated },
                ),
            },
    {
        self.load_through_cache(store);
        match &mut self.cache {
            Some(e) => {
                e.replace_state(EntryState::Mutated);
                e.value_mut()
            },
            None => None,
        }
    }

    /// Overwrites the value without reading the store; the cell is then
    /// populated and mutated.
    pub fn set(&mut self, value: T)
        ensures
            final(self).well_formed(),
            final(self).spec_key() == old(self).spec_key(),
            final(self).spec_cache() == Some(
                StorageEntry { value: Some(value), state: EntryState::Mutated },
            ),
    {
        match &mut self.cache {
            Some(e) => {
                e.put(Some(value));
                e.replace_state(EntryState::Mutated);
            },
            None => {
                self.cache = Some(StorageEntry::new(Some(value), EntryState::Mutated));
            },
        }
    }

    /// The number of key slots the cell occupies: that of its value.
    pub fn footprint() -> (r: u64)
        ensures
            r == T::spec_footprint(),
    {
        T::footprint()
    }

    /// A cell for the next key of `ptr`, which then moves past it. Reads
    /// nothing.
    pub fn pull_spread(ptr: &mut KeyPtr) -> (r: LazyCell<T>)
        ensures
            r.well_formed(),
            r.spec_key() == Some(old(ptr).key),
            r.spec_cache().is_none(),
            final(ptr).key.value() == old(ptr).key.spec_add(T::spec_footprint() as nat),
    {
        let key = ptr.next(T::footprint());
        LazyCell::lazy(key)
    }

    /// Writes the cell's value at the next key of `ptr`, which then moves
    /// past it. Only a mutated entry that holds a value is written, and it is
    /// then marked as preserved.
    pub fn push_spread(&mut self, ptr: &mut KeyPtr, store: &mut Storage)
        requires
            old(store).wf(),
        ensures
            final(store).wf(),
            final(store)@ == old(self).pushed(old(store)@, old(ptr).key),
            final(store).spec_reads() == old(store).spec_reads(),
            final(store).spec_writes() == if old(self).push_writes() {
                bump(old(store).spec_writes())
            } else {
                old(store).spec_writes()
            },
            final(ptr).key.value() == old(ptr).key.spec_add(T::spec_footprint() as nat),
            old(self).well_formed() ==> final(self).well_formed(),
            final(self).spec_key() == old(self).spec_key(),
            final(self).spec_cache() == match old(self).spec_cache() {
                Some(e) => Some(
                    if e.state == EntryState::Mutated && e.value.is_some() {
                        StorageEntry { value: e.value, state: EntryState::Preserved }
                    } else {
                        e
                    },
                ),
                None => None,
            },
    {
        let key = ptr.next(T::footprint());
        match &mut self.cache {
            Some(e) => {
                if e.state.is_mutated() {
                    match &e.value {
                        Some(v) => {
                            store.write(&key, v.encode());
                            e.replace_state(EntryState::Preserved);
                        },
                        None => {},
                    }
                }
            },
            None => {},
        }
    }

    /// Removes whatever is stored at the next key of `ptr`, which then
    /// moves past it.
    pub fn clear_spread(&self, ptr: &mut KeyPtr, store: &mut Storage)
        requires
            old(store).wf(),
        ensures
            final(store).wf(),
            final(store)@ == old(store)@.remove(old(ptr).key),
            final(store).spec_reads() == old(store).spec_reads(),
            final(store).spec_writes() == bump(old(store).spec_writes()),
            final(ptr).key.value() == old(ptr).key.spec_add(T::spec_footprint() as nat),
    {
        let key = ptr.next(T::footprint());
        store.clear(&key);
    }

    /// Ends the cell's life: a cell with a key that has been used clears its
    /// key. A cell that was never used, or has no key, does no I/O.
    pub fn finalize(self, store: &mut Storage)
        requires
            old(store).wf(),
        ensures
            final(store).wf(),
            final(store)@ == if self.finalize_clears() {
                old(store)@.remove(self.spec_key().unwrap())
            } else {
                old(store)@
            },
            final(store).spec_reads() == old(store).spec_reads(),
            final(store).spec_writes() == if self.finalize_clears() {
                bump(old(store).spec_writes())
            } else {
                old(store).spec_writes()
            },
    {
        match self.key {
            Some(k) => {
                if self.cache.is_some() {
                    let mut ptr = KeyPtr::from_key(k);
                    self.clear_spread(&mut ptr, store);
                }
            },
            None => {},
        }
    }
}

/// Reads and decodes the value stored at `key`; `None` when nothing is
/// stored there.
fn pull_root<T: Storable>(key: &Key, store: &mut Storage) -> (r: Option<T>)
    requires
        old(store).wf(),
        decodes_at::<T>(old(store)@, *key),
    ensures
        final(store).wf(),
        final(store)@ == old(store)@,
        final(store).spec_reads() == bump(old(store).spec_reads()),
        final(store).spec_writes() == old(store).spec_writes(),
        r == stored_value::<T>(old(store)@, *key),
{
    match store.read(key) {
        Some(bytes) => T::decode(bytes.as_slice()),
        None => None,
    }
}

/// A cell made from a value holds it, mutated and without a key.
impl<T: Storable> From<T> for LazyCell<T> {
    fn from(value: T) -> (r: LazyCell<T>) {
        LazyCell::new(Some(value))
    }
}

impl<T: Storable> vstd::std_specs::convert::FromSpecImpl<T> for LazyCell<T> {
    open spec fn obeys_from_spec() -> bool {
        true
    }

    open spec fn from_spec(value: T) -> LazyCell<T> {
        LazyCell {
            key: None,
            cache: Some(StorageEntry { value: Some(value), state: EntryState::Mutated }),
        }
    }
}

/// The default cell holds the default value, mutated and without a key.
impl<T: Storable + Default> Default for LazyCell<T> {
    fn default() -> (r: LazyCell<T>)
        ensures
            r.well_formed(),
            r.spec_key().is_none(),
            r.spec_cache() matches Some(e) && e.value.is_some() && e.state == EntryState::Mutated,
    {
        LazyCell::new(Some(T::default()))
    }
}

/// Pushing a value and pulling it back gives the value: once a cell that
/// holds a mutated value `v` has been pushed to `key`, a fresh cell for
/// `key` resolves to `v`, marked as preserved.
pub proof fn lemma_push_pull_round_trip<T: Storable>(
    pushed: LazyCell<T>,
    fresh: LazyCell<T>,
    m: Map<Key, Seq<u8>>,
    key: Key,
    v: T,
)
    requires
        pushed.spec_cache() == Some(StorageEntry { value: Some(v), state: EntryState::Mutated }),
        fresh.spec_key() == Some(key),
        fresh.spec_cache().is_none(),
    ensures
        fresh.loadable(pushed.pushed(m, key)),
        fresh.resolved(pushed.pushed(m, key)) == (StorageEntry {
            value: Some(v),
            state: EntryState::Preserved,
        }),
{
    T::lemma_round_trip(v);
    assert(pushed.pushed(m, key) == m.insert(key, v.spec_encode()));
}

/// A populated cell never reads the store: resolving it needs no load and
/// gives back its cached entry, whatever the store holds. `new` makes
/// populated cells, and `get`, `get_mut` and `set` leave a cell populated,
/// so after the first resolution no access reads again.
pub proof fn lemma_populated_never_loads<T: Storable>(cell: LazyCell<T>, m: Map<Key, Seq<u8>>)
    requires
        cell.spec_cache().is_some(),
    ensures
        !cell.needs_load(),
        cell.loadable(m),
        cell.resolved(m) == cell.spec_cache().unwrap(),
{
}

/// What was changed through `get_mut` is what a later push writes: a cell
/// whose entry is mutated and holds `w` writes the bytes of `w`, and a
/// fresh cell for the same key then reads `w`.
pub proof fn lemma_mutation_is_pushed<T: Storable>(
    cell: LazyCell<T>,
    m: Map<Key, Seq<u8>>,
    key: Key,
    w: T,
)
    requires
        cell.spec_cache() == Some(StorageEntry { value: Some(w), state: EntryState::Mutated }),
    ensures
        cell.pushed(m, key) == m.insert(key, w.spec_encode()),
        stored_value::<T>(cell.pushed(m, key), key) == Some(w),
{
    T::lemma_round_trip(w);
}

/// Clearing removes a value for good: after `key` has been cleared, a
/// fresh cell for `key` reads an absent value, and clearing once more
/// leaves the store as it is.
pub proof fn lemma_clear_idempotent<T: Storable>(
    fresh: LazyCell<T>,
    m: Map<Key, Seq<u8>>,
    key: Key,
)
    requires
        fresh.spec_key() == Some(key),
        fresh.spec_cache().is_none(),
    ensures
        fresh.loadable(m.remove(key)),
        fresh.resolved(m.remove(key)).value.is_none(),
        m.remove(key).remove(key) == m.remove(key),
{
    assert(m.remove(key).remove(key) =~= m.remove(key));
}

/// A cell loads at most once: once resolved against the store contents
/// `m`, it needs no further load, and resolving it again against any
/// contents `later` gives the same entry.
pub proof fn lemma_single_load<T: Storable>(
    cell: LazyCell<T>,
    m: Map<Key, Seq<u8>>,
    later: Map<Key, Seq<u8>>,
)
    ensures
        ({
            let after = LazyCell { key: cell.key, cache: Some(cell.resolved(m)) };
            &&& !after.needs_load()
            &&& after.loadable(later)
            &&& after.resolved(later) == cell.resolved(m)
        }),
{
}

} // verus!
