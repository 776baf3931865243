use vstd::prelude::*;

verus! {

/// Whether a cached value still equals what the store holds.
#[derive(Clone, Copy, Debug, PartialEq, Eq, Structural)]
pub enum EntryState {
    /// The value equals what is (or would be) in the store.
    Preserved,
    /// The value has diverged from the store and has to be written back.
    Mutated,
}

impl EntryState {
    pub fn is_mutated(&self) -> (r: bool)
        ensures
            r == (*self == EntryState::Mutated),
    {
        match self {
            EntryState::Mutated => true,
            EntryState::Preserved => false,
        }
    }
}

/// A cached value, `None` when the value is absent, with its state.
#[derive(Debug, PartialEq, Eq)]
pub struct StorageEntry<T> {
    pub value: Option<T>,
    pub state: EntryState,
}

impl<T> StorageEntry<T> {
    pub fn new(value: Option<T>, state: EntryState) -> (r: StorageEntry<T>)
        ensures
            r == (StorageEntry { value, state }),
    {
        StorageEntry { value, state }
    }

    /// A shared view of the value, if any.
    pub fn value(&self) -> (r: Option<&T>)
        ensures
            r == match self.value {
                Some(v) => Some(&v),
                None => None::<&T>,
            },
    {
        self.value.as_ref()
    }

    /// An exclusive view of the value, if any. The state is left as it is.
    pub fn value_mut(&mut self) -> (r: Option<&mut T>)
        ensures
            old(self).value.is_none() ==> r.is_none() && *final(self) == *old(self),
            old(self).value.is_some() ==> r.is_some() && *r.unwrap() == old(self).value.unwrap()
                && *final(self) == (StorageEntry {
                value: Some(*final(r.unwrap())),
                state: old(self).state,
            }),
    {
        self.value.as_mut()
    }

    /// Overwrites the value; the state is left as it is.
    pub fn put(&mut self, value: Option<T>)
        ensures
            *final(self) == (StorageEntry { value, state: old(self).state }),
    {
        self.value = value;
    }

    /// Sets the state and returns the one it replaces.
    pub fn replace_state(&mut self, state: EntryState) -> (r: EntryState)
        ensures
            r == old(self).state,
            *final(self) == (StorageEntry { value: old(self).value, state }),
    {
        let prev = self.state;
        self.state = state;
        prev
    }
}

} // verus!
