//! The store of workflow instances, keyed by instance identifier.
//! Creation is exactly-once: a second creation under the same identifier
//! is refused, never an overwrite.

use std::collections::HashMap;
use vstd::prelude::*;

verus! {

broadcast use vstd::std_specs::hash::group_hash_axioms;

#[derive(Clone, Copy, Debug, PartialEq, Eq)]
pub enum RegistryError {
    /// An instance with this identifier already exists.
    AlreadyExists,
}

/// Instances keyed by identifier.
pub struct Registry<T> {
    records: HashMap<u64, T>,
}

impl<T> Registry<T> {
    pub closed spec fn view(&self) -> Map<u64, T> {
        self.records@
    }

    pub fn new() -> (r: Registry<T>)
        ensures
            r@ == Map::<u64, T>::empty(),
    {
        Registry { records: HashMap::new() }
    }

    /// Records a new instance under `id`, unless one exists there already.
    pub fn create(&mut self, id: u64, record: T) -> (r: Result<(), RegistryError>)
        ensures
            old(self)@.contains_key(id) ==> {
                &&& r == Err::<(), RegistryError>(RegistryError::AlreadyExists)
                &&& final(self)@ == old(self)@
            },
            !old(self)@.contains_key(id) ==> {
                &&& r is Ok
                &&& final(self)@ == old(self)@.insert(id, record)
            },
    {
        if self.records.contains_key(&id) {
            return Err(RegistryError::AlreadyExists);
        }
        self.records.insert(id, record);
        Ok(())
    }

    /// The instance under `id`, if any.
    pub fn get(&self, id: u64) -> (r: Option<&T>)
        ensures
            match r {
                Some(v) => self@.contains_key(id) && *v == self@[id],
                None => !self@.contains_key(id),
            },
    {
        self.records.get(&id)
    }

    /// Takes the instance under `id` out of the store, to run a transition
    /// on it; `create` puts it back.
    pub fn take(&mut self, id: u64) -> (r: Option<T>)
        ensures
            final(self)@ == old(self)@.remove(id),
            match r {
                Some(v) => old(self)@.contains_key(id) && v == old(self)@[id],
                None => !old(self)@.contains_key(id),
            },
    {
        self.records.remove(&id)
    }
}

} // verus!
