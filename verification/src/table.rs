//! Entities keyed by their id.

use vstd::hash_map::StringHashMap;
use vstd::prelude::*;

verus! {

/// The entities of one kind of a snapshot, each under its id. An id is
/// meaningful within its own snapshot only.
#[verifier::reject_recursive_types(T)]
pub struct Table<T> {
    entries: StringHashMap<T>,
}

impl<T> View for Table<T> {
    type V = Map<Seq<char>, T>;

    closed spec fn view(&self) -> Map<Seq<char>, T> {
        self.entries@
    }
}

impl<T: DeepView> DeepView for Table<T> {
    type V = Map<Seq<char>, T::V>;

    open spec fn deep_view(&self) -> Map<Seq<char>, T::V> {
        self@.map_values(|x: T| x.deep_view())
    }
}

impl<T> Table<T> {
    /// A table without entries.
    pub fn new() -> (r: Self)
        ensures
            r@ == Map::<Seq<char>, T>::empty(),
    {
        Table { entries: StringHashMap::new() }
    }

    /// Puts `value` under `id`, in place of what was there.
    pub fn insert(&mut self, id: String, value: T)
        ensures
            final(self)@ == old(self)@.insert(id@, value),
    {
        self.entries.insert(id, value);
    }

    /// The entity under `id`, if there is one.
    pub fn get(&self, id: &str) -> (r: Option<&T>)
        ensures
            match r {
                Some(v) => self@.contains_key(id@) && *v == self@[id@],
                None => !self@.contains_key(id@),
            },
    {
        self.entries.get(id)
    }

    /// Whether there is an entity under `id`.
    pub fn contains(&self, id: &str) -> (r: bool)
        ensures
            r == self@.contains_key(id@),
    {
        self.entries.contains_key(id)
    }

    /// The number of entities.
    pub fn len(&self) -> (r: usize)
        ensures
            r == self@.len(),
    {
        self.entries.len()
    }
}

} // verus!
