//! A value remembered together with the key it was made for, and made anew
//! only when the key changes.

use vstd::prelude::*;
use crate::buildings::BuildingId;

verus! {

/// Holds at most one key and the value made for it.
pub struct Cached<V> {
    contents: Option<(BuildingId, V)>,
}

impl<V> View for Cached<V> {
    type V = Option<(BuildingId, V)>;

    closed spec fn view(&self) -> Option<(BuildingId, V)> {
        self.contents
    }
}

/// The key of what a cache holds.
pub open spec fn key_of<V>(contents: Option<(BuildingId, V)>) -> Option<BuildingId> {
    match contents {
        Some((key, _)) => Some(key),
        None => None,
    }
}

impl<V> Cached<V> {
    /// An empty cache.
    pub fn new() -> (cache: Self)
        ensures
            cache@ is None,
    {
        Cached { contents: None }
    }

    /// The current key.
    pub fn key(&self) -> (key: Option<BuildingId>)
        ensures
            key == key_of(self@),
    {
        match &self.contents {
            Some((key, _)) => Some(*key),
            None => None,
        }
    }

    /// The value made for the current key.
    pub fn value(&self) -> (value: Option<&V>)
        ensures
            match value {
                Some(v) => self@ matches Some((_, held)) && *v == held,
                None => self@ is None,
            },
    {
        match &self.contents {
            Some((_, value)) => Some(value),
            None => None,
        }
    }

    /// Moves the cache to `key`. Where that is the key it already has,
    /// nothing happens and `produce_value` is not called. Where it is a new
    /// key, the value is made by `produce_value`; where it is `None`, the
    /// cache is emptied. Tells whether the key has changed.
    pub fn update<F: FnOnce(BuildingId) -> V>(
        &mut self,
        key: Option<BuildingId>,
        produce_value: F,
    ) -> (changed: bool)
        requires
            key matches Some(k) ==> (key_of(old(self)@) != key ==> produce_value.requires((k, ))),
        ensures
            changed == (key_of(old(self)@) != key),
            !changed ==> final(self)@ == old(self)@,
            changed ==> match key {
                Some(k) => final(self)@ matches Some((held_key, held)) && held_key == k
                    && produce_value.ensures((k, ), held),
                None => final(self)@ is None,
            },
    {
        match key {
            Some(new_key) => {
                let same = match &self.contents {
                    Some((held_key, _)) => *held_key == new_key,
                    None => false,
                };
                if same {
                    false
                } else {
                    self.contents = Some((new_key, produce_value(new_key)));
                    true
                }
            },
            None => {
                let changed = self.contents.is_some();
                self.contents = None;
                changed
            },
        }
    }

    /// Empties the cache, so that the next `update` makes its value anew.
    pub fn clear(&mut self)
        ensures
            final(self)@ is None,
    {
        self.contents = None;
    }
}

} // verus!
