//! A one-slot cache, recomputing its value only when asked for a new key, and
//! invalidating itself when a frame passes without a lookup.

use vstd::prelude::*;
use vstd::std_specs::cmp::PartialEqSpec;

verus! {

/// Caches the value computed for the most recently seen key. `get` recomputes
/// only on a key change; `update`, called once per frame, clears the slot if
/// no lookup happened since the previous call, so a stale value never
/// survives a frame in which nobody asked for it.
#[derive(Debug, Clone)]
pub struct SingleCache<K, V> {
    last_key: Option<K>,
    value: V,
    read: bool,
}

impl<K, V> SingleCache<K, V> {
    /// The key the cached value was computed for, if any.
    pub closed spec fn spec_key(&self) -> Option<K> {
        self.last_key
    }

    /// The cached value.
    pub closed spec fn spec_value(&self) -> V {
        self.value
    }

    /// Whether a lookup happened since the last `update`.
    pub closed spec fn spec_read(&self) -> bool {
        self.read
    }

    /// Look up the value for `key`, recomputing it with `f` only when `key`
    /// differs from the key of the cached value.
    ///
    /// The first disjunct of the third clause is the hit path (the slot is
    /// untouched), the second the miss path (the key is stored and the value
    /// recomputed). When `K`'s equality obeys its specification the choice
    /// between the two is exact, per the last clause.
    pub fn get<F>(&mut self, key: &K, f: F) -> (cached: &V) where
        F: FnOnce() -> V,
        K: PartialEq + Clone,

        requires
            call_requires(f, ()),
        ensures
            final(self).spec_read(),
            *cached == final(self).spec_value(),
            ({
                ||| {
                    &&& old(self).spec_key() is Some
                    &&& final(self).spec_key() == old(self).spec_key()
                    &&& final(self).spec_value() == old(self).spec_value()
                }
                ||| {
                    &&& final(self).spec_key() matches Some(stored) && cloned::<K>(*key, stored)
                    &&& call_ensures(f, (), final(self).spec_value())
                }
            }),
            K::obeys_eq_spec() ==> ({
                let hit = old(self).spec_key() matches Some(k) && k.eq_spec(key);
                if hit {
                    &&& final(self).spec_key() == old(self).spec_key()
                    &&& final(self).spec_value() == old(self).spec_value()
                } else {
                    &&& final(self).spec_key() matches Some(stored) && cloned::<K>(*key, stored)
                    &&& call_ensures(f, (), final(self).spec_value())
                }
            }),
    {
        self.read = true;
        let hit = match &self.last_key {
            Some(k) => k.eq(key),
            None => false,
        };
        if !hit {
            self.last_key = Some(key.clone());
            self.value = f();
        }
        &self.value
    }

    /// End the current frame: clear the slot if no lookup happened since the
    /// previous call, and reset the lookup mark either way.
    pub fn update(&mut self)
        ensures
            !final(self).spec_read(),
            final(self).spec_value() == old(self).spec_value(),
            final(self).spec_key() == if old(self).spec_read() {
                old(self).spec_key()
            } else {
                Option::<K>::None
            },
    {
        if !self.read {
            self.last_key = None;
        }
        self.read = false;
    }
}

impl<K, V: Default> Default for SingleCache<K, V> {
    /// An empty, unread slot around `V`'s default value.
    fn default() -> (cache: Self)
        ensures
            cache.spec_key() is None,
            !cache.spec_read(),
    {
        SingleCache { last_key: None, value: V::default(), read: false }
    }
}

} // verus!
