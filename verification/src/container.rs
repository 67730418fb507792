//! The container at run time: a mapping from variant keys to values of the
//! tagged union, with a default payload for every variant.
//!
//! A variant is identified by its position in the schema, and that position
//! is also the variant's key. A value of the union is a [`Tagged`] payload.
//! The container holds at most one value per key, and the value under a key
//! always belongs to that key's variant.

use std::collections::HashMap;
use vstd::prelude::*;

verus! {

broadcast use vstd::std_specs::hash::group_hash_axioms;

/// A value of the tagged union: the variant it belongs to and its payload.
#[derive(Debug, Clone, PartialEq, Eq)]
pub struct Tagged<P> {
    pub variant: usize,
    pub payload: P,
}

/// Mathematical model of the container: the default payload of every
/// variant, in schema order, and the payload stored under each key that
/// has one.
pub struct MapModel<P> {
    pub defaults: Seq<P>,
    pub entries: Map<usize, P>,
}

impl<P> MapModel<P> {
    /// The container with the given defaults and nothing stored.
    pub open spec fn empty(defaults: Seq<P>) -> Self {
        MapModel { defaults, entries: Map::empty() }
    }

    /// `key` denotes a variant of the schema.
    pub open spec fn is_key(self, key: usize) -> bool {
        key < self.defaults.len()
    }

    /// The value stored under `key`, if any.
    pub open spec fn get(self, key: usize) -> Option<Tagged<P>> {
        if self.entries.contains_key(key) {
            Some(Tagged { variant: key, payload: self.entries[key] })
        } else {
            None
        }
    }

    /// What storing `value` hands back: the value that it replaces, if
    /// any.
    pub open spec fn replaced(self, value: Tagged<P>) -> Option<Tagged<P>> {
        self.get(value.variant)
    }

    /// The container after `value` was stored under the key of its variant,
    /// replacing what was there.
    pub open spec fn set(self, value: Tagged<P>) -> Self {
        MapModel { defaults: self.defaults, entries: self.entries.insert(value.variant, value.payload) }
    }

    /// The value stored under `key`, or else a value of that variant with
    /// the variant's default payload.
    pub open spec fn get_or_default(self, key: usize) -> Tagged<P> {
        if self.entries.contains_key(key) {
            Tagged { variant: key, payload: self.entries[key] }
        } else {
            Tagged { variant: key, payload: self.defaults[key as int] }
        }
    }

    /// What the getter of the variant `key` yields: the stored payload, or
    /// else the variant's default payload.
    pub open spec fn payload(self, key: usize) -> P {
        match self.get(key) {
            Some(value) => value.payload,
            None => self.defaults[key as int],
        }
    }

    /// The container after the setter of the variant `key` stored
    /// `payload`.
    pub open spec fn set_payload(self, key: usize, payload: P) -> Self {
        self.set(Tagged { variant: key, payload })
    }
}

/// The container: one default payload per variant and the stored values.
pub struct VariantMap<P> {
    defaults: Vec<P>,
    values: HashMap<usize, Tagged<P>>,
}

impl<P> View for VariantMap<P> {
    type V = MapModel<P>;

    closed spec fn view(&self) -> MapModel<P> {
        MapModel {
            defaults: self.defaults@,
            entries: Map::new(
                |key: usize| self.values@.contains_key(key),
                |key: usize| self.values@[key].payload,
            ),
        }
    }
}

impl<P> VariantMap<P> {
    /// Every stored value lies under the key of its own variant, and every
    /// key in use denotes a variant.
    #[verifier::type_invariant]
    spec fn well_formed(self) -> bool {
        forall|key: usize| #[trigger]
            self.values@.contains_key(key) ==> key < self.defaults@.len()
                && self.values@[key].variant == key
    }

    /// A container for a union with one variant per element of `defaults`,
    /// the element being the default payload of that variant. Nothing is
    /// stored in it yet.
    pub fn new(defaults: Vec<P>) -> (map: Self)
        ensures
            map@ == MapModel::empty(defaults@),
    {
        let map = VariantMap { defaults, values: HashMap::new() };
        assert(map@.entries =~= Map::empty());
        map
    }

    /// The number of variants, which is also the number of keys.
    pub fn variant_count(&self) -> (count: usize)
        ensures
            count == self@.defaults.len(),
    {
        self.defaults.len()
    }

    /// Stores `value` under the key of its variant, replacing any value
    /// stored there, and returns the value that was replaced.
    pub fn set(&mut self, value: Tagged<P>) -> (previous: Option<Tagged<P>>)
        requires
            old(self)@.is_key(value.variant),
        ensures
            final(self)@ == old(self)@.set(value),
            previous == old(self)@.replaced(value),
    {
        proof {
            use_type_invariant(&*self);
        }
        let mut values = HashMap::new();
        std::mem::swap(&mut values, &mut self.values);
        let previous = values.insert(value.variant, value);
        self.values = values;
        assert(self@.entries =~= old(self)@.set(value).entries);
        previous
    }

    /// Same as [`VariantMap::set`].
    pub fn insert(&mut self, value: Tagged<P>) -> (previous: Option<Tagged<P>>)
        requires
            old(self)@.is_key(value.variant),
        ensures
            final(self)@ == old(self)@.set(value),
            previous == old(self)@.replaced(value),
    {
        self.set(value)
    }

    /// The value stored under `key`, by reference, or `None` where there
    /// is none. The container is left as it is.
    pub fn get(&self, key: usize) -> (found: Option<&Tagged<P>>)
        ensures
            match found {
                Some(value) => self@.get(key) == Some(*value) && self@.is_key(key),
                None => self@.get(key) is None,
            },
    {
        proof {
            use_type_invariant(self);
        }
        self.values.get(&key)
    }

    /// The setter of the variant `key`: wraps `payload` in the variant and
    /// stores it under the key, whatever was there.
    pub fn set_variant(&mut self, key: usize, payload: P)
        requires
            old(self)@.is_key(key),
        ensures
            final(self)@ == old(self)@.set_payload(key, payload),
    {
        let _ = self.set(Tagged { variant: key, payload });
    }
}

impl<P: Clone> VariantMap<P> {
    /// A copy of the value stored under `key`, or else a fresh value of the
    /// key's variant with the variant's default payload. The container is
    /// left as it is: the fresh value is not stored.
    pub fn get_or_default(&self, key: usize) -> (value: Tagged<P>)
        requires
            self@.is_key(key),
        ensures
            value.variant == key,
            cloned(self@.get_or_default(key).payload, value.payload),
    {
        proof {
            use_type_invariant(self);
        }
        match self.values.get(&key) {
            Some(stored) => Tagged { variant: key, payload: stored.payload.clone() },
            None => Tagged { variant: key, payload: self.defaults[key].clone() },
        }
    }

    /// The getter of the variant `key`: a copy of the payload stored under
    /// the key, or else a copy of the variant's default payload.
    pub fn get_variant(&self, key: usize) -> (payload: P)
        requires
            self@.is_key(key),
        ensures
            cloned(self@.payload(key), payload),
    {
        proof {
            use_type_invariant(self);
        }
        match self.values.get(&key) {
            Some(stored) => stored.payload.clone(),
            None => self.defaults[key].clone(),
        }
    }
}

} // verus!
