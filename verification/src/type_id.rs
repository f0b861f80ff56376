//! Turning type identifiers into the keys of the embedder's slots.

use vstd::prelude::*;

verus! {

/// A hasher for type identifiers. A type identifier is a 64-bit number that
/// comes out of a hash function already, so there is no need to shuffle its
/// bits any further: the hash is the number itself.
///
/// A hasher takes exactly one number.
pub struct TypeIdHasher {
    state: Option<u64>,
}

impl View for TypeIdHasher {
    type V = Option<u64>;

    /// The number written so far, if any.
    closed spec fn view(&self) -> Option<u64> {
        self.state
    }
}

impl Clone for TypeIdHasher {
    fn clone(&self) -> (hasher: Self)
        ensures
            hasher@ == self@,
    {
        TypeIdHasher { state: self.state }
    }
}

impl Default for TypeIdHasher {
    fn default() -> (hasher: Self)
        ensures
            hasher@ is None,
    {
        TypeIdHasher { state: None }
    }
}

impl TypeIdHasher {
    /// Takes the identifier.
    pub fn write_u64(&mut self, value: u64)
        requires
            old(self)@ is None,
        ensures
            final(self)@ == Some(value),
    {
        self.state = Some(value);
    }

    /// The hash of the identifier that was written.
    pub fn finish(&self) -> (hash: u64)
        requires
            self@ is Some,
        ensures
            Some(hash) == self@,
    {
        self.state.unwrap()
    }
}

/// Makes a fresh [`TypeIdHasher`] for each identifier.
#[derive(Clone, Copy)]
pub struct BuildTypeIdHasher;

impl Default for BuildTypeIdHasher {
    fn default() -> (builder: Self)
        ensures
            builder == BuildTypeIdHasher,
    {
        BuildTypeIdHasher
    }
}

impl BuildTypeIdHasher {
    /// A hasher that nothing has been written to.
    pub fn build_hasher(&self) -> (hasher: TypeIdHasher)
        ensures
            hasher@ is None,
    {
        TypeIdHasher::default()
    }

    /// The key of the slot for the type with the given identifier: the
    /// identifier itself.
    pub fn hash_one(&self, identifier: u64) -> (key: u64)
        ensures
            key == identifier,
    {
        let mut hasher = self.build_hasher();
        hasher.write_u64(identifier);
        hasher.finish()
    }
}

} // verus!
