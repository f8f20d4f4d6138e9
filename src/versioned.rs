use vstd::pervasive::strictly_cloned;
use vstd::prelude::*;

use crate::version::{advanced_from, is_fresh, Version};

verus! {

/// A value together with the version token that tracks it. Every mutable access to the value
/// advances the token first, whether or not the value is then changed.
#[derive(Debug)]
pub struct Versioned<T> {
    value: T,
    version: Version,
}

impl<T> Versioned<T> {
    /// The value held.
    pub closed spec fn inner(&self) -> T {
        self.value
    }

    /// The token held.
    pub closed spec fn token(&self) -> Version {
        self.version
    }

    /// Wraps `value` with a fresh token.
    pub fn new(value: T) -> (r: Self)
        ensures
            r.inner() == value,
            is_fresh(r.token()),
    {
        Self::with_version(value, Version::new())
    }

    /// Wraps `value` with the given token, taken as it is.
    pub fn with_version(value: T, version: Version) -> (r: Self)
        ensures
            r.inner() == value,
            r.token() == version,
    {
        Versioned { value, version }
    }

    /// The current token. Observing it counts as no access.
    pub fn version(&self) -> (r: Version)
        ensures
            r == self.token(),
    {
        self.version
    }
}

impl<T: Default> Default for Versioned<T> {
    /// Wraps the default value of `T` with a fresh token.
    fn default() -> (r: Self)
        ensures
            call_ensures(T::default, (), r.inner()),
            is_fresh(r.token()),
    {
        Self::new(T::default())
    }
}

impl<T: Clone> Clone for Versioned<T> {
    /// Wraps a clone of the value with a fresh token: a duplicate starts a lineage of its own.
    fn clone(&self) -> (r: Self)
        ensures
            strictly_cloned(self.inner(), r.inner()),
            is_fresh(r.token()),
    {
        Self::new(self.value.clone())
    }
}

impl<T: Copy> Copy for Versioned<T> {}

impl<T> core::ops::Deref for Versioned<T> {
    type Target = T;

    /// Read access to the value; the token stays as it is.
    fn deref(&self) -> (r: &T)
        ensures
            *r == self.inner(),
    {
        &self.value
    }
}

impl<T> AsRef<T> for Versioned<T> {
    /// Read access to the value; the token stays as it is.
    fn as_ref(&self) -> (r: &T)
        ensures
            *r == self.inner(),
    {
        core::ops::Deref::deref(self)
    }
}

impl<T> core::ops::DerefMut for Versioned<T> {
    /// Write access to the value. The token is advanced first, whatever is then done with the
    /// access.
    fn deref_mut(&mut self) -> (r: &mut T)
        ensures
            *r == old(self).inner(),
            *final(r) == final(self).inner(),
            advanced_from(old(self).token(), final(self).token()),
            final(self).token() != old(self).token(),
    {
        self.version.increment();
        &mut self.value
    }
}

impl<T> AsMut<T> for Versioned<T> {
    /// Write access to the value. The token is advanced first, whatever is then done with the
    /// access.
    fn as_mut(&mut self) -> (r: &mut T)
        ensures
            *r == old(self).inner(),
            *final(r) == final(self).inner(),
            advanced_from(old(self).token(), final(self).token()),
            final(self).token() != old(self).token(),
    {
        core::ops::DerefMut::deref_mut(self)
    }
}

} // verus!
