use vstd::prelude::*;

verus! {

/// The largest lineage identifier, held by the sentinel token.
pub const MAX_LINEAGE: u128 = 0xFFFF_FFFF_FFFF_FFFF_FFFF_FFFF_FFFF_FFFFu128;

/// Whether `id` is the 128-bit value of a random (version 4) UUID: its version nibble is 4 and its
/// variant bits are `10`, whatever the random bits around them are.
pub open spec fn is_random_lineage(id: u128) -> bool {
    id & 0xF000_C000_0000_0000_0000u128 == 0x4000_8000_0000_0000_0000u128
}

/// The counter that follows `c`, wrapping from the largest value back to 0.
pub open spec fn next_counter(c: usize) -> usize {
    if c == usize::MAX {
        0
    } else {
        (c + 1) as usize
    }
}

/// Whether `v` is a token as a fresh creation or a reset leaves it: a random lineage and counter 0.
pub open spec fn is_fresh(v: Version) -> bool {
    is_random_lineage(v.id) && v.counter == 0
}

/// Whether `next` is what the lineage-regenerating increment can make of `prev`: the counter moves
/// on by one; below the maximum the lineage stays, at the maximum the counter wraps to 0 and the
/// lineage is replaced by a random one.
pub open spec fn advanced_from(prev: Version, next: Version) -> bool {
    &&& next.counter == next_counter(prev.counter)
    &&& prev.counter < usize::MAX ==> next.id == prev.id
    &&& prev.counter == usize::MAX ==> is_random_lineage(next.id)
}

/// Whether `next` is what the wrapping increment makes of `prev`: the lineage stays and the counter
/// moves on by one, wrapping to 0 after the largest value.
pub open spec fn wrapped_from(prev: Version, next: Version) -> bool {
    next.id == prev.id && next.counter == next_counter(prev.counter)
}

/// Relies on `uuid::Uuid::new_v4`, read back through `Uuid::as_u128`: a random identifier in whose
/// value `new_v4` has set the version nibble to 4 and the variant bits to `10`. `new_v4` panics only
/// when the operating system cannot supply random bytes.
#[verifier::external_body]
fn new_lineage() -> (r: u128)
    ensures
        is_random_lineage(r),
{
    uuid::Uuid::new_v4().as_u128()
}

/// A point in the mutation history of a tracked value.
///
/// `id` names the lineage: the history that the token belongs to. `counter` tells how far along
/// that history the token is. Two tokens are equal when both parts are equal, and alike when their
/// lineages are equal.
#[derive(Debug, Clone, Copy, PartialEq, Eq, Hash, Structural)]
pub struct Version {
    pub id: u128,
    pub counter: usize,
}

impl Version {
    /// The token that stands for "no version yet": the largest lineage and the largest counter. No
    /// fresh token equals it (see [`lemma_sentinel_is_not_fresh`]).
    pub fn sentinel() -> (r: Self)
        ensures
            r.id == MAX_LINEAGE,
            r.counter == usize::MAX,
    {
        Version { id: MAX_LINEAGE, counter: usize::MAX }
    }

    /// A token of a new random lineage, with counter 0.
    pub fn new() -> (r: Self)
        ensures
            is_fresh(r),
    {
        Version { id: new_lineage(), counter: 0 }
    }

    /// Starts a new random lineage and sets the counter back to 0, cutting the token off from its
    /// history.
    pub fn reset(&mut self)
        ensures
            is_fresh(*final(self)),
    {
        self.id = new_lineage();
        self.counter = 0;
    }

    /// Moves the counter on by one. When the counter wraps around, the lineage is replaced by a new
    /// random one, so that a wrapped counter cannot be taken for an earlier point of the same
    /// lineage.
    pub fn increment(&mut self)
        ensures
            advanced_from(*old(self), *final(self)),
            *final(self) != *old(self),
    {
        self.counter = self.counter.wrapping_add(1);
        if self.counter == 0 {
            self.id = new_lineage();
        }
    }

    /// Moves the counter on by one, wrapping to 0 after the largest value. The lineage never changes.
    pub fn increment_wrap(&mut self)
        ensures
            wrapped_from(*old(self), *final(self)),
    {
        self.counter = self.counter.wrapping_add(1);
    }

    /// Whether the two tokens belong to the same lineage, whatever their counters.
    pub fn alike(&self, other: &Self) -> (r: bool)
        ensures
            r == (self.id == other.id),
    {
        self.id == other.id
    }
}

/// The sentinel is neither equal nor alike to any fresh token: a random lineage never has every
/// bit set, and a fresh counter is 0.
pub proof fn lemma_sentinel_is_not_fresh(v: Version)
    requires
        is_fresh(v),
    ensures
        v != (Version { id: MAX_LINEAGE, counter: usize::MAX }),
        v.id != MAX_LINEAGE,
{
    lemma_random_lineage_is_not_max(v.id);
}

/// A fresh token, as a reset or a duplication gives, differs from every token that is not fresh
/// (its counter is not 0, or its lineage is no random one); from one whose lineage is no random one,
/// such as the sentinel, it also differs in lineage.
pub proof fn lemma_fresh_differs_from_used(used: Version, fresh: Version)
    requires
        is_fresh(fresh),
        !is_fresh(used),
    ensures
        fresh != used,
        !is_random_lineage(used.id) ==> fresh.id != used.id,
{
}

/// Below the largest counter, an increment keeps the lineage and adds one to the counter.
pub proof fn lemma_increment_below_max(prev: Version, next: Version)
    requires
        advanced_from(prev, next),
        prev.counter < usize::MAX,
    ensures
        next.id == prev.id,
        next.counter == prev.counter + 1,
{
}

/// At the largest counter, an increment wraps the counter to 0 and takes a random lineage, which
/// differs from the previous one wherever that one was no random lineage.
pub proof fn lemma_increment_at_max(prev: Version, next: Version)
    requires
        advanced_from(prev, next),
        prev.counter == usize::MAX,
    ensures
        next.counter == 0,
        is_random_lineage(next.id),
        !is_random_lineage(prev.id) ==> next.id != prev.id,
{
}

/// Every increment gives a token that differs from the one before it: the counter always moves.
pub proof fn lemma_increment_changes(prev: Version, next: Version)
    requires
        advanced_from(prev, next),
    ensures
        next != prev,
        next.counter != prev.counter,
{
}

/// Whatever the counter, the wrapping increment keeps the lineage; at the largest counter it wraps
/// the counter to 0.
pub proof fn lemma_increment_wrap_at_max(prev: Version, next: Version)
    requires
        wrapped_from(prev, next),
        prev.counter == usize::MAX,
    ensures
        next.id == prev.id,
        next.counter == 0,
{
}

proof fn lemma_random_lineage_is_not_max(id: u128)
    by (bit_vector)
    requires
        id & 0xF000_C000_0000_0000_0000u128 == 0x4000_8000_0000_0000_0000u128,
    ensures
        id != 0xFFFF_FFFF_FFFF_FFFF_FFFF_FFFF_FFFF_FFFFu128,
{
}

} // verus!
