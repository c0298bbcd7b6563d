//! Layer identifiers: opaque, monotonically increasing integers.
//!
//! The base value is 0; a store hands out `last + 1` for each new layer, so
//! identifiers within one store strictly increase and are never reused.

use vstd::prelude::*;

verus! {

/// An opaque layer identifier.
#[derive(Copy, Clone, Debug, Eq, Ord, PartialEq, PartialOrd, Hash, Structural)]
pub struct LayerId(i32);

impl LayerId {
    /// The identifier's numeric value.
    pub closed spec fn id_spec(self) -> int {
        self.0 as int
    }

    /// The base identifier, value 0.
    pub fn new() -> (r: LayerId)
        ensures
            r.id_spec() == 0,
    {
        LayerId(0)
    }

    /// Builds the identifier with the given value.
    pub fn from_id(v: i32) -> (r: LayerId)
        ensures
            r.id_spec() == v as int,
    {
        LayerId(v)
    }

    /// The identifier's numeric value.
    pub fn get_id(&self) -> (r: i32)
        ensures
            r as int == self.id_spec(),
    {
        self.0
    }
}

impl Default for LayerId {
    /// The base identifier.
    fn default() -> (r: Self)
        ensures
            r.id_spec() == 0,
    {
        LayerId::new()
    }
}

/// The identifier that follows `last`.
pub fn new_id(last: i32) -> (r: i32)
    requires
        last < i32::MAX,
    ensures
        r == last + 1,
{
    last + 1
}

} // verus!
