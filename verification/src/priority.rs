//! The priority attributes of a clock's data set (`priority1`, `priority2`): a lower value ranks
//! better.
use core::cmp::Ordering;
use vstd::prelude::*;

verus! {

/// The order of two raw priority values.
pub open spec fn priority_order(a: u8, b: u8) -> Ordering {
    if a < b {
        Ordering::Less
    } else if a == b {
        Ordering::Equal
    } else {
        Ordering::Greater
    }
}

/// `defaultDS.priority1` as defined in IEEE 1588-2019.
#[derive(Clone, Copy, Debug, PartialEq, Eq, Ord, Structural)]
pub struct Priority1(pub u8);

impl Priority1 {
    /// Create a new `Priority1` from a raw value.
    pub fn new(value: u8) -> (p: Priority1)
        ensures
            p.0 == value,
    {
        Priority1(value)
    }

    /// The raw value.
    pub fn as_u8(&self) -> (v: u8)
        ensures
            v == self.0,
    {
        self.0
    }
}

impl From<u8> for Priority1 {
    fn from(value: u8) -> (p: Priority1) {
        Priority1(value)
    }
}

impl vstd::std_specs::convert::FromSpecImpl<u8> for Priority1 {
    open spec fn obeys_from_spec() -> bool {
        true
    }

    open spec fn from_spec(value: u8) -> Priority1 {
        Priority1(value)
    }
}

/// Priorities are ordered by their raw values.
impl PartialOrd for Priority1 {
    fn partial_cmp(&self, other: &Priority1) -> (r: Option<Ordering>) {
        if self.0 < other.0 {
            Some(Ordering::Less)
        } else if self.0 == other.0 {
            Some(Ordering::Equal)
        } else {
            Some(Ordering::Greater)
        }
    }
}

impl vstd::std_specs::cmp::PartialOrdSpecImpl for Priority1 {
    open spec fn obeys_partial_cmp_spec() -> bool {
        true
    }

    open spec fn partial_cmp_spec(&self, other: &Priority1) -> Option<Ordering> {
        Some(priority_order(self.0, other.0))
    }
}

/// `defaultDS.priority2` as defined in IEEE 1588-2019.
#[derive(Clone, Copy, Debug, PartialEq, Eq, Ord, Structural)]
pub struct Priority2(pub u8);

impl Priority2 {
    /// Create a new `Priority2` from a raw value.
    pub fn new(value: u8) -> (p: Priority2)
        ensures
            p.0 == value,
    {
        Priority2(value)
    }

    /// The raw value.
    pub fn as_u8(&self) -> (v: u8)
        ensures
            v == self.0,
    {
        self.0
    }
}

impl From<u8> for Priority2 {
    fn from(value: u8) -> (p: Priority2) {
        Priority2(value)
    }
}

impl vstd::std_specs::convert::FromSpecImpl<u8> for Priority2 {
    open spec fn obeys_from_spec() -> bool {
        true
    }

    open spec fn from_spec(value: u8) -> Priority2 {
        Priority2(value)
    }
}

/// Priorities are ordered by their raw values.
impl PartialOrd for Priority2 {
    fn partial_cmp(&self, other: &Priority2) -> (r: Option<Ordering>) {
        if self.0 < other.0 {
            Some(Ordering::Less)
        } else if self.0 == other.0 {
            Some(Ordering::Equal)
        } else {
            Some(Ordering::Greater)
        }
    }
}

impl vstd::std_specs::cmp::PartialOrdSpecImpl for Priority2 {
    open spec fn obeys_partial_cmp_spec() -> bool {
        true
    }

    open spec fn partial_cmp_spec(&self, other: &Priority2) -> Option<Ordering> {
        Some(priority_order(self.0, other.0))
    }
}

} // verus!
