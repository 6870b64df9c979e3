//! The order of timestamps: that of their seconds.

use vstd::prelude::*;
use std::cmp::Ordering;
use vstd::std_specs::cmp::PartialOrdSpecImpl;
use crate::timestamp::Timestamp;

verus! {

impl PartialOrd for Timestamp {
    /// Compares two timestamps by their seconds.
    fn partial_cmp(&self, other: &Timestamp) -> (r: Option<Ordering>) {
        if self.0 < other.0 {
            Some(Ordering::Less)
        } else if self.0 == other.0 {
            Some(Ordering::Equal)
        } else {
            Some(Ordering::Greater)
        }
    }
}

impl PartialOrdSpecImpl for Timestamp {
    open spec fn obeys_partial_cmp_spec() -> bool {
        true
    }

    /// The earlier timestamp is the lesser; two of the same second are equal.
    open spec fn partial_cmp_spec(&self, other: &Timestamp) -> Option<Ordering> {
        if self.0 < other.0 {
            Some(Ordering::Less)
        } else if self.0 == other.0 {
            Some(Ordering::Equal)
        } else {
            Some(Ordering::Greater)
        }
    }
}

} // verus!
