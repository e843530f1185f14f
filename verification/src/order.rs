//! Ordering of `Country` values by numeric code.

use vstd::prelude::*;

use crate::country::{spec_numeric, Country};

verus! {

impl PartialOrd for Country {
    fn partial_cmp(&self, other: &Country) -> (r: Option<core::cmp::Ordering>) {
        let a = self.numeric();
        let b = other.numeric();
        if a < b {
            Some(core::cmp::Ordering::Less)
        } else if a == b {
            Some(core::cmp::Ordering::Equal)
        } else {
            Some(core::cmp::Ordering::Greater)
        }
    }
}

impl vstd::std_specs::cmp::PartialOrdSpecImpl for Country {
    open spec fn obeys_partial_cmp_spec() -> bool {
        true
    }

    open spec fn partial_cmp_spec(&self, other: &Country) -> Option<core::cmp::Ordering> {
        if spec_numeric(*self) < spec_numeric(*other) {
            Some(core::cmp::Ordering::Less)
        } else if spec_numeric(*self) == spec_numeric(*other) {
            Some(core::cmp::Ordering::Equal)
        } else {
            Some(core::cmp::Ordering::Greater)
        }
    }
}

} // verus!
