//! Identity: a province, an area and a region are what their identifiers
//! say. Two values with the same identifier are the same unit, whatever
//! else they hold.
use vstd::prelude::*;
use vstd::std_specs::cmp::PartialEqSpecImpl;
use crate::map::{Area, Province, Region};

verus! {

impl PartialEq for Province {
    /// Whether two provinces have the same identifier.
    fn eq(&self, other: &Province) -> (same: bool) {
        self.id == other.id
    }
}

impl PartialEqSpecImpl for Province {
    open spec fn obeys_eq_spec() -> bool {
        true
    }

    open spec fn eq_spec(&self, other: &Province) -> bool {
        self.id == other.id
    }
}

impl Eq for Province {

}

impl PartialEq for Area {
    /// Whether two areas have the same identifier.
    fn eq(&self, other: &Area) -> (same: bool) {
        self.id == other.id
    }
}

impl PartialEqSpecImpl for Area {
    open spec fn obeys_eq_spec() -> bool {
        true
    }

    open spec fn eq_spec(&self, other: &Area) -> bool {
        self.id@ == other.id@
    }
}

impl Eq for Area {

}

impl PartialEq for Region {
    /// Whether two regions have the same identifier.
    fn eq(&self, other: &Region) -> (same: bool) {
        self.id == other.id
    }
}

impl PartialEqSpecImpl for Region {
    open spec fn obeys_eq_spec() -> bool {
        true
    }

    open spec fn eq_spec(&self, other: &Region) -> bool {
        self.id@ == other.id@
    }
}

impl Eq for Region {

}

} // verus!
