//! The order of CAN identifiers: a lower identifier has higher priority on
//! the bus and sorts first.
use std::cmp::Ordering;
use vstd::prelude::*;
use vstd::std_specs::cmp::PartialOrdSpecImpl;

use crate::can::frame::{law_id_determined_by_value, CanId};

verus! {

/// How two identifiers compare: by their raw values.
pub open spec fn id_order(a: CanId, b: CanId) -> Ordering {
    if a.value() < b.value() {
        Ordering::Less
    } else if a.value() == b.value() {
        Ordering::Equal
    } else {
        Ordering::Greater
    }
}

impl PartialOrd for CanId {
    fn partial_cmp(&self, other: &CanId) -> (r: Option<Ordering>) {
        let a = self.raw();
        let b = other.raw();
        if a < b {
            Some(Ordering::Less)
        } else if a == b {
            Some(Ordering::Equal)
        } else {
            Some(Ordering::Greater)
        }
    }
}

impl PartialOrdSpecImpl for CanId {
    open spec fn obeys_partial_cmp_spec() -> bool {
        true
    }

    open spec fn partial_cmp_spec(&self, other: &CanId) -> Option<Ordering> {
        Some(id_order(*self, *other))
    }
}

/// Lower identifier, higher priority: one identifier sorts before another
/// exactly when its raw value is lower, and they compare equal exactly when
/// they are the same identifier.
pub proof fn law_lower_id_sorts_first(a: CanId, b: CanId)
    ensures
        (id_order(a, b) == Ordering::Less) <==> a.value() < b.value(),
        (id_order(a, b) == Ordering::Greater) <==> b.value() < a.value(),
        (id_order(a, b) == Ordering::Equal) <==> a == b,
{
    law_id_determined_by_value(a, b);
}

} // verus!
