use vstd::prelude::*;

use crate::can::frame::CanId;

verus! {

/// Filter for CAN frame acceptance.
#[derive(Debug)]
pub enum CanFilter {
    /// Accept all frames.
    AcceptAll,
    /// Accept only frames with this exact ID.
    Exact(CanId),
    /// Accept frames with IDs in [low, high] inclusive.
    Range { low: CanId, high: CanId },
    /// Accept frames where (id & mask) == filter.
    Mask { filter: u16, mask: u16 },
    /// Accept frames matching any of these filters.
    Any(Vec<CanFilter>),
}

impl CanFilter {
    /// Whether the filter lets a frame with identifier `id` through.
    pub open spec fn accepts(self, id: CanId) -> bool
        decreases self,
    {
        match self {
            CanFilter::AcceptAll => true,
            CanFilter::Exact(target) => id == target,
            CanFilter::Range { low, high } => low.value() <= id.value() && id.value()
                <= high.value(),
            CanFilter::Mask { filter, mask } => (id.value() & mask) == filter,
            CanFilter::Any(filters) => exists|i: int|
                0 <= i < filters@.len() && (#[trigger] filters@[i]).accepts(id),
        }
    }

    #[verifier::loop_isolation(false)]
    pub fn matches(&self, id: CanId) -> (r: bool)
        ensures
            r == self.accepts(id),
        decreases self,
    {
        match self {
            CanFilter::AcceptAll => true,
            CanFilter::Exact(target) => id == *target,
            CanFilter::Range { low, high } => low.raw() <= id.raw() && id.raw() <= high.raw(),
            CanFilter::Mask { filter, mask } => (id.raw() & *mask) == *filter,
            CanFilter::Any(filters) => {
                let mut i: usize = 0;
                while i < filters.len()
                    invariant
                        i <= filters@.len(),
                        forall|j: int| 0 <= j < i ==> !(#[trigger] filters@[j]).accepts(id),
                    decreases filters@.len() - i,
                {
                    proof {
                        assert(decreases_to!(*self => *filters));
                        assert(decreases_to!(*filters => filters@));
                        assert(decreases_to!(filters@ => filters@[i as int]));
                        assert(decreases_to!(*self => filters@[i as int]));
                    }
                    if filters[i].matches(id) {
                        return true;
                    }
                    i = i + 1;
                }
                false
            },
        }
    }
}

impl Clone for CanFilter {
    /// A filter that lets through exactly the identifiers this one does.
    #[verifier::loop_isolation(false)]
    fn clone(&self) -> (c: Self)
        ensures
            forall|id: CanId| #[trigger] c.accepts(id) == self.accepts(id),
        decreases self,
    {
        match self {
            CanFilter::AcceptAll => CanFilter::AcceptAll,
            CanFilter::Exact(target) => CanFilter::Exact(*target),
            CanFilter::Range { low, high } => CanFilter::Range { low: *low, high: *high },
            CanFilter::Mask { filter, mask } => CanFilter::Mask { filter: *filter, mask: *mask },
            CanFilter::Any(filters) => {
                let mut copies: Vec<CanFilter> = Vec::new();
                let mut i: usize = 0;
                while i < filters.len()
                    invariant
                        i <= filters@.len(),
                        copies@.len() == i,
                        forall|j: int, id: CanId|
                            0 <= j < i ==> #[trigger] copies@[j].accepts(id) == filters@[j].accepts(id),
                    decreases filters@.len() - i,
                {
                    proof {
                        assert(decreases_to!(*self => *filters));
                        assert(decreases_to!(*filters => filters@));
                        assert(decreases_to!(filters@ => filters@[i as int]));
                        assert(decreases_to!(*self => filters@[i as int]));
                    }
                    let c = filters[i].clone();
                    copies.push(c);
                    i = i + 1;
                }
                let result = CanFilter::Any(copies);
                assert forall|id: CanId| #[trigger] result.accepts(id) == self.accepts(id) by {
                    if result.accepts(id) {
                        let j = choose|j: int| 0 <= j < copies@.len() && (#[trigger] copies@[j]).accepts(id);
                        assert(filters@[j].accepts(id));
                    }
                    if self.accepts(id) {
                        let j = choose|j: int| 0 <= j < filters@.len() && (#[trigger] filters@[j]).accepts(id);
                        assert(copies@[j].accepts(id));
                    }
                }
                result
            },
        }
    }
}


/// What each kind of filter lets through: everything; exactly its own
/// identifier; every identifier between its bounds, both included; an
/// identifier whose masked bits equal the filter value; and whatever one of
/// its member filters lets through.
pub proof fn law_filter_acceptance(
    id: CanId,
    other: CanId,
    low: CanId,
    high: CanId,
    mask: u16,
    filters: Vec<CanFilter>,
)
    ensures
        CanFilter::AcceptAll.accepts(id),
        CanFilter::Exact(other).accepts(id) <==> id.value() == other.value(),
        CanFilter::Exact(id).accepts(id),
        low.value() <= high.value() ==> (CanFilter::Range { low, high }).accepts(low),
        low.value() <= high.value() ==> (CanFilter::Range { low, high }).accepts(high),
        (CanFilter::Range { low, high }).accepts(id) <==> (low.value() <= id.value()
            && id.value() <= high.value()),
        (CanFilter::Mask { filter: id.value() & mask, mask }).accepts(id),
        (CanFilter::Mask { filter: 0, mask: 0 }).accepts(id),
        forall|filter: u16|
            #![trigger (CanFilter::Mask { filter, mask }).accepts(id)]
            (CanFilter::Mask { filter, mask }).accepts(id) ==> filter == (id.value() & mask),
        forall|i: int|
            0 <= i < filters@.len() && (#[trigger] filters@[i]).accepts(id) ==> (CanFilter::Any(
                filters,
            )).accepts(id),
{
    crate::can::frame::law_id_determined_by_value(id, other);
    let v = id.value();
    assert(v & 0 == 0) by (bit_vector);
    assert forall|i: int|
        0 <= i < filters@.len() && (#[trigger] filters@[i]).accepts(id) implies (CanFilter::Any(
            filters,
        )).accepts(id) by {
        let any = CanFilter::Any(filters);
        assert(any matches CanFilter::Any(fs) && fs@[i].accepts(id));
    }
}

} // verus!
