use vstd::prelude::*;

verus! {

#[derive(Debug, Clone, Copy, PartialEq, Eq, Structural)]
pub enum Gear {
    Park,
    Reverse,
    Neutral,
    Drive,
}

/// The letter a gear is shown as.
pub open spec fn gear_symbol(g: Gear) -> &'static str {
    match g {
        Gear::Park => "P",
        Gear::Reverse => "R",
        Gear::Neutral => "N",
        Gear::Drive => "D",
    }
}

impl Gear {
    /// The letter the gear is shown as, e.g. `D`.
    pub fn symbol(&self) -> (s: &'static str)
        ensures
            s == gear_symbol(*self),
    {
        match self {
            Gear::Park => "P",
            Gear::Reverse => "R",
            Gear::Neutral => "N",
            Gear::Drive => "D",
        }
    }
}

} // verus!
