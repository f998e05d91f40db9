//! The time units in which a rate can be given.

use vstd::prelude::*;

verus! {

/// The unit of time that an average rate counts tokens per.
pub enum RateUnit {
    Seconds,
    Minutes,
}

impl RateUnit {
    /// The length of the unit in milliseconds.
    pub open spec fn millis(self) -> int {
        match self {
            RateUnit::Seconds => 1000,
            RateUnit::Minutes => 60000,
        }
    }

    /// Milliseconds per unit: the conversion factor of a bucket whose rate is
    /// given in this unit.
    pub fn get_rate_to_conversion(&self) -> (factor: i32)
        ensures
            factor == self.millis(),
    {
        match self {
            RateUnit::Seconds => 1000,
            RateUnit::Minutes => 60 * 1000,
        }
    }
}

} // verus!
