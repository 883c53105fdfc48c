//! Completion progress of a task, kept as a fixed-point fraction so that
//! every value the queue ever holds or reports lies inside [0, 1].

use vstd::prelude::*;

verus! {

/// Number of progress units that stand for a fully completed task.
/// A `Progress` of `u` units denotes the fraction `u / PROGRESS_SCALE`.
pub const PROGRESS_SCALE: u32 = 1000000;

/// Completion fraction of a task, scaled by [`PROGRESS_SCALE`].
/// Every value of this type lies within [0, `PROGRESS_SCALE`].
#[derive(Debug, Clone, Copy, PartialEq, Eq, Structural)]
pub struct Progress {
    units: u32,
}

impl View for Progress {
    type V = int;

    closed spec fn view(&self) -> int {
        self.units as int
    }
}

impl Progress {
    /// Every progress value that can exist denotes a fraction in [0, 1]:
    /// its unit count never leaves [0, `PROGRESS_SCALE`].
    #[verifier::type_invariant]
    pub open spec fn in_range(self) -> bool {
        0 <= self@ <= PROGRESS_SCALE
    }

    /// No progress at all.
    pub fn zero() -> (r: Self)
        ensures
            r@ == 0,
    {
        Progress { units: 0 }
    }

    /// Progress of exactly `units / PROGRESS_SCALE`.
    pub fn new(units: u32) -> (r: Self)
        requires
            units <= PROGRESS_SCALE,
        ensures
            r@ == units,
    {
        Progress { units }
    }

    /// Progress from an unchecked unit count, clamped into range; an updater
    /// reporting more than complete is observed as exactly complete.
    pub fn from_units(units: u32) -> (r: Self)
        ensures
            r@ == if units <= PROGRESS_SCALE { units as int } else { PROGRESS_SCALE as int },
    {
        if units <= PROGRESS_SCALE {
            Progress { units }
        } else {
            Progress { units: PROGRESS_SCALE }
        }
    }

    /// The unit count; always within [0, `PROGRESS_SCALE`].
    pub fn units(&self) -> (u: u32)
        ensures
            u == self@,
            u <= PROGRESS_SCALE,
    {
        proof {
            use_type_invariant(self);
        }
        self.units
    }
}

} // verus!
