use vstd::prelude::*;

verus! {

/// The stages of Holt's linear trend smoother.
///
/// The recurrence needs two observations before it can estimate a trend, so a
/// smoother starts `Fresh`, keeps its first sample as `Seeded`, and from the
/// second sample on is `Running` with a level and a trend estimate. A stage
/// only ever moves forward.
#[derive(Clone, Copy, Debug)]
pub enum Stage<T> {
    Fresh,
    Seeded { seed: T },
    Running { level: T, trend: T },
}

impl<T: Copy> Stage<T> {
    /// How far the smoother has come: 0, 1 or 2.
    pub open spec fn rank(&self) -> nat {
        match self {
            Stage::Fresh => 0,
            Stage::Seeded { .. } => 1,
            Stage::Running { .. } => 2,
        }
    }

    /// The level estimate, once the smoother is running.
    pub open spec fn level_of(&self) -> Option<T> {
        match self {
            Stage::Running { level, .. } => Some(*level),
            _ => None,
        }
    }

    /// The trend estimate, once the smoother is running.
    pub open spec fn trend_of(&self) -> Option<T> {
        match self {
            Stage::Running { trend, .. } => Some(*trend),
            _ => None,
        }
    }

    /// A smoother that has seen no sample.
    pub fn new() -> (r: Self)
        ensures
            r is Fresh,
            r.level_of() is None,
            r.trend_of() is None,
    {
        Stage::Fresh
    }

    /// The current level estimate; `None` until the second sample.
    pub fn level(&self) -> (r: Option<T>)
        ensures
            r == self.level_of(),
    {
        match self {
            Stage::Running { level, .. } => Some(*level),
            _ => None,
        }
    }

    /// The current trend estimate; `None` until the second sample.
    pub fn trend(&self) -> (r: Option<T>)
        ensures
            r == self.trend_of(),
    {
        match self {
            Stage::Running { trend, .. } => Some(*trend),
            _ => None,
        }
    }

    /// Whether the smoother has a level and a trend estimate.
    pub fn is_running(&self) -> (r: bool)
        ensures
            r == (self is Running),
            r == (self.rank() == 2),
    {
        match self {
            Stage::Running { .. } => true,
            _ => false,
        }
    }

    /// Keeps the first sample, which the smoother passes on unchanged.
    /// No estimate is available yet afterwards.
    pub fn seed(&mut self, v: T)
        requires
            *old(self) is Fresh,
        ensures
            *final(self) == (Stage::Seeded { seed: v }),
            final(self).rank() == old(self).rank() + 1,
            final(self).level_of() is None,
            final(self).trend_of() is None,
    {
        *self = Stage::Seeded { seed: v };
    }

    /// Stores the estimates computed from the next sample. Both are available
    /// from then on.
    pub fn advance(&mut self, level: T, trend: T)
        requires
            !(*old(self) is Fresh),
        ensures
            *final(self) == (Stage::Running { level, trend }),
            final(self).rank() >= old(self).rank(),
            final(self).level_of() == Some(level),
            final(self).trend_of() == Some(trend),
    {
        *self = Stage::Running { level, trend };
    }
}

} // verus!
