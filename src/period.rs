//! Buffer periods and the choice of a period within a device's bounds.
use vstd::prelude::*;

verus! {

/// The frame counts that a device's buffer can be sized to.
#[derive(Clone, Copy, Debug, Default, PartialEq, Eq, Structural)]
pub struct Period {
    pub default: usize,
    pub min: usize,
    pub max: usize,
}

impl Period {
    /// The bounds are ordered: `min <= default <= max`.
    pub open spec fn wf(&self) -> bool {
        self.min <= self.default <= self.max
    }

    /// The period within the bounds that lies nearest to `n`.
    pub open spec fn spec_clamp(&self, n: usize) -> usize {
        if n < self.min {
            self.min
        } else if n > self.max {
            self.max
        } else {
            n
        }
    }

    /// Whether the bounds are ordered.
    pub fn is_valid(&self) -> (r: bool)
        ensures
            r == self.wf(),
    {
        self.min <= self.default && self.default <= self.max
    }

    /// Whether `n` frames is a period within the bounds.
    pub fn contains(&self, n: usize) -> (r: bool)
        ensures
            r == (self.min <= n <= self.max),
    {
        self.min <= n && n <= self.max
    }

    /// The period nearest to the requested `n` that the bounds allow: a
    /// request below `min` gives `min`, one above `max` gives `max`.
    pub fn clamp(&self, n: usize) -> (r: usize)
        requires
            self.min <= self.max,
        ensures
            r == self.spec_clamp(n),
            self.min <= r <= self.max,
    {
        if n < self.min {
            self.min
        } else if n > self.max {
            self.max
        } else {
            n
        }
    }

    /// The period that a request asks for: the default where none is
    /// given, else the request clamped to the bounds.
    pub fn choose_period(&self, requested: Option<usize>) -> (r: usize)
        requires
            self.min <= self.max,
        ensures
            match requested {
                Some(n) => r == self.spec_clamp(n),
                None => r == self.default,
            },
    {
        match requested {
            Some(n) => self.clamp(n),
            None => self.default,
        }
    }
}

} // verus!
