use vstd::prelude::*;

verus! {

/// A rate of requests per time period: at most `num` requests in each
/// period of `per` milliseconds.
#[derive(Debug, Copy, Clone, PartialEq, Eq, Structural)]
pub struct Rate {
    num: usize,
    per: u64,
}

impl Rate {
    /// Both parts of a rate are strictly positive.
    pub open spec fn wf(self) -> bool {
        self.count() > 0 && self.period() > 0
    }

    /// The number of requests admitted in one period.
    pub closed spec fn count(self) -> nat {
        self.num as nat
    }

    /// The length of one period, in milliseconds.
    pub closed spec fn period(self) -> nat {
        self.per as nat
    }

    /// Create a new rate of `num` requests per `per` milliseconds.
    ///
    /// Neither may be zero.
    pub fn new(num: usize, per: u64) -> (r: Rate)
        requires
            num > 0,
            per > 0,
        ensures
            r.wf(),
            r.count() == num,
            r.period() == per,
    {
        Rate { num, per }
    }

    /// The number of requests admitted in one period.
    pub fn num(&self) -> (r: usize)
        ensures
            r == self.count(),
    {
        self.num
    }

    /// The length of one period, in milliseconds.
    pub fn per(&self) -> (r: u64)
        ensures
            r == self.period(),
    {
        self.per
    }
}

} // verus!
