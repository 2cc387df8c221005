use vstd::prelude::*;

verus! {

/// The error returned by a readiness check when the limit has been reached.
#[derive(Debug, Default, Clone, Copy)]
pub struct RateLimitError(pub ());

impl RateLimitError {
    /// The text that describes this error.
    pub fn message(&self) -> (r: &'static str)
        ensures
            r@ == "Rate limited"@,
    {
        "Rate limited"
    }
}

} // verus!
