//! Client for company fundamentals.
use vstd::prelude::*;

verus! {

/// Client for the fundamentals of listed companies.
#[derive(Debug, Clone, Copy, PartialEq, Eq, Structural)]
pub struct YFinanceClient {}

impl YFinanceClient {
    pub fn new() -> (r: Self)
        ensures
            r == (YFinanceClient {}),
    {
        YFinanceClient {}
    }
}

} // verus!
