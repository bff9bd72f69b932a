//! Per-document storm-sewer state: the analysis parameters of one drawing tab.

use vstd::prelude::*;

verus! {

/// The state kept for one drawing tab; `P` is the analysis parameter set.
pub struct StormTabState<P> {
    pub params: P,
}

impl<P> StormTabState<P> {
    pub fn new(params: P) -> (r: Self)
        ensures
            r.params == params,
    {
        StormTabState { params }
    }

    pub fn params(&self) -> (r: &P)
        ensures
            *r == self.params,
    {
        &self.params
    }

    pub fn params_mut(&mut self) -> (r: &mut P)
        ensures
            *r == old(self).params,
            final(self).params == *final(r),
    {
        &mut self.params
    }
}

} // verus!
