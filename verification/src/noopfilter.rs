//! This filter does absolutely nothing to the data and is used as a fallback
//! by the surrounding pipeline when no matting backend is configured or
//! available.

use crate::filter::{Filter, FilterError};
use crate::frame::Frame;
use vstd::prelude::*;

verus! {

/// The identity transform: always succeeds, never touches a byte.
#[derive(Debug)]
pub struct NoopFilter {}

impl Default for NoopFilter {
    fn default() -> (s: Self)
        ensures
            s == (NoopFilter {  }),
    {
        NoopFilter {  }
    }
}

impl Filter for NoopFilter {
    fn filter_inplace(&mut self, src_image: &mut Frame, bg_image: &Frame) -> (r: Result<
        (),
        FilterError,
    >)
        ensures
            r is Ok,
            final(src_image)@ == old(src_image)@,
            *final(self) == *old(self),
    {
        Ok(())
    }
}

} // verus!
