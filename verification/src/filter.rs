//! The capability every background-replacement algorithm implements, and the
//! errors such an algorithm can report.

use crate::frame::Frame;
use vstd::prelude::*;

verus! {

/// How a filtering call can fail.
#[derive(Clone, Copy, Debug, PartialEq, Eq, Structural)]
pub enum FilterError {
    /// The source and background frames disagree in shape, or a frame does
    /// not have the channel layout the filter needs. Detected before any
    /// mutation.
    ValidationError,
    /// The inference backend failed to load, run, or returned tensors whose
    /// shapes cannot be read back into pixel buffers.
    BackendError,
    /// The inference backend broke its arity contract: it returned a number
    /// of outputs other than the six the loaded model promises.
    LogicError,
}

impl FilterError {
    /// A short description of the error, for the surrounding pipeline's logs.
    pub fn describe(&self) -> &'static str {
        match self {
            FilterError::ValidationError => "source and background frames have mismatched shapes",
            FilterError::BackendError => "the inference backend failed",
            FilterError::LogicError => "the inference backend broke its output-arity contract",
        }
    }
}

/// A background-replacement algorithm: it rewrites a source frame in place,
/// given an immutable background frame of the same shape.
pub trait Filter {
    /// Mutate `src_image` into the composited result. On an error the source
    /// frame is left exactly as it was: every implementation validates in
    /// full before its first write.
    fn filter_inplace(&mut self, src_image: &mut Frame, bg_image: &Frame) -> (r: Result<
        (),
        FilterError,
    >)
        requires
            old(src_image).wf(),
            bg_image.wf(),
        ensures
            r is Ok ==> final(src_image).wf() && final(src_image).same_shape(*old(src_image)),
            r is Err ==> final(src_image)@ == old(src_image)@,
    ;

    /// Filter a copy of `src_image` and return it; `src_image` itself is
    /// never touched.
    fn filter(&mut self, src_image: &Frame, bg_image: &Frame) -> (r: Result<Frame, FilterError>)
        requires
            src_image.wf(),
            bg_image.wf(),
        ensures
            r is Ok ==> r->Ok_0.wf() && r->Ok_0.same_shape(*src_image),
    {
        let mut mod_image = src_image.duplicate();
        match self.filter_inplace(&mut mod_image, bg_image) {
            Ok(()) => Ok(mod_image),
            Err(e) => Err(e),
        }
    }
}

} // verus!
