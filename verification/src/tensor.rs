//! Dynamic-rank numeric arrays as they cross the inference-engine boundary.

use vstd::prelude::*;

verus! {

/// A packed multi-dimensional array: a shape and a flat payload. The core
/// reads and writes payloads one byte per element (the quantized pixel
/// domain); recurrent tensors and the downsample-ratio scalar are carried
/// through opaquely, so their payload encoding is the engine adapter's
/// concern.
#[derive(Debug, PartialEq, Eq)]
pub struct Tensor {
    pub shape: Vec<usize>,
    pub data: Vec<u8>,
}

/// The mathematical value of a `Tensor`.
pub struct TensorView {
    pub shape: Seq<usize>,
    pub data: Seq<u8>,
}

impl View for Tensor {
    type V = TensorView;

    open spec fn view(&self) -> TensorView {
        TensorView { shape: self.shape@, data: self.data@ }
    }
}

impl Tensor {
    /// A fresh tensor holding the same shape and the same payload.
    pub fn duplicate(&self) -> (t: Tensor)
        ensures
            t@ == self@,
    {
        let mut shape: Vec<usize> = Vec::new();
        let mut i: usize = 0;
        while i < self.shape.len()
            invariant
                i <= self.shape.len(),
                shape@ == self.shape@.subrange(0, i as int),
            decreases self.shape.len() - i,
        {
            shape.push(self.shape[i]);
            assert(shape@ =~= self.shape@.subrange(0, i + 1));
            i = i + 1;
        }
        assert(shape@ =~= self.shape@);
        let mut data: Vec<u8> = Vec::new();
        let mut j: usize = 0;
        while j < self.data.len()
            invariant
                j <= self.data.len(),
                data@ == self.data@.subrange(0, j as int),
            decreases self.data.len() - j,
        {
            data.push(self.data[j]);
            assert(data@ =~= self.data@.subrange(0, j + 1));
            j = j + 1;
        }
        assert(data@ =~= self.data@);
        Tensor { shape, data }
    }

    /// The 1x1x1x1 zero tensor that seeds each recurrent channel.
    pub fn zero_scalar() -> (t: Tensor)
        ensures
            t@.shape =~= seq![1usize, 1usize, 1usize, 1usize],
            t@.data =~= seq![0u8],
    {
        let mut shape: Vec<usize> = Vec::new();
        shape.push(1);
        shape.push(1);
        shape.push(1);
        shape.push(1);
        let mut data: Vec<u8> = Vec::new();
        data.push(0);
        Tensor { shape, data }
    }
}

} // verus!
