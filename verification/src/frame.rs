//! Pixel buffers as the frame adapter hands them to the filters: a single
//! plane of interleaved 8-bit channels, rows stored top to bottom.

use vstd::prelude::*;

verus! {

/// A two-dimensional pixel buffer with `channels` interleaved bytes per pixel.
/// Pixel `(y, x)` starts at byte `(y * width + x) * channels` of `data`.
#[derive(Debug, PartialEq, Eq)]
pub struct Frame {
    pub width: usize,
    pub height: usize,
    pub channels: usize,
    pub data: Vec<u8>,
}

/// The mathematical value of a `Frame`: its dimensions and byte contents.
pub struct FrameView {
    pub width: usize,
    pub height: usize,
    pub channels: usize,
    pub data: Seq<u8>,
}

impl View for Frame {
    type V = FrameView;

    open spec fn view(&self) -> FrameView {
        FrameView {
            width: self.width,
            height: self.height,
            channels: self.channels,
            data: self.data@,
        }
    }
}

impl Frame {
    /// The buffer holds exactly one byte per channel of every pixel.
    pub open spec fn wf(self) -> bool {
        self.channels >= 1 && self.data.len() == self.width * self.height * self.channels
    }

    /// Number of pixels in the frame.
    pub open spec fn pixel_count(self) -> int {
        self.width * self.height
    }

    /// Channel `c` of the pixel at row-major position `p`.
    pub open spec fn px(self, p: int, c: int) -> u8 {
        self.data@[p * self.channels + c]
    }

    /// Equal width, height and channel count.
    pub open spec fn same_shape(self, other: Frame) -> bool {
        self.width == other.width && self.height == other.height && self.channels == other.channels
    }

    /// Equal width and height, whatever the channel counts.
    pub open spec fn same_shape_spatial(self, other: Frame) -> bool {
        self.width == other.width && self.height == other.height
    }

    /// A well-formed frame with every byte set to `fill`.
    pub fn new(width: usize, height: usize, channels: usize, fill: u8) -> (f: Frame)
        requires
            1 <= channels,
            width * height * channels <= usize::MAX,
        ensures
            f.wf(),
            f.width == width,
            f.height == height,
            f.channels == channels,
            forall|i: int| 0 <= i < f.data.len() ==> f.data@[i] == fill,
    {
        proof {
            lemma_frame_len_parts(width as int, height as int, channels as int);
        }
        let wh: usize = width * height;
        let len: usize = wh * channels;
        let mut data: Vec<u8> = Vec::new();
        let mut i: usize = 0;
        while i < len
            invariant
                i <= len,
                data.len() == i,
                forall|j: int| 0 <= j < i ==> data@[j] == fill,
            decreases len - i,
        {
            data.push(fill);
            i = i + 1;
        }
        Frame { width, height, channels, data }
    }

    /// A fresh frame holding the same dimensions and the same bytes.
    pub fn duplicate(&self) -> (f: Frame)
        ensures
            f@ == self@,
    {
        let mut data: Vec<u8> = Vec::new();
        let mut i: usize = 0;
        while i < self.data.len()
            invariant
                i <= self.data.len(),
                data@ == self.data@.subrange(0, i as int),
            decreases self.data.len() - i,
        {
            data.push(self.data[i]);
            assert(data@ =~= self.data@.subrange(0, i + 1));
            i = i + 1;
        }
        assert(data@ =~= self.data@);
        Frame { width: self.width, height: self.height, channels: self.channels, data }
    }
}

/// The partial products of a frame's length bound stay within that bound.
pub proof fn lemma_frame_len_parts(w: int, h: int, ch: int)
    requires
        0 <= w,
        0 <= h,
        1 <= ch,
    ensures
        w * h <= w * h * ch,
        w * h * ch == (w * h) * ch,
{
    assert(w * h <= w * h * ch && w * h * ch == (w * h) * ch) by (nonlinear_arith)
        requires
            0 <= w,
            0 <= h,
            1 <= ch,
    ;
}

/// A channel index below `ch` at a pixel position below `wh` addresses a byte
/// below `wh * ch`.
pub proof fn lemma_px_index(wh: int, ch: int, p: int, c: int)
    requires
        0 <= p < wh,
        0 <= c < ch,
    ensures
        0 <= p * ch + c < wh * ch,
{
    assert(0 <= p * ch + c < wh * ch) by (nonlinear_arith)
        requires
            0 <= p < wh,
            0 <= c < ch,
    ;
}

} // verus!
