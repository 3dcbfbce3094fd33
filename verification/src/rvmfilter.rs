//! The robust-video-matting filter: the stateful neural implementation of
//! `Filter`. Each call validates the frames, repacks the source frame as a
//! CHW tensor, hands six positional inputs to the inference engine, reads
//! the foreground and alpha outputs back into pixel layout, composites them
//! over the background, and commits the four recurrent tensors the engine
//! returned — atomically, and only on full success.

use crate::filter::{Filter, FilterError};
use crate::filtertools::{apply_mask, blend, mask_compatible};
use crate::frame::{lemma_frame_len_parts, lemma_px_index, Frame};
use crate::tensor::{Tensor, TensorView};
use vstd::prelude::*;

verus! {

/// A loaded inference session: the one collaborator the filter consumes.
/// `run` is synchronous and blocking; the filter treats input and output
/// arity and shapes as a fixed contract with the loaded model and never
/// introspects the engine itself, so neither method carries a contract here
/// — the filter states what holds of its own behavior whatever the engine
/// returns.
pub trait InferenceEngine: Sized {
    /// Load and initialize the model stored at `model_path`.
    fn load(model_path: &str) -> Result<Self, EngineFault>;

    /// One inference pass over positionally ordered inputs.
    fn run(&mut self, inputs: &Vec<Tensor>) -> Result<Vec<Tensor>, EngineFault>;
}

/// A failure inside the inference backend, opaque to the filter.
#[derive(Clone, Copy, Debug, PartialEq, Eq, Structural)]
pub struct EngineFault {}

/// Properties of the specific trained model, fixed at construction rather
/// than hardcoded: whether the first and third channel swap places on the
/// way into and out of the network, and the scalar tensor carrying the
/// network's internal working-resolution factor. Intensity scaling (byte
/// range to the network's unit range and back) belongs to the engine's own
/// numeric domain, as do both opaque payload encodings.
pub struct ModelConfig {
    pub swap_channels: bool,
    pub downsample_ratio: Tensor,
}

/// The four recurrent hidden tensors carried from one frame's inference to
/// the next. Replaced as a unit, only after a fully successful call.
pub struct RecurrentState {
    pub r1: Tensor,
    pub r2: Tensor,
    pub r3: Tensor,
    pub r4: Tensor,
}

/// The mathematical value of a `RecurrentState`.
pub struct RecurrentStateView {
    pub r1: TensorView,
    pub r2: TensorView,
    pub r3: TensorView,
    pub r4: TensorView,
}

impl View for RecurrentState {
    type V = RecurrentStateView;

    open spec fn view(&self) -> RecurrentStateView {
        RecurrentStateView { r1: self.r1@, r2: self.r2@, r3: self.r3@, r4: self.r4@ }
    }
}

/// The recurrent seed: four 1x1x1x1 zero tensors.
pub open spec fn zero_state() -> RecurrentStateView {
    RecurrentStateView {
        r1: TensorView { shape: seq![1usize, 1usize, 1usize, 1usize], data: seq![0u8] },
        r2: TensorView { shape: seq![1usize, 1usize, 1usize, 1usize], data: seq![0u8] },
        r3: TensorView { shape: seq![1usize, 1usize, 1usize, 1usize], data: seq![0u8] },
        r4: TensorView { shape: seq![1usize, 1usize, 1usize, 1usize], data: seq![0u8] },
    }
}

impl RecurrentState {
    /// The state a freshly constructed filter starts in.
    pub fn init() -> (s: RecurrentState)
        ensures
            s@ == zero_state(),
    {
        let s = RecurrentState {
            r1: Tensor::zero_scalar(),
            r2: Tensor::zero_scalar(),
            r3: Tensor::zero_scalar(),
            r4: Tensor::zero_scalar(),
        };
        assert(s@.r1 == zero_state().r1);
        assert(s@.r2 == zero_state().r2);
        assert(s@.r3 == zero_state().r3);
        assert(s@.r4 == zero_state().r4);
        s
    }
}

/// The shapes on which one filtering call is owed: two 3-channel frames of
/// one spatial size.
pub open spec fn valid_pair(src: Frame, bg: Frame) -> bool {
    &&& src.channels == 3
    &&& bg.channels == 3
    &&& bg.same_shape_spatial(src)
}

/// Reject frame pairs the model cannot take, before any mutation and before
/// the engine is ever reached.
pub fn validate(src_image: &Frame, bg_image: &Frame) -> (r: Result<(), FilterError>)
    ensures
        r is Ok <==> valid_pair(*src_image, *bg_image),
        r is Err ==> r == Err::<(), FilterError>(FilterError::ValidationError),
{
    if src_image.channels != 3 || bg_image.channels != 3 || bg_image.width != src_image.width
        || bg_image.height != src_image.height {
        Err(FilterError::ValidationError)
    } else {
        Ok(())
    }
}

/// Which source channel feeds plane `c` of the network tensor: the identity,
/// or the first and third channel exchanged when the model wants them
/// swapped.
pub open spec fn chan_sel(swap: bool, c: int) -> int {
    if swap {
        2 - c
    } else {
        c
    }
}

/// Element `p` of plane `c` in a packed plane-major payload whose planes
/// hold `wh` elements each.
pub open spec fn at_plane(s: Seq<u8>, wh: int, c: int, p: int) -> u8 {
    s[c * wh + p]
}

/// `t` is the image tensor that preprocessing builds from frame `f`: shape
/// `[1, 3, height, width]`, one plane per channel, each plane holding the
/// frame's pixels in row-major order, in the model's channel order.
pub open spec fn is_preprocessed(t: TensorView, f: Frame, swap: bool) -> bool {
    &&& t.shape == seq![1usize, 3usize, f.height, f.width]
    &&& t.data.len() == 3 * f.pixel_count()
    &&& forall|c: int, p: int|
        0 <= c < 3 && 0 <= p < f.pixel_count() ==> #[trigger] at_plane(
            t.data,
            f.pixel_count(),
            c,
            p,
        ) == f.px(p, chan_sel(swap, c))
}

/// A packed CHW tensor of one image: shape `[1, channels, height, width]`
/// with one byte per element.
pub open spec fn is_chw_image(t: TensorView, channels: usize, height: usize, width: usize) -> bool {
    &&& t.shape == seq![1usize, channels, height, width]
    &&& t.data.len() == (width * height) * channels
}

/// Convert the interleaved pixel buffer into the network's input layout: one
/// plane per channel, planes ordered as the model expects.
pub fn preprocess(frame: &Frame, swap_channels: bool) -> (t: Tensor)
    requires
        frame.wf(),
        frame.channels == 3,
    ensures
        is_preprocessed(t@, *frame, swap_channels),
{
    proof {
        lemma_frame_len_parts(frame.width as int, frame.height as int, 3);
    }
    let wh: usize = frame.width * frame.height;
    let mut shape: Vec<usize> = Vec::new();
    shape.push(1);
    shape.push(3);
    shape.push(frame.height);
    shape.push(frame.width);
    assert(shape@ =~= seq![1usize, 3usize, frame.height, frame.width]);
    let mut data: Vec<u8> = Vec::new();
    let mut c: usize = 0;
    while c < 3
        invariant
            frame.wf(),
            frame.channels == 3,
            wh == frame.width * frame.height,
            frame.data.len() == wh * 3,
            c <= 3,
            data.len() == c * wh,
            forall|cc: int, q: int|
                0 <= cc < c && 0 <= q < wh ==> #[trigger] at_plane(data@, wh as int, cc, q)
                    == frame.px(q, chan_sel(swap_channels, cc)),
        decreases 3 - c,
    {
        let sel: usize = if swap_channels {
            2 - c
        } else {
            c
        };
        let mut p: usize = 0;
        while p < wh
            invariant
                frame.wf(),
                frame.channels == 3,
                wh == frame.width * frame.height,
                frame.data.len() == wh * 3,
                c < 3,
                sel == chan_sel(swap_channels, c as int),
                p <= wh,
                data.len() == c * wh + p,
                forall|cc: int, q: int|
                    0 <= cc < c && 0 <= q < wh ==> #[trigger] at_plane(data@, wh as int, cc, q)
                        == frame.px(q, chan_sel(swap_channels, cc)),
                forall|q: int|
                    0 <= q < p ==> #[trigger] at_plane(data@, wh as int, c as int, q) == frame.px(
                        q,
                        chan_sel(swap_channels, c as int),
                    ),
            decreases wh - p,
        {
            proof {
                lemma_px_index(wh as int, 3, p as int, sel as int);
            }
            let idx: usize = p * 3 + sel;
            let ghost pre = data@;
            data.push(frame.data[idx]);
            proof {
                assert forall|cc: int, q: int| 0 <= cc < c && 0 <= q < wh implies #[trigger]
                at_plane(data@, wh as int, cc, q) == frame.px(q, chan_sel(swap_channels, cc)) by {
                    assert(0 <= cc * wh + q < c * wh) by (nonlinear_arith)
                        requires
                            0 <= cc < c,
                            0 <= q < wh,
                    ;
                    assert(at_plane(pre, wh as int, cc, q) == frame.px(
                        q,
                        chan_sel(swap_channels, cc),
                    ));
                }
                assert forall|q: int| 0 <= q < p + 1 implies #[trigger] at_plane(
                    data@,
                    wh as int,
                    c as int,
                    q,
                ) == frame.px(q, chan_sel(swap_channels, c as int)) by {
                    if q < p {
                        assert(at_plane(pre, wh as int, c as int, q) == frame.px(
                            q,
                            chan_sel(swap_channels, c as int),
                        ));
                    } else {
                        assert(data@[c * (wh as int) + q] == frame.data@[idx as int]);
                    }
                }
            }
            p = p + 1;
        }
        proof {
            assert((c as int + 1) * (wh as int) == c as int * (wh as int) + wh as int)
                by (nonlinear_arith);
        }
        c = c + 1;
    }
    let t = Tensor { shape, data };
    proof {
        assert forall|c2: int, p2: int|
            0 <= c2 < 3 && 0 <= p2 < frame.pixel_count() implies #[trigger] at_plane(
            t@.data,
            frame.pixel_count(),
            c2,
            p2,
        ) == frame.px(p2, chan_sel(swap_channels, c2)) by {
            assert(at_plane(data@, wh as int, c2, p2) == frame.px(
                p2,
                chan_sel(swap_channels, c2),
            ));
        }
    }
    t
}

/// Read a `[1, 3, height, width]` output tensor back into an interleaved
/// 3-channel frame, undoing the channel order of preprocessing. Any other
/// shape, or a payload that does not cover it, is a backend failure.
pub fn tensor_to_frame(t: &Tensor, width: usize, height: usize, swap_channels: bool) -> (r: Result<
    Frame,
    FilterError,
>)
    requires
        (width * height) * 3 <= usize::MAX,
    ensures
        r is Ok <==> is_chw_image(t@, 3, height, width),
        r is Err ==> r == Err::<Frame, FilterError>(FilterError::BackendError),
        r is Ok ==> {
            let out = r->Ok_0;
            &&& out.wf()
            &&& out.width == width
            &&& out.height == height
            &&& out.channels == 3
            &&& forall|p: int, c: int|
                0 <= p < width * height && 0 <= c < 3 ==> out.px(p, c) == #[trigger] at_plane(
                    t@.data,
                    width * height,
                    chan_sel(swap_channels, c),
                    p,
                )
        },
{
    let wh: usize = width * height;
    if t.shape.len() != 4 {
        assert(t@.shape != seq![1usize, 3usize, height, width]);
        return Err(FilterError::BackendError);
    }
    if t.shape[0] != 1 || t.shape[1] != 3 || t.shape[2] != height || t.shape[3] != width {
        assert(t@.shape != seq![1usize, 3usize, height, width]);
        return Err(FilterError::BackendError);
    }
    assert(t@.shape =~= seq![1usize, 3usize, height, width]);
    if t.data.len() != wh * 3 {
        return Err(FilterError::BackendError);
    }
    let mut data: Vec<u8> = Vec::new();
    let mut p: usize = 0;
    while p < wh
        invariant
            wh == width * height,
            t.data.len() == wh * 3,
            p <= wh,
            data.len() == p * 3,
            forall|q: int, d: int|
                0 <= q < p && 0 <= d < 3 ==> data@[q * 3 + d] == #[trigger] at_plane(
                    t@.data,
                    wh as int,
                    chan_sel(swap_channels, d),
                    q,
                ),
        decreases wh - p,
    {
        let mut c: usize = 0;
        while c < 3
            invariant
                wh == width * height,
                t.data.len() == wh * 3,
                p < wh,
                c <= 3,
                data.len() == p * 3 + c,
                forall|q: int, d: int|
                    0 <= q < p && 0 <= d < 3 ==> data@[q * 3 + d] == #[trigger] at_plane(
                        t@.data,
                        wh as int,
                        chan_sel(swap_channels, d),
                        q,
                    ),
                forall|d: int|
                    0 <= d < c ==> data@[p * 3 + d] == #[trigger] at_plane(
                        t@.data,
                        wh as int,
                        chan_sel(swap_channels, d),
                        p as int,
                    ),
            decreases 3 - c,
        {
            let sel: usize = if swap_channels {
                2 - c
            } else {
                c
            };
            proof {
                lemma_px_index(3, wh as int, sel as int, p as int);
            }
            let idx: usize = sel * wh + p;
            data.push(t.data[idx]);
            c = c + 1;
        }
        p = p + 1;
    }
    let out = Frame { width, height, channels: 3, data };
    proof {
        assert forall|p2: int, c2: int|
            0 <= p2 < width * height && 0 <= c2 < 3 implies out.px(p2, c2) == #[trigger] at_plane(
            t@.data,
            width * height,
            chan_sel(swap_channels, c2),
            p2,
        ) by {
            assert(data@[p2 * 3 + c2] == at_plane(
                t@.data,
                wh as int,
                chan_sel(swap_channels, c2),
                p2,
            ));
        }
    }
    Ok(out)
}

/// Read a `[1, 1, height, width]` alpha output tensor back into a
/// single-channel mask frame. Any other shape, or a payload that does not
/// cover it, is a backend failure.
pub fn tensor_to_mask(t: &Tensor, width: usize, height: usize) -> (r: Result<Frame, FilterError>)
    requires
        width * height <= usize::MAX,
    ensures
        r is Ok <==> is_chw_image(t@, 1, height, width),
        r is Err ==> r == Err::<Frame, FilterError>(FilterError::BackendError),
        r is Ok ==> {
            let out = r->Ok_0;
            &&& out.wf()
            &&& out.width == width
            &&& out.height == height
            &&& out.channels == 1
            &&& forall|p: int| 0 <= p < width * height ==> out.px(p, 0) == t@.data[p]
        },
{
    let wh: usize = width * height;
    if t.shape.len() != 4 {
        assert(t@.shape != seq![1usize, 1usize, height, width]);
        return Err(FilterError::BackendError);
    }
    if t.shape[0] != 1 || t.shape[1] != 1 || t.shape[2] != height || t.shape[3] != width {
        assert(t@.shape != seq![1usize, 1usize, height, width]);
        return Err(FilterError::BackendError);
    }
    assert(t@.shape =~= seq![1usize, 1usize, height, width]);
    if t.data.len() != wh {
        return Err(FilterError::BackendError);
    }
    let mut data: Vec<u8> = Vec::new();
    let mut p: usize = 0;
    while p < wh
        invariant
            t.data.len() == wh,
            p <= wh,
            data@ == t.data@.subrange(0, p as int),
        decreases wh - p,
    {
        data.push(t.data[p]);
        assert(data@ =~= t.data@.subrange(0, p + 1));
        p = p + 1;
    }
    assert(data@ =~= t.data@);
    let out = Frame { width, height, channels: 1, data };
    Ok(out)
}

/// The input list of one inference call: the image tensor, the four
/// recurrent tensors in order, then the downsample-ratio scalar.
pub open spec fn assembled_inputs(
    image: TensorView,
    state: RecurrentStateView,
    ratio: TensorView,
) -> Seq<TensorView> {
    seq![image, state.r1, state.r2, state.r3, state.r4, ratio]
}

/// The recurrent state a successful call commits: positions 2 through 5 of
/// the engine's output list.
pub open spec fn committed_state(outputs: Seq<TensorView>) -> RecurrentStateView {
    RecurrentStateView { r1: outputs[2], r2: outputs[3], r3: outputs[4], r4: outputs[5] }
}

/// The values of a list of tensors.
pub open spec fn tensor_views(s: Seq<Tensor>) -> Seq<TensorView> {
    s.map_values(|t: Tensor| t@)
}

/// Recurrence continuity: the recurrent tensors committed by one successful
/// call stand, unchanged and in order, in positions 1 through 4 of the
/// input list assembled for the next call, whatever image and ratio that
/// next call carries.
pub proof fn lemma_recurrence_continuity(
    outputs: Seq<TensorView>,
    image: TensorView,
    ratio: TensorView,
)
    requires
        outputs.len() == 6,
    ensures
        assembled_inputs(image, committed_state(outputs), ratio)[1] == outputs[2],
        assembled_inputs(image, committed_state(outputs), ratio)[2] == outputs[3],
        assembled_inputs(image, committed_state(outputs), ratio)[3] == outputs[4],
        assembled_inputs(image, committed_state(outputs), ratio)[4] == outputs[5],
{
}

/// `out` holds, channel by channel, the composite of a foreground tensor
/// and a background frame under an alpha tensor, in interleaved layout.
pub open spec fn composite_of(
    out: Frame,
    fgr: TensorView,
    pha: TensorView,
    bg: Frame,
    swap: bool,
) -> bool {
    forall|p: int, c: int|
        0 <= p < bg.pixel_count() && 0 <= c < 3 ==> #[trigger] out.px(p, c) == blend(
            at_plane(fgr.data, bg.pixel_count(), chan_sel(swap, c), p),
            pha.data[p],
            bg.px(p, c),
        )
}

/// The stateful matting filter: an inference session, the model's
/// configuration, and the recurrent state of the last successful call.
pub struct RVMFilter<E> {
    pub engine: E,
    pub cfg: ModelConfig,
    pub state: RecurrentState,
}

impl<E: InferenceEngine> RVMFilter<E> {
    /// Load the model at `model_path` into a fresh engine and start in the
    /// zero recurrent state. Fails with `BackendError` when the backend
    /// cannot load or initialize the model at that path.
    pub fn new(model_path: &str, cfg: ModelConfig) -> (r: Result<RVMFilter<E>, FilterError>)
        ensures
            r is Err ==> r == Err::<RVMFilter<E>, FilterError>(FilterError::BackendError),
            r is Ok ==> {
                let f = r->Ok_0;
                &&& f.state@ == zero_state()
                &&& f.cfg.swap_channels == cfg.swap_channels
                &&& f.cfg.downsample_ratio@ == cfg.downsample_ratio@
            },
    {
        let engine = match E::load(model_path) {
            Ok(e) => e,
            Err(_) => {
                return Err(FilterError::BackendError);
            },
        };
        Ok(RVMFilter { engine, cfg, state: RecurrentState::init() })
    }

    /// Assemble the six positional inference inputs: the image tensor, the
    /// current recurrent tensors in order, then the downsample-ratio scalar.
    pub fn build_inputs(&self, image: Tensor) -> (v: Vec<Tensor>)
        ensures
            tensor_views(v@) == assembled_inputs(
                image@,
                self.state@,
                self.cfg.downsample_ratio@,
            ),
            v@.len() == 6,
    {
        let mut v: Vec<Tensor> = Vec::new();
        v.push(image);
        v.push(self.state.r1.duplicate());
        v.push(self.state.r2.duplicate());
        v.push(self.state.r3.duplicate());
        v.push(self.state.r4.duplicate());
        v.push(self.cfg.downsample_ratio.duplicate());
        proof {
            assert(tensor_views(v@) =~= assembled_inputs(
                image@,
                self.state@,
                self.cfg.downsample_ratio@,
            ));
        }
        v
    }

    /// Take the engine's outputs and finish the call: read the foreground
    /// and alpha tensors back, composite them over the background into
    /// `src_image`, and commit the four new recurrent tensors — or fail
    /// with everything untouched. Exactly six outputs of which the first
    /// two cover the frame are accepted; any other count is the backend
    /// breaking its arity contract.
    pub fn absorb_outputs(
        &mut self,
        outputs: Vec<Tensor>,
        src_image: &mut Frame,
        bg_image: &Frame,
    ) -> (r: Result<(), FilterError>)
        requires
            old(src_image).wf(),
            bg_image.wf(),
            valid_pair(*old(src_image), *bg_image),
        ensures
            r is Ok <==> (outputs@.len() == 6 && is_chw_image(
                outputs@[0]@,
                3,
                old(src_image).height,
                old(src_image).width,
            ) && is_chw_image(outputs@[1]@, 1, old(src_image).height, old(src_image).width)),
            outputs@.len() != 6 ==> r == Err::<(), FilterError>(FilterError::LogicError),
            r is Err && outputs@.len() == 6 ==> r == Err::<(), FilterError>(
                FilterError::BackendError,
            ),
            r is Err ==> *final(src_image) == *old(src_image) && *final(self) == *old(self),
            r is Ok ==> {
                &&& final(src_image).width == old(src_image).width
                &&& final(src_image).height == old(src_image).height
                &&& final(src_image).channels == 3
                &&& final(src_image).wf()
                &&& composite_of(
                    *final(src_image),
                    outputs@[0]@,
                    outputs@[1]@,
                    *bg_image,
                    old(self).cfg.swap_channels,
                )
                &&& final(self).state@ == committed_state(tensor_views(outputs@))
                &&& final(self).cfg == old(self).cfg
                &&& final(self).engine == old(self).engine
            },
    {
        if outputs.len() != 6 {
            return Err(FilterError::LogicError);
        }
        proof {
            lemma_frame_len_parts(src_image.width as int, src_image.height as int, 3);
        }
        let fgr_frame = match tensor_to_frame(
            &outputs[0],
            src_image.width,
            src_image.height,
            self.cfg.swap_channels,
        ) {
            Ok(f) => f,
            Err(e) => {
                return Err(e);
            },
        };
        let pha_mask = match tensor_to_mask(&outputs[1], src_image.width, src_image.height) {
            Ok(m) => m,
            Err(e) => {
                return Err(e);
            },
        };
        let mixed = match apply_mask(&fgr_frame, bg_image, &pha_mask) {
            Ok(m) => m,
            Err(e) => {
                // Unreachable: the three frames were just built at matching
                // shapes, and `apply_mask` succeeds exactly on those.
                assert(mask_compatible(fgr_frame, *bg_image, pha_mask));
                return Err(e);
            },
        };
        let mut rest = outputs;
        let r4o = rest.pop().unwrap();
        let r3o = rest.pop().unwrap();
        let r2o = rest.pop().unwrap();
        let r1o = rest.pop().unwrap();
        src_image.data = mixed.data;
        self.state = RecurrentState { r1: r1o, r2: r2o, r3: r3o, r4: r4o };
        proof {
            assert(final(self).state@ == committed_state(tensor_views(outputs@)));
            assert forall|p: int, c: int|
                0 <= p < bg_image.pixel_count() && 0 <= c < 3 implies #[trigger] final(src_image).px(
                p,
                c,
            ) == blend(
                at_plane(
                    outputs@[0]@.data,
                    bg_image.pixel_count(),
                    chan_sel(old(self).cfg.swap_channels, c),
                    p,
                ),
                outputs@[1]@.data[p],
                bg_image.px(p, c),
            ) by {
                assert(mixed.px(p, c) == blend(
                    fgr_frame.px(p, c),
                    pha_mask.px(p, 0),
                    bg_image.px(p, c),
                ));
            }
        }
        Ok(())
    }
}

impl<E: InferenceEngine> Filter for RVMFilter<E> {
    /// One matting pass: validate, preprocess, infer, postprocess,
    /// composite, commit. A validation failure reports before any mutation
    /// and before the engine is reached; every later failure leaves the
    /// source frame and the recurrent state at their pre-call values.
    fn filter_inplace(&mut self, src_image: &mut Frame, bg_image: &Frame) -> (r: Result<
        (),
        FilterError,
    >)
        ensures
            r == Err::<(), FilterError>(FilterError::ValidationError) <==> !valid_pair(
                *old(src_image),
                *bg_image,
            ),
            !valid_pair(*old(src_image), *bg_image) ==> (*final(self) == *old(self)
                && *final(src_image) == *old(src_image)),
            r is Err ==> (final(src_image)@ == old(src_image)@
                && final(self).state@ == old(self).state@
                && final(self).cfg == old(self).cfg),
            r is Ok ==> final(src_image).channels == 3 && valid_pair(*old(src_image), *bg_image),
    {
        match validate(src_image, bg_image) {
            Err(e) => {
                return Err(e);
            },
            Ok(()) => {},
        }
        let image = preprocess(src_image, self.cfg.swap_channels);
        let inputs = self.build_inputs(image);
        let outputs = match self.engine.run(&inputs) {
            Ok(o) => o,
            Err(_) => {
                return Err(FilterError::BackendError);
            },
        };
        self.absorb_outputs(outputs, src_image, bg_image)
    }
}

} // verus!
