//! General-purpose image-processing helpers shared by filters: compositing a
//! foreground and a background under a per-pixel alpha mask.

use crate::filter::FilterError;
use crate::frame::{lemma_frame_len_parts, lemma_px_index, Frame};
use vstd::prelude::*;

verus! {

/// One composited channel value: `fgr * alpha + bg * (1 - alpha)`, with alpha
/// carried as `a / 255` and the result rounded to the nearest byte. An alpha
/// byte of 0 yields the background channel exactly; 255 yields the
/// foreground channel exactly.
pub open spec fn blend(f: u8, a: u8, b: u8) -> int {
    (f * a + b * (255 - a) + 127) / 255
}

/// The shapes under which `apply_mask` can composite: two 3-channel frames
/// and a single-channel mask, all of one spatial size.
pub open spec fn mask_compatible(src: Frame, bg: Frame, fgr_mask: Frame) -> bool {
    &&& src.channels == 3
    &&& bg.channels == 3
    &&& fgr_mask.channels == 1
    &&& bg.same_shape_spatial(src)
    &&& fgr_mask.same_shape_spatial(src)
}

/// A blended channel value, computed exactly as `blend` states.
fn blend_px(f: u8, a: u8, b: u8) -> (r: u8)
    ensures
        r == blend(f, a, b),
{
    let fw: u32 = f as u32;
    let aw: u32 = a as u32;
    let bw: u32 = b as u32;
    proof {
        assert(fw * aw <= 65025 && bw * (255 - aw) <= 65025 && fw * aw + bw * (255 - aw)
            <= 65025) by (nonlinear_arith)
            requires
                fw <= 255,
                aw <= 255,
                bw <= 255,
                0 <= fw,
                0 <= aw,
                0 <= bw,
        ;
    }
    let sum: u32 = fw * aw + bw * (255 - aw) + 127;
    let q: u32 = sum / 255;
    proof {
        assert(sum / 255 <= 255) by (nonlinear_arith)
            requires
                0 <= sum <= 65152,
        ;
    }
    q as u8
}

/// Replace the pixels in `src` for which `fgr_mask` indicates background with
/// pixels from `bg`. The mask is single-channel; a mask byte of 255 keeps
/// the source pixel, 0 takes the background pixel, and values in between mix
/// the two. `src`, `bg` and `fgr_mask` have to share one spatial size.
pub fn apply_mask(src: &Frame, bg: &Frame, fgr_mask: &Frame) -> (r: Result<Frame, FilterError>)
    requires
        src.wf(),
        bg.wf(),
        fgr_mask.wf(),
    ensures
        r is Ok <==> mask_compatible(*src, *bg, *fgr_mask),
        r is Err ==> r == Err::<Frame, FilterError>(FilterError::ValidationError),
        r is Ok ==> {
            let out = r->Ok_0;
            &&& out.wf()
            &&& out.width == src.width
            &&& out.height == src.height
            &&& out.channels == 3
            &&& forall|p: int, c: int|
                0 <= p < src.pixel_count() && 0 <= c < 3 ==> out.px(p, c) == blend(
                    src.px(p, c),
                    fgr_mask.px(p, 0),
                    bg.px(p, c),
                )
        },
{
    if src.channels != 3 || bg.channels != 3 || fgr_mask.channels != 1 || bg.width != src.width
        || bg.height != src.height || fgr_mask.width != src.width || fgr_mask.height
        != src.height {
        return Err(FilterError::ValidationError);
    }
    proof {
        lemma_frame_len_parts(src.width as int, src.height as int, 3);
    }
    let wh: usize = src.width * src.height;
    let mut data: Vec<u8> = Vec::new();
    let mut p: usize = 0;
    while p < wh
        invariant
            src.wf(),
            bg.wf(),
            fgr_mask.wf(),
            mask_compatible(*src, *bg, *fgr_mask),
            wh == src.width * src.height,
            src.data.len() == wh * 3,
            p <= wh,
            data.len() == p * 3,
            forall|q: int, d: int|
                0 <= q < p && 0 <= d < 3 ==> data@[q * 3 + d] == blend(
                    src.px(q, d),
                    fgr_mask.px(q, 0),
                    bg.px(q, d),
                ),
        decreases wh - p,
    {
        let mut c: usize = 0;
        while c < 3
            invariant
                src.wf(),
                bg.wf(),
                fgr_mask.wf(),
                mask_compatible(*src, *bg, *fgr_mask),
                wh == src.width * src.height,
                src.data.len() == wh * 3,
                p < wh,
                c <= 3,
                data.len() == p * 3 + c,
                forall|q: int, d: int|
                    0 <= q < p && 0 <= d < 3 ==> data@[q * 3 + d] == blend(
                        src.px(q, d),
                        fgr_mask.px(q, 0),
                        bg.px(q, d),
                    ),
                forall|d: int|
                    0 <= d < c ==> data@[p * 3 + d] == blend(
                        src.px(p as int, d),
                        fgr_mask.px(p as int, 0),
                        bg.px(p as int, d),
                    ),
            decreases 3 - c,
        {
            proof {
                lemma_px_index(wh as int, 3, p as int, c as int);
            }
            let idx: usize = p * 3 + c;
            let v: u8 = blend_px(src.data[idx], fgr_mask.data[p], bg.data[idx]);
            data.push(v);
            c = c + 1;
        }
        p = p + 1;
    }
    let out = Frame { width: src.width, height: src.height, channels: 3, data };
    proof {
        assert forall|p2: int, c2: int|
            0 <= p2 < src.pixel_count() && 0 <= c2 < 3 implies out.px(p2, c2) == blend(
            src.px(p2, c2),
            fgr_mask.px(p2, 0),
            bg.px(p2, c2),
        ) by {
            lemma_px_index(wh as int, 3, p2, c2);
        }
    }
    Ok(out)
}

/// Compositor boundary behavior over whole frames: a composite built under
/// an all-zero mask is byte-for-byte the background frame, and one built
/// under an all-255 mask is byte-for-byte the foreground frame.
pub proof fn lemma_apply_mask_extremes(out: Frame, src: Frame, bg: Frame, fgr_mask: Frame)
    requires
        src.wf(),
        bg.wf(),
        fgr_mask.wf(),
        mask_compatible(src, bg, fgr_mask),
        out.wf(),
        out.width == src.width,
        out.height == src.height,
        out.channels == 3,
        forall|p: int, c: int|
            0 <= p < src.pixel_count() && 0 <= c < 3 ==> #[trigger] out.px(p, c) == blend(
                src.px(p, c),
                fgr_mask.px(p, 0),
                bg.px(p, c),
            ),
    ensures
        (forall|p: int| 0 <= p < src.pixel_count() ==> #[trigger] fgr_mask.px(p, 0) == 0)
            ==> out.data@ == bg.data@,
        (forall|p: int| 0 <= p < src.pixel_count() ==> #[trigger] fgr_mask.px(p, 0) == 255)
            ==> out.data@ == src.data@,
{
    let wh = src.pixel_count();
    if forall|p: int| 0 <= p < wh ==> #[trigger] fgr_mask.px(p, 0) == 0 {
        assert forall|i: int| 0 <= i < out.data@.len() implies out.data@[i] == bg.data@[i] by {
            let p = i / 3;
            let c = i % 3;
            assert(0 <= c < 3 && i == p * 3 + c && 0 <= p < wh) by (nonlinear_arith)
                requires
                    p == i / 3,
                    c == i % 3,
                    0 <= i < wh * 3,
            ;
            assert(fgr_mask.px(p, 0) == 0);
            lemma_blend_extremes(src.px(p, c), bg.px(p, c));
            assert(out.px(p, c) == bg.px(p, c));
        }
        assert(out.data@ =~= bg.data@);
    }
    if forall|p: int| 0 <= p < wh ==> #[trigger] fgr_mask.px(p, 0) == 255 {
        assert forall|i: int| 0 <= i < out.data@.len() implies out.data@[i] == src.data@[i] by {
            let p = i / 3;
            let c = i % 3;
            assert(0 <= c < 3 && i == p * 3 + c && 0 <= p < wh) by (nonlinear_arith)
                requires
                    p == i / 3,
                    c == i % 3,
                    0 <= i < wh * 3,
            ;
            assert(fgr_mask.px(p, 0) == 255);
            lemma_blend_extremes(src.px(p, c), bg.px(p, c));
            assert(out.px(p, c) == src.px(p, c));
        }
        assert(out.data@ =~= src.data@);
    }
}

/// Compositor boundary behavior: an all-zero alpha byte returns the
/// background channel unchanged, and a full alpha byte of 255 returns the
/// foreground channel unchanged.
pub proof fn lemma_blend_extremes(f: u8, b: u8)
    ensures
        blend(f, 0, b) == b,
        blend(f, 255, b) == f,
{
    assert((f * 0 + b * (255 - 0) + 127) / 255 == b) by (nonlinear_arith)
        requires
            0 <= b <= 255,
            0 <= f <= 255,
    ;
    assert((f * 255 + b * (255 - 255) + 127) / 255 == f) by (nonlinear_arith)
        requires
            0 <= b <= 255,
            0 <= f <= 255,
    ;
}

} // verus!
