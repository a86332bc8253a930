use vstd::prelude::*;
use crate::bitmap::{rgba_len, Bitmap};
use crate::params::{scaled_round, PARAM_UNIT};
use fast_image_resize as fr;

verus! {

/// Width of the resized watermark: `scale` of the base width, at least one
/// pixel.
pub open spec fn target_width(base_w: nat, scale: nat) -> nat {
    let w = scaled_round(base_w, scale);
    if w == 0 {
        1
    } else {
        w
    }
}

/// Height that keeps the watermark's aspect ratio at width `tw`, rounded
/// half up, at least one pixel.
pub open spec fn target_height(tw: nat, wm_w: nat, wm_h: nat) -> nat {
    let h = (2 * tw * wm_h + wm_w) / (2 * wm_w);
    if h == 0 {
        1
    } else {
        h
    }
}

/// Whether a `w` by `h` RGBA image can be held in memory.
pub open spec fn fits_in_memory(w: nat, h: nat) -> bool {
    w <= u32::MAX && h <= u32::MAX && rgba_len(w, h) <= usize::MAX
}

/// Size of the resized watermark, or `None` where it cannot be held.
pub fn target_size(base_w: u32, wm_w: u32, wm_h: u32, scale: u32) -> (r: Option<(u32, u32)>)
    requires
        wm_w >= 1,
        scale <= PARAM_UNIT,
    ensures
        ({
            let tw = target_width(base_w as nat, scale as nat);
            let th = target_height(tw, wm_w as nat, wm_h as nat);
            &&& r is Some <==> fits_in_memory(tw, th)
            &&& r matches Some(s) ==> s.0 == tw && s.1 == th
        }),
{
    proof {
        assert((base_w as u64) * (scale as u64) <= 0xffff_ffffu64 * 10000) by (nonlinear_arith)
            requires
                base_w <= 0xffff_ffffu32,
                scale <= 10000,
        ;
        assert(((base_w as u64) * (scale as u64) + 5000) / 10000 <= base_w) by (nonlinear_arith)
            requires
                scale <= 10000,
        ;
    }
    let w0: u64 = ((base_w as u64) * (scale as u64) + 5000) / 10000;
    let tw: u64 = if w0 == 0 { 1 } else { w0 };
    proof {
        assert(2 * (tw as u128) * (wm_h as u128) <= 2 * 0xffff_ffffu128 * 0xffff_ffffu128)
            by (nonlinear_arith)
            requires
                tw <= 0xffff_ffffu64,
                wm_h <= 0xffff_ffffu32,
        ;
    }
    let h0: u128 = (2 * (tw as u128) * (wm_h as u128) + wm_w as u128) / (2 * wm_w as u128);
    let th: u128 = if h0 == 0 { 1 } else { h0 };
    if th > u32::MAX as u128 {
        return None;
    }
    proof {
        assert((tw as u128) * th <= 0xffff_ffffu128 * 0xffff_ffffu128) by (nonlinear_arith)
            requires
                tw <= 0xffff_ffffu64,
                th <= 0xffff_ffffu128,
        ;
    }
    if (tw as u128) * th * 4 > usize::MAX as u128 {
        return None;
    }
    Some((tw as u32, th as u32))
}

/// Resizing keeps the watermark's aspect ratio to within one pixel:
/// `th / tw` differs from `wm_h / wm_w` by at most one pixel of height.
pub proof fn lemma_aspect_kept(tw: nat, wm_w: nat, wm_h: nat)
    requires
        wm_w >= 1,
    ensures
        ({
            let th = target_height(tw, wm_w, wm_h);
            &&& th * wm_w <= tw * wm_h + wm_w
            &&& tw * wm_h <= th * wm_w + wm_w
        }),
{
    let n = 2 * tw * wm_h + wm_w;
    let d = 2 * wm_w;
    let q = n / d;
    let r = n % d;
    vstd::arithmetic::div_mod::lemma_fundamental_div_mod(n as int, d as int);
    assert(n == d * q + r);
    assert(0 <= r < d);
    assert(d * q == 2 * (wm_w * q)) by (nonlinear_arith)
        requires
            d == 2 * wm_w,
    ;
    assert(2 * tw * wm_h == 2 * (tw * wm_h)) by (nonlinear_arith);
    assert(q * wm_w == wm_w * q) by (nonlinear_arith);
    assert(q * wm_w <= tw * wm_h + wm_w);
    assert(tw * wm_h <= q * wm_w + wm_w);
    if q == 0 {
        assert(1 * wm_w == wm_w);
    }
}

/// Samples of the `sw` by `sh` RGBA image `src` resampled to `w` by `h`
/// pixels with a Lanczos3 convolution.
pub uninterp spec fn lanczos3_of(sw: nat, sh: nat, src: Seq<u8>, w: nat, h: nat) -> Seq<u8>;

/// Relies on fast_image_resize's `Resizer::resize` with the Lanczos3
/// convolution filter: the destination holds `width` by `height` RGBA
/// pixels, which depend on the source and the target size alone.
#[verifier::external_body]
pub(crate) fn resize_lanczos3(src: &Bitmap, width: u32, height: u32) -> (r: Bitmap)
    requires
        src.wf(),
        src.width >= 1,
        src.height >= 1,
        width >= 1,
        height >= 1,
        fits_in_memory(width as nat, height as nat),
    ensures
        r.wf(),
        r.width == width,
        r.height == height,
        r.data@ == lanczos3_of(
            src.width as nat,
            src.height as nat,
            src.data@,
            width as nat,
            height as nat,
        ),
{
    let src_img = fr::images::ImageRef::new(src.width, src.height, &src.data, fr::PixelType::U8x4)
        .unwrap();
    let mut dst = fr::images::Image::new(width, height, fr::PixelType::U8x4);
    let alg = fr::ResizeAlg::Convolution(fr::FilterType::Lanczos3);
    fr::Resizer::new().resize(&src_img, &mut dst, &fr::ResizeOptions::new().resize_alg(alg))
        .unwrap();
    Bitmap { width, height, data: dst.into_vec() }
}

} // verus!
