use vstd::prelude::*;
use crate::alpha::{alpha_all_zero, apply_opacity, lemma_zero_opacity_clears, with_opacity};
use crate::bitmap::{column_of, in_rect, row_of, Bitmap};
use crate::params::{WatermarkParams, PARAM_UNIT};
use crate::placement::{lemma_oversized_at_origin, offset_of, place};
use crate::resample::{
    fits_in_memory, lanczos3_of, resize_lanczos3, target_height, target_size, target_width,
};

verus! {

/// Samples of the base `bw` by `bh` image after `top` (`tw` by `th`) is
/// blended over it with the "over" operator at (`x`, `y`), clipped to the
/// base.
pub uninterp spec fn overlay_of(
    bw: nat,
    bh: nat,
    base: Seq<u8>,
    tw: nat,
    th: nat,
    top: Seq<u8>,
    x: nat,
    y: nat,
) -> Seq<u8>;

/// `r` equals `base` on every pixel outside the `tw` by `th` rectangle at
/// (`x`, `y`) of an image `bw` pixels wide.
pub open spec fn unchanged_outside(
    r: Seq<u8>,
    base: Seq<u8>,
    bw: nat,
    x: nat,
    y: nat,
    tw: nat,
    th: nat,
) -> bool {
    forall|j: int|
        0 <= j < base.len() && !in_rect(column_of(j, bw), row_of(j, bw), x as int, y as int, tw as int, th as int)
            ==> #[trigger] r[j] == base[j]
}

/// Relies on image's `imageops::overlay` on RGBA8 buffers: it blends
/// each pixel of `top` that falls inside the base over it (skipping a fully
/// transparent one) and leaves every other pixel of the base untouched.
#[verifier::external_body]
fn overlay(base: &Bitmap, top: &Bitmap, x: u32, y: u32) -> (r: Bitmap)
    requires
        base.wf(),
        top.wf(),
    ensures
        r.wf(),
        r.width == base.width,
        r.height == base.height,
        r.data@ == overlay_of(
            base.width as nat,
            base.height as nat,
            base.data@,
            top.width as nat,
            top.height as nat,
            top.data@,
            x as nat,
            y as nat,
        ),
        unchanged_outside(r.data@, base.data@, base.width as nat, x as nat, y as nat, top.width as nat, top.height as nat),
        alpha_all_zero(top.data@) ==> r.data@ == base.data@,
{
    let mut bottom = image::RgbaImage::from_raw(base.width, base.height, base.data.clone()).unwrap();
    let upper = image::RgbaImage::from_raw(top.width, top.height, top.data.clone()).unwrap();
    image::imageops::overlay(&mut bottom, &upper, x as i64, y as i64);
    Bitmap { width: base.width, height: base.height, data: bottom.into_raw() }
}

/// Blends `watermark`, its alpha first scaled by `opacity`, over a copy of
/// `base` at (`x`, `y`).
pub fn composite(base: &Bitmap, watermark: Bitmap, opacity: u32, x: u32, y: u32) -> (r: Bitmap)
    requires
        base.wf(),
        watermark.wf(),
        opacity <= PARAM_UNIT,
    ensures
        r.wf(),
        r.width == base.width,
        r.height == base.height,
        r.data@ == overlay_of(
            base.width as nat,
            base.height as nat,
            base.data@,
            watermark.width as nat,
            watermark.height as nat,
            with_opacity(watermark.data@, opacity as nat),
            x as nat,
            y as nat,
        ),
        unchanged_outside(r.data@, base.data@, base.width as nat, x as nat, y as nat, watermark.width as nat, watermark.height as nat),
        opacity == 0 ==> r.data@ == base.data@,
{
    let mut wm = watermark;
    apply_opacity(&mut wm, opacity);
    proof {
        if opacity == 0 {
            lemma_zero_opacity_clears(watermark.data@);
        }
    }
    overlay(base, &wm, x, y)
}

/// Resizes `watermark` to `scale` of the base width, keeping its aspect
/// ratio, and blends it over a copy of `base` at the offset that the
/// position sliders select. `None` where the resized watermark would not
/// fit in memory. At zero opacity the result equals the base; along an
/// axis where the resized watermark is larger than the base it starts at
/// offset zero and the part beyond the base is skipped.
pub fn apply_watermark(base: &Bitmap, watermark: &Bitmap, params: &WatermarkParams) -> (r: Option<
    Bitmap,
>)
    requires
        base.wf(),
        watermark.wf(),
        watermark.width >= 1,
        watermark.height >= 1,
        params.wf(),
    ensures
        ({
            let tw = target_width(base.width as nat, params.scale as nat);
            let th = target_height(tw, watermark.width as nat, watermark.height as nat);
            let x = offset_of(base.width as nat, tw, params.pos_x as nat);
            let y = offset_of(base.height as nat, th, params.pos_y as nat);
            &&& r is Some <==> fits_in_memory(tw, th)
            &&& r matches Some(out) ==> {
                &&& out.wf()
                &&& out.width == base.width
                &&& out.height == base.height
                &&& out.data@ == overlay_of(
                    base.width as nat,
                    base.height as nat,
                    base.data@,
                    tw,
                    th,
                    with_opacity(
                        lanczos3_of(
                            watermark.width as nat,
                            watermark.height as nat,
                            watermark.data@,
                            tw,
                            th,
                        ),
                        params.opacity as nat,
                    ),
                    x,
                    y,
                )
                &&& unchanged_outside(out.data@, base.data@, base.width as nat, x, y, tw, th)
                &&& params.opacity == 0 ==> out.data@ == base.data@
                &&& tw > base.width ==> x == 0
                &&& th > base.height ==> y == 0
            }
        }),
{
    let size = target_size(base.width, watermark.width, watermark.height, params.scale);
    match size {
        None => None,
        Some((tw, th)) => {
            let resized = resize_lanczos3(watermark, tw, th);
            let (x, y) = place(base.width, base.height, tw, th, params.pos_x, params.pos_y);
            proof {
                if tw > base.width {
                    lemma_oversized_at_origin(base.width as nat, tw as nat, params.pos_x as nat);
                }
                if th > base.height {
                    lemma_oversized_at_origin(base.height as nat, th as nat, params.pos_y as nat);
                }
            }
            Some(composite(base, resized, params.opacity, x, y))
        },
    }
}

} // verus!
