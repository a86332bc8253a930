use vstd::prelude::*;
use crate::params::{scaled_round, PARAM_UNIT};

verus! {

/// Room left for the watermark along one axis; none where it is larger
/// than the base.
pub open spec fn margin(base: nat, wm: nat) -> nat {
    if base >= wm {
        (base - wm) as nat
    } else {
        0
    }
}

/// Offset along one axis for the slider value `pos`.
pub open spec fn offset_of(base: nat, wm: nat, pos: nat) -> nat {
    scaled_round(margin(base, wm), pos)
}

fn axis_offset(base: u32, wm: u32, pos: u32) -> (r: u32)
    requires
        pos <= PARAM_UNIT,
    ensures
        r == offset_of(base as nat, wm as nat, pos as nat),
{
    let m: u64 = if base >= wm { (base - wm) as u64 } else { 0 };
    proof {
        lemma_offset_bounded(base as nat, wm as nat, pos as nat);
        assert(m * pos <= m * 10000) by (nonlinear_arith) requires pos <= 10000;
    }
    ((m * pos as u64 + 5000) / 10000) as u32
}

/// Pixel offset of the watermark's top left corner on the base.
pub fn place(base_w: u32, base_h: u32, wm_w: u32, wm_h: u32, pos_x: u32, pos_y: u32) -> (r: (
    u32,
    u32,
))
    requires
        pos_x <= PARAM_UNIT,
        pos_y <= PARAM_UNIT,
    ensures
        r.0 == offset_of(base_w as nat, wm_w as nat, pos_x as nat),
        r.1 == offset_of(base_h as nat, wm_h as nat, pos_y as nat),
        r.0 <= margin(base_w as nat, wm_w as nat),
        r.1 <= margin(base_h as nat, wm_h as nat),
{
    proof {
        lemma_offset_bounded(base_w as nat, wm_w as nat, pos_x as nat);
        lemma_offset_bounded(base_h as nat, wm_h as nat, pos_y as nat);
    }
    (axis_offset(base_w, wm_w, pos_x), axis_offset(base_h, wm_h, pos_y))
}

/// The offset never exceeds the margin, so a watermark that fits stays
/// inside the base.
pub proof fn lemma_offset_bounded(base: nat, wm: nat, pos: nat)
    requires
        pos <= PARAM_UNIT,
    ensures
        offset_of(base, wm, pos) <= margin(base, wm),
        wm <= base ==> offset_of(base, wm, pos) + wm <= base,
{
    let m = margin(base, wm);
    assert(m * pos + 5000 < (m + 1) * 10000) by (nonlinear_arith)
        requires
            pos <= 10000,
    ;
    assert((m * pos + 5000) / 10000 <= m) by (nonlinear_arith)
        requires
            m * pos + 5000 < (m + 1) * 10000,
    ;
}

/// A watermark larger than the base along an axis sits at offset zero on
/// that axis.
pub proof fn lemma_oversized_at_origin(base: nat, wm: nat, pos: nat)
    requires
        pos <= PARAM_UNIT,
        wm > base,
    ensures
        offset_of(base, wm, pos) == 0,
{
    assert(margin(base, wm) == 0);
    assert(0 * pos == 0);
}

} // verus!
