use vstd::prelude::*;

verus! {

/// Denominator of every fractional parameter: `PARAM_UNIT` stands for 1.0.
pub const PARAM_UNIT: u32 = 10000;

/// `v * p / PARAM_UNIT`, rounded half up.
pub open spec fn scaled_round(v: nat, p: nat) -> nat {
    (v * p + 5000) / 10000
}

/// The user's choice of opacity, scale and position, each a fraction of
/// `PARAM_UNIT`.
#[derive(Clone, Copy, Debug, PartialEq, Eq)]
pub struct WatermarkParams {
    pub opacity: u32,
    pub scale: u32,
    pub pos_x: u32,
    pub pos_y: u32,
}

impl WatermarkParams {
    /// Opacity and positions lie in [0, 1]; scale lies in (0, 1].
    pub open spec fn wf(&self) -> bool {
        &&& self.opacity <= PARAM_UNIT
        &&& 0 < self.scale <= PARAM_UNIT
        &&& self.pos_x <= PARAM_UNIT
        &&& self.pos_y <= PARAM_UNIT
    }

    /// Builds the parameters, refusing any value out of its range.
    pub fn new(opacity: u32, scale: u32, pos_x: u32, pos_y: u32) -> (r: Option<WatermarkParams>)
        ensures
            r is Some <==> (opacity <= PARAM_UNIT && 0 < scale <= PARAM_UNIT && pos_x <= PARAM_UNIT
                && pos_y <= PARAM_UNIT),
            r matches Some(p) ==> p.wf() && p.opacity == opacity && p.scale == scale && p.pos_x
                == pos_x && p.pos_y == pos_y,
    {
        if opacity <= PARAM_UNIT && 0 < scale && scale <= PARAM_UNIT && pos_x <= PARAM_UNIT && pos_y
            <= PARAM_UNIT {
            Some(WatermarkParams { opacity, scale, pos_x, pos_y })
        } else {
            None
        }
    }
}

} // verus!
