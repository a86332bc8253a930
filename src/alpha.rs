use vstd::prelude::*;
use crate::bitmap::Bitmap;
use crate::params::{scaled_round, PARAM_UNIT};

verus! {

/// The samples `s` with every alpha sample multiplied by `opacity` and
/// rounded; colour samples are kept.
pub open spec fn with_opacity(s: Seq<u8>, opacity: nat) -> Seq<u8> {
    Seq::new(s.len(), |j: int| if j % 4 == 3 { scaled_round(s[j] as nat, opacity) as u8 } else { s[j] })
}

/// Whether every alpha sample of `s` is zero.
pub open spec fn alpha_all_zero(s: Seq<u8>) -> bool {
    forall|j: int| 0 <= j < s.len() && j % 4 == 3 ==> #[trigger] s[j] == 0
}

/// `round(a * opacity)` for one alpha sample.
pub fn scale_alpha(a: u8, opacity: u32) -> (r: u8)
    requires
        opacity <= PARAM_UNIT,
    ensures
        r == scaled_round(a as nat, opacity as nat),
{
    proof {
        lemma_alpha_never_amplified(a, opacity as nat);
    }
    ((a as u32 * opacity + 5000) / 10000) as u8
}

/// Scaling by an opacity in [0, 1] never raises an alpha value.
pub proof fn lemma_alpha_never_amplified(a: u8, opacity: nat)
    requires
        opacity <= PARAM_UNIT,
    ensures
        scaled_round(a as nat, opacity) <= a,
{
    let an = a as nat;
    assert(an * opacity + 5000 < (an + 1) * 10000) by (nonlinear_arith)
        requires
            opacity <= 10000,
    ;
    assert((an * opacity + 5000) / 10000 <= an) by (nonlinear_arith)
        requires
            an * opacity + 5000 < (an + 1) * 10000,
    ;
}

/// At full opacity the alpha samples are kept as they are.
pub proof fn lemma_full_opacity_keeps(s: Seq<u8>)
    ensures
        with_opacity(s, PARAM_UNIT as nat) == s,
{
    assert forall|j: int| 0 <= j < s.len() implies with_opacity(s, PARAM_UNIT as nat)[j]
        == s[j] by {
        let a = s[j] as nat;
        assert((a * 10000 + 5000) / 10000 == a) by (nonlinear_arith);
    }
    assert(with_opacity(s, PARAM_UNIT as nat) =~= s);
}

/// At zero opacity every alpha sample becomes zero.
pub proof fn lemma_zero_opacity_clears(s: Seq<u8>)
    ensures
        alpha_all_zero(with_opacity(s, 0)),
{
    assert forall|j: int| 0 <= j < s.len() && j % 4 == 3 implies #[trigger] with_opacity(s, 0)[j]
        == 0 by {
        assert((s[j] as nat) * 0 == 0);
    }
}

/// Multiplies every alpha sample of `bm` by `opacity`, in place.
pub fn apply_opacity(bm: &mut Bitmap, opacity: u32)
    requires
        old(bm).wf(),
        opacity <= PARAM_UNIT,
    ensures
        final(bm).wf(),
        final(bm).width == old(bm).width,
        final(bm).height == old(bm).height,
        final(bm).data@ == with_opacity(old(bm).data@, opacity as nat),
{
    let ghost orig = bm.data@;
    if opacity >= PARAM_UNIT {
        proof {
            lemma_full_opacity_keeps(orig);
        }
        return;
    }
    let n = bm.data.len();
    let mut j: usize = 0;
    while j < n
        invariant
            bm.width == old(bm).width,
            bm.height == old(bm).height,
            orig == old(bm).data@,
            bm.data@.len() == n,
            n == orig.len(),
            j <= n,
            opacity <= PARAM_UNIT,
            forall|k: int| 0 <= k < j ==> #[trigger] bm.data@[k] == with_opacity(orig, opacity as nat)[k],
            forall|k: int| j <= k < n ==> #[trigger] bm.data@[k] == orig[k],
        decreases n - j,
    {
        if j % 4 == 3 {
            let a = bm.data[j];
            let s = scale_alpha(a, opacity);
            bm.data.set(j, s);
        }
        j = j + 1;
    }
    assert(bm.data@ =~= with_opacity(orig, opacity as nat));
}

} // verus!
