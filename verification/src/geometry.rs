//! Aspect-preserving target geometry: given source dimensions and a bound,
//! compute the output dimensions. An image whose larger side already fits
//! within the bound passes through unchanged (pass-through policy); otherwise
//! the larger side becomes exactly the bound and the smaller side is scaled by
//! the same ratio, rounding down (floor after multiply).

use vstd::prelude::*;

verus! {

/// True when both dimensions already fit within the bound.
pub open spec fn fits(w: nat, h: nat, bound: nat) -> bool {
    w <= bound && h <= bound
}

/// The target dimensions: pass-through when the source already fits,
/// otherwise scale so the larger side equals the bound exactly and the
/// smaller side is floor(small * bound / large).
pub open spec fn spec_target_dims(w: nat, h: nat, bound: nat) -> (nat, nat)
    recommends
        w >= 1,
        h >= 1,
        bound >= 1,
{
    if fits(w, h, bound) {
        (w, h)
    } else if w > h {
        (bound, (h * bound) / w)
    } else {
        ((w * bound) / h, bound)
    }
}

/// Computes the output dimensions for a source of `w` by `h` under `bound`.
pub fn target_dims(w: u32, h: u32, bound: u32) -> (r: (u32, u32))
    requires
        w >= 1,
        h >= 1,
        bound >= 1,
    ensures
        (r.0 as nat, r.1 as nat) == spec_target_dims(w as nat, h as nat, bound as nat),
{
    if w <= bound && h <= bound {
        (w, h)
    } else if w > h {
        proof {
            assert(h as nat * bound as nat <= 0xffff_ffff * 0xffff_ffff) by (nonlinear_arith)
                requires
                    h as nat <= 0xffff_ffff,
                    bound as nat <= 0xffff_ffff,
            ;
            assert(h as nat * bound as nat / w as nat <= bound as nat) by (nonlinear_arith)
                requires
                    1 <= w as nat,
                    h as nat <= w as nat,
            ;
        }
        let scaled: u64 = (h as u64) * (bound as u64) / (w as u64);
        (bound, scaled as u32)
    } else {
        proof {
            assert(w as nat * bound as nat <= 0xffff_ffff * 0xffff_ffff) by (nonlinear_arith)
                requires
                    w as nat <= 0xffff_ffff,
                    bound as nat <= 0xffff_ffff,
            ;
            assert(w as nat * bound as nat / h as nat <= bound as nat) by (nonlinear_arith)
                requires
                    1 <= h as nat,
                    w as nat <= h as nat,
            ;
        }
        let scaled: u64 = (w as u64) * (bound as u64) / (h as u64);
        (scaled as u32, bound)
    }
}

/// Law: whenever the source exceeds the bound, the larger output side equals
/// the bound exactly, and neither output side exceeds the bound.
pub proof fn lemma_larger_side_equals_bound(w: nat, h: nat, bound: nat)
    requires
        w >= 1,
        h >= 1,
        bound >= 1,
        !fits(w, h, bound),
    ensures
        ({
            let (nw, nh) = spec_target_dims(w, h, bound);
            &&& (if nw >= nh { nw } else { nh }) == bound
            &&& nw <= bound
            &&& nh <= bound
        }),
{
    if w > h {
        assert(h * bound / w <= bound) by (nonlinear_arith)
            requires
                1 <= w,
                h <= w,
        ;
    } else {
        assert(w * bound / h <= bound) by (nonlinear_arith)
            requires
                1 <= h,
                w <= h,
        ;
    }
}

/// Law: the output aspect ratio matches the source aspect ratio within the
/// one-pixel tolerance of rounding down. Cross-multiplied: when the width is
/// the larger side, the exact scaled height `h * bound / w` is approximated by
/// `nh` from below with an error of less than one pixel, and symmetrically for
/// the other orientation.
pub proof fn lemma_aspect_preserved(w: nat, h: nat, bound: nat)
    requires
        w >= 1,
        h >= 1,
        bound >= 1,
        !fits(w, h, bound),
    ensures
        ({
            let (nw, nh) = spec_target_dims(w, h, bound);
            &&& w > h ==> nw == bound && nh * w <= h * bound < (nh + 1) * w
            &&& w <= h ==> nh == bound && nw * h <= w * bound < (nw + 1) * h
        }),
{
    if w > h {
        assert((h * bound / w) * w <= h * bound < (h * bound / w + 1) * w) by (nonlinear_arith)
            requires
                1 <= w,
        ;
    } else {
        assert((w * bound / h) * h <= w * bound < (w * bound / h + 1) * h) by (nonlinear_arith)
            requires
                1 <= h,
        ;
    }
}

/// Law: resizing is idempotent. Applying the transform to dimensions that it
/// already produced, with the same bound, changes nothing: the first
/// application leaves both sides within the bound, so the second application
/// passes them through.
pub proof fn lemma_resize_idempotent(w: nat, h: nat, bound: nat)
    requires
        w >= 1,
        h >= 1,
        bound >= 1,
    ensures
        ({
            let (nw, nh) = spec_target_dims(w, h, bound);
            spec_target_dims(nw, nh, bound) == (nw, nh)
        }),
{
    if !fits(w, h, bound) {
        lemma_larger_side_equals_bound(w, h, bound);
    }
}

} // verus!
