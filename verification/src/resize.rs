//! Target-dimension computation for an aspect-ratio-preserving video resize.
//!
//! A source frame of `ow x oh` pixels must be fitted into a bounding box of
//! `mw x mh` pixels: a source that already fits is kept as it is; otherwise
//! both dimensions are scaled down by the same factor, forced to even values
//! (the target codec's chroma subsampling needs even dimensions), and, when
//! forcing evenness bent the aspect ratio by more than 1%, one dimension is
//! recomputed from the other with the source ratio.
//!
//! All ratios are handled as exact fractions: every comparison and scaling
//! step below is written cleared of divisions, over integers.

use vstd::prelude::*;
use vstd::arithmetic::div_mod::{
    lemma_div_pos_is_pos, lemma_fundamental_div_mod, lemma_mod_bound, lemma_mod_multiples_basic,
    lemma_multiply_divide_le, lemma_multiply_divide_lt,
};
use vstd::arithmetic::mul::{lemma_mul_nonnegative, lemma_mul_upper_bound};
use vstd::math::abs;

verus! {

/// The largest even integer at or below `n`.
pub open spec fn even_floor(n: int) -> int {
    n - n % 2
}

/// The source already fits inside the bounding box.
pub open spec fn fits_bounds(ow: int, oh: int, mw: int, mh: int) -> bool {
    ow <= mw && oh <= mh
}

/// Dimensions after scaling the source by min(mw/ow, mh/oh), each rounded
/// down. The comparison mw/ow <= mh/oh is written as mw*oh <= mh*ow, and the
/// scaled values as exact products before the one rounding division.
pub open spec fn scaled_dims(ow: int, oh: int, mw: int, mh: int) -> (int, int)
    recommends
        ow >= 1,
        oh >= 1,
{
    if mw * oh <= mh * ow {
        (mw, (oh * mw) / ow)
    } else {
        ((ow * mh) / oh, mh)
    }
}

/// The pair (w, h) keeps the source aspect ratio ow/oh up to 1%:
/// |ow/oh - w/h| <= 1/100, multiplied out by the positive oh*h.
pub open spec fn aspect_within_tolerance(ow: int, oh: int, w: int, h: int) -> bool {
    100 * abs(ow * h - w * oh) <= oh * h
}

/// Recompute one even dimension from the other with the source ratio: the
/// height from the width when the width is the short side relative to the
/// ratio, else the width from the height.
pub open spec fn corrected_dims(ow: int, oh: int, ew: int, eh: int) -> (int, int)
    recommends
        ow >= 1,
        oh >= 1,
{
    if ew * oh < eh * ow {
        (ew, even_floor((ew * oh) / ow))
    } else {
        (even_floor((eh * ow) / oh), eh)
    }
}

/// Target dimensions for resizing an `ow x oh` source into an `mw x mh`
/// bounding box: unchanged when it fits; otherwise scaled down uniformly,
/// forced even, and corrected when forcing evenness bent the ratio by more
/// than 1%.
pub open spec fn resize_dims(ow: int, oh: int, mw: int, mh: int) -> (int, int)
    recommends
        ow >= 1,
        oh >= 1,
{
    if fits_bounds(ow, oh, mw, mh) {
        (ow, oh)
    } else {
        let s = scaled_dims(ow, oh, mw, mh);
        let ew = even_floor(s.0);
        let eh = even_floor(s.1);
        if !aspect_within_tolerance(ow, oh, ew, eh) {
            corrected_dims(ow, oh, ew, eh)
        } else {
            (ew, eh)
        }
    }
}

/// `even_floor` stays within 2 below its argument and is even.
proof fn lemma_even_floor(n: int)
    requires
        n >= 0,
    ensures
        even_floor(n) % 2 == 0,
        0 <= even_floor(n) <= n,
        n < even_floor(n) + 2,
{
    lemma_mod_bound(n, 2);
    lemma_fundamental_div_mod(n, 2);
    assert(even_floor(n) == 2 * (n / 2));
    lemma_mod_multiples_basic(n / 2, 2);
}

/// Dividing `x` by `d` and forcing the quotient even loses less than `2 * d`:
/// the product back is at most `x` and misses it by less than `2 * d`.
proof fn lemma_even_quotient_close(x: int, d: int)
    requires
        x >= 0,
        d >= 1,
    ensures
        0 <= x - d * even_floor(x / d) < 2 * d,
        even_floor(x / d) >= 0,
{
    let q = x / d;
    let r = x % d;
    lemma_fundamental_div_mod(x, d);
    lemma_mod_bound(x, d);
    lemma_div_pos_is_pos(x, d);
    lemma_mod_bound(q, 2);
    lemma_even_floor(q);
    let c = even_floor(q);
    assert(d * c == d * q - d * (q % 2)) by (nonlinear_arith)
        requires
            c == q - q % 2,
    ;
    assert(0 <= d * (q % 2) <= d) by (nonlinear_arith)
        requires
            d >= 1,
            0 <= q % 2 <= 1,
    ;
}

/// A source that already fits inside the bounding box is kept unchanged.
pub proof fn lemma_source_within_bounds_unchanged(ow: int, oh: int, mw: int, mh: int)
    requires
        1 <= ow <= mw,
        1 <= oh <= mh,
    ensures
        resize_dims(ow, oh, mw, mh) == (ow, oh),
{
}

/// When the source exceeds the bounding box, both target dimensions are even.
pub proof fn lemma_oversize_output_even(ow: int, oh: int, mw: int, mh: int)
    requires
        ow >= 1,
        oh >= 1,
        mw >= 0,
        mh >= 0,
        !fits_bounds(ow, oh, mw, mh),
    ensures
        resize_dims(ow, oh, mw, mh).0 % 2 == 0,
        resize_dims(ow, oh, mw, mh).1 % 2 == 0,
{
    let s = scaled_dims(ow, oh, mw, mh);
    lemma_mul_nonnegative(oh, mw);
    lemma_mul_nonnegative(ow, mh);
    lemma_div_pos_is_pos(oh * mw, ow);
    lemma_div_pos_is_pos(ow * mh, oh);
    lemma_even_floor(s.0);
    lemma_even_floor(s.1);
    let ew = even_floor(s.0);
    let eh = even_floor(s.1);
    if !aspect_within_tolerance(ow, oh, ew, eh) {
        lemma_mul_nonnegative(ew, oh);
        lemma_mul_nonnegative(eh, ow);
        lemma_div_pos_is_pos(ew * oh, ow);
        lemma_div_pos_is_pos(eh * ow, oh);
        lemma_even_floor((ew * oh) / ow);
        lemma_even_floor((eh * ow) / oh);
    }
}

/// The target never exceeds the bounding box, and neither side is negative.
pub proof fn lemma_output_fits_box(ow: int, oh: int, mw: int, mh: int)
    requires
        ow >= 1,
        oh >= 1,
        mw >= 0,
        mh >= 0,
    ensures
        0 <= resize_dims(ow, oh, mw, mh).0 <= mw,
        0 <= resize_dims(ow, oh, mw, mh).1 <= mh,
{
    if !fits_bounds(ow, oh, mw, mh) {
        let s = scaled_dims(ow, oh, mw, mh);
        lemma_mul_nonnegative(oh, mw);
        lemma_mul_nonnegative(ow, mh);
        if mw * oh <= mh * ow {
            lemma_multiply_divide_le(oh * mw, ow, mh);
        } else {
            lemma_multiply_divide_lt(ow * mh, oh, mw);
        }
        lemma_div_pos_is_pos(oh * mw, ow);
        lemma_div_pos_is_pos(ow * mh, oh);
        lemma_even_floor(s.0);
        lemma_even_floor(s.1);
        let ew = even_floor(s.0);
        let eh = even_floor(s.1);
        if !aspect_within_tolerance(ow, oh, ew, eh) {
            lemma_mul_nonnegative(ew, oh);
            lemma_mul_nonnegative(eh, ow);
            lemma_div_pos_is_pos(ew * oh, ow);
            lemma_div_pos_is_pos(eh * ow, oh);
            lemma_even_floor((ew * oh) / ow);
            lemma_even_floor((eh * ow) / oh);
            if ew * oh < eh * ow {
                lemma_multiply_divide_lt(ew * oh, ow, eh);
            } else {
                lemma_multiply_divide_le(eh * ow, oh, ew);
            }
        }
    }
}

/// When the source exceeds the bounding box, the target keeps the source
/// aspect ratio to within 1% — as long as the target is not degenerate, that
/// is, its height reaches 200 and stands in proportion to the source sides
/// (`200 * ow <= oh * h`). A very elongated source squeezed into a small box
/// can end with a side of 0, where no ratio bound can hold.
pub proof fn lemma_oversize_output_aspect(ow: int, oh: int, mw: int, mh: int)
    requires
        ow >= 1,
        oh >= 1,
        mw >= 0,
        mh >= 0,
        !fits_bounds(ow, oh, mw, mh),
        200 <= resize_dims(ow, oh, mw, mh).1,
        200 * ow <= oh * resize_dims(ow, oh, mw, mh).1,
    ensures
        aspect_within_tolerance(
            ow,
            oh,
            resize_dims(ow, oh, mw, mh).0,
            resize_dims(ow, oh, mw, mh).1,
        ),
{
    let s = scaled_dims(ow, oh, mw, mh);
    let ew = even_floor(s.0);
    let eh = even_floor(s.1);
    if !aspect_within_tolerance(ow, oh, ew, eh) {
        if ew * oh < eh * ow {
            let x = ew * oh;
            let ch = even_floor(x / ow);
            lemma_mul_nonnegative(ew, oh);
            lemma_even_quotient_close(x, ow);
            assert(abs(ow * ch - ew * oh) == x - ow * ch);
            assert(resize_dims(ow, oh, mw, mh).1 == ch);
            assert(100 * (x - ow * ch) <= 200 * ow - 100);
            assert(oh * ch >= 200 * ow);
        } else {
            let x = eh * ow;
            let cw = even_floor(x / oh);
            lemma_mul_nonnegative(eh, ow);
            lemma_even_quotient_close(x, oh);
            assert(abs(ow * eh - cw * oh) == x - oh * cw);
            assert(resize_dims(ow, oh, mw, mh).1 == eh);
            assert(100 * (x - oh * cw) <= 200 * oh - 100);
            assert(oh * eh >= 200 * oh) by (nonlinear_arith)
                requires
                    oh >= 1,
                    eh >= 200,
            ;
        }
    }
}

/// Compute the resize target dimensions.
pub fn compute_resize_dimensions(ow: u32, oh: u32, mw: u32, mh: u32) -> (r: (u32, u32))
    requires
        ow >= 1,
        oh >= 1,
    ensures
        r.0 == resize_dims(ow as int, oh as int, mw as int, mh as int).0,
        r.1 == resize_dims(ow as int, oh as int, mw as int, mh as int).1,
{
    if ow <= mw && oh <= mh {
        return (ow, oh);
    }
    let ghost owi = ow as int;
    let ghost ohi = oh as int;
    let ghost mwi = mw as int;
    let ghost mhi = mh as int;
    let ow64 = ow as u64;
    let oh64 = oh as u64;
    let mw64 = mw as u64;
    let mh64 = mh as u64;
    proof {
        lemma_mul_upper_bound(mw64 as int, 0xffff_ffff, oh64 as int, 0xffff_ffff);
        lemma_mul_upper_bound(mh64 as int, 0xffff_ffff, ow64 as int, 0xffff_ffff);
        lemma_mul_upper_bound(oh64 as int, 0xffff_ffff, mw64 as int, 0xffff_ffff);
        lemma_mul_upper_bound(ow64 as int, 0xffff_ffff, mh64 as int, 0xffff_ffff);
    }
    let (sw, sh): (u64, u64) = if mw64 * oh64 <= mh64 * ow64 {
        let q = (oh64 * mw64) / ow64;
        proof {
            lemma_multiply_divide_le((oh64 * mw64) as int, ow64 as int, mh64 as int);
        }
        (mw64, q)
    } else {
        let q = (ow64 * mh64) / oh64;
        proof {
            lemma_multiply_divide_lt((ow64 * mh64) as int, oh64 as int, mw64 as int);
        }
        (q, mh64)
    };
    proof {
        assert(scaled_dims(owi, ohi, mwi, mhi) == (sw as int, sh as int));
        lemma_even_floor(sw as int);
        lemma_even_floor(sh as int);
    }
    let ew = sw - sw % 2;
    let eh = sh - sh % 2;
    proof {
        assert(ew as int == even_floor(sw as int));
        assert(eh as int == even_floor(sh as int));
        lemma_mul_upper_bound(ow64 as int, 0xffff_ffff, eh as int, 0xffff_ffff);
        lemma_mul_upper_bound(ew as int, 0xffff_ffff, oh64 as int, 0xffff_ffff);
    }
    let wide = ow64 * eh;
    let tall = ew * oh64;
    let diff = if wide >= tall {
        wide - tall
    } else {
        tall - wide
    };
    proof {
        assert(diff as int == abs(owi * (eh as int) - (ew as int) * ohi));
        lemma_mul_upper_bound(oh64 as int, 0xffff_ffff, eh as int, 0xffff_ffff);
    }
    let needs_fix = 100u128 * (diff as u128) > (oh64 as u128) * (eh as u128);
    proof {
        assert(needs_fix == !aspect_within_tolerance(owi, ohi, ew as int, eh as int));
    }
    if needs_fix {
        if tall < wide {
            let q = tall / ow64;
            proof {
                assert(tall as int <= owi * (eh as int));
                lemma_multiply_divide_lt(tall as int, ow64 as int, eh as int);
                lemma_even_floor(q as int);
            }
            let ch = q - q % 2;
            (ew as u32, ch as u32)
        } else {
            let q = wide / oh64;
            proof {
                assert(wide as int <= ohi * (ew as int));
                lemma_multiply_divide_le(wide as int, oh64 as int, ew as int);
                lemma_even_floor(q as int);
            }
            let cw = q - q % 2;
            (cw as u32, eh as u32)
        }
    } else {
        (ew as u32, eh as u32)
    }
}

} // verus!
