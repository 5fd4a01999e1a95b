use vstd::prelude::*;

use crate::template::AvatarFit;

verus! {

/// A rectangle over wide integers: x, y, width, height.  Destination
/// rectangles leave `i32` because centering offsets may.
pub type Rect64 = (i64, i64, i64, i64);

/// A source-space rectangle, in pixels of the source image.
pub type SrcRect = (i64, i64, i64, i64);

/// How one frame is mapped into its placement rectangle: the source region
/// sampled and the destination rectangle filled.
#[derive(Debug, Clone, Copy)]
pub struct FitMapping {
    pub src: Option<SrcRect>,
    pub dst: Rect64,
}

/// The destination rectangle CONTAIN yields: the source scaled uniformly by
/// `min(w/iw, h/ih)` and centered.  Integer divisions floor.
pub open spec fn spec_contain_dst(x: int, y: int, w: int, h: int, iw: int, ih: int) -> (
    int,
    int,
    int,
    int,
) {
    if w * ih <= h * iw {
        let sh = ih * w / iw;
        (x, y + (h - sh) / 2, w, sh)
    } else {
        let sw = iw * h / ih;
        (x + (w - sw) / 2, y, sw, h)
    }
}

/// The source rectangle COVER samples: the centered region of the source
/// with the destination's aspect ratio.  Integer divisions floor.
pub open spec fn spec_cover_src(w: int, h: int, iw: int, ih: int) -> (int, int, int, int) {
    if w <= 0 || h <= 0 {
        (0, 0, iw, ih)
    } else if w * ih >= h * iw {
        let sh = h * iw / w;
        let pdy = (ih - sh) / 2;
        (0, pdy, iw, ih - 2 * pdy)
    } else {
        let sw = w * ih / h;
        let pdx = (iw - sw) / 2;
        (pdx, 0, iw - 2 * pdx, ih)
    }
}

/// The full mapping of a frame of size `iw`×`ih` into the rectangle
/// `(x, y, w, h)` under a fit policy.  FILL stretches; CONTAIN letterboxes;
/// COVER fills the whole rectangle and crops the source, ignoring any
/// declared crop region.
pub open spec fn spec_fit_mapping(
    fit: AvatarFit,
    x: int,
    y: int,
    w: int,
    h: int,
    iw: int,
    ih: int,
    crop: Option<(int, int, int, int)>,
) -> ((Option<(int, int, int, int)>), (int, int, int, int)) {
    match fit {
        AvatarFit::FILL => (crop, (x, y, w, h)),
        AvatarFit::CONTAIN => (crop, spec_contain_dst(x, y, w, h, iw, ih)),
        AvatarFit::COVER => (Some(spec_cover_src(w, h, iw, ih)), (x, y, w, h)),
    }
}

/// CONTAIN never scales the source beyond the destination rectangle: the
/// drawn rectangle lies inside the placement rectangle.
pub proof fn lemma_contain_within(x: int, y: int, w: int, h: int, iw: int, ih: int)
    requires
        iw >= 1,
        ih >= 1,
        w >= 0,
        h >= 0,
    ensures
        ({
            let (dx, dy, dw, dh) = spec_contain_dst(x, y, w, h, iw, ih);
            &&& 0 <= dw <= w
            &&& 0 <= dh <= h
            &&& x <= dx && dx + dw <= x + w
            &&& y <= dy && dy + dh <= y + h
        }),
{
    if w * ih <= h * iw {
        let sh = ih * w / iw;
        assert(sh == w * ih / iw);
        vstd::arithmetic::div_mod::lemma_div_is_ordered(w * ih, h * iw, iw);
        vstd::arithmetic::div_mod::lemma_div_multiples_vanish(h, iw);
        assert(sh <= h);
        vstd::arithmetic::div_mod::lemma_div_pos_is_pos(w * ih, iw);
        assert((h - sh) / 2 >= 0) by {
            vstd::arithmetic::div_mod::lemma_div_pos_is_pos(h - sh, 2);
        }
        assert((h - sh) / 2 + sh <= h) by {
            vstd::arithmetic::div_mod::lemma_div_is_ordered(h - sh, 2 * (h - sh), 2);
            vstd::arithmetic::div_mod::lemma_div_multiples_vanish(h - sh, 2);
        }
    } else {
        let sw = iw * h / ih;
        vstd::arithmetic::mul::lemma_mul_is_commutative(iw, h);
        assert(sw == h * iw / ih);
        vstd::arithmetic::div_mod::lemma_div_is_ordered(h * iw, w * ih, ih);
        vstd::arithmetic::mul::lemma_mul_is_commutative(w, ih);
        vstd::arithmetic::div_mod::lemma_div_multiples_vanish(w, ih);
        assert(sw <= w);
        vstd::arithmetic::div_mod::lemma_div_pos_is_pos(h * iw, ih);
        assert((w - sw) / 2 >= 0) by {
            vstd::arithmetic::div_mod::lemma_div_pos_is_pos(w - sw, 2);
        }
        assert((w - sw) / 2 + sw <= w) by {
            vstd::arithmetic::div_mod::lemma_div_is_ordered(w - sw, 2 * (w - sw), 2);
            vstd::arithmetic::div_mod::lemma_div_multiples_vanish(w - sw, 2);
        }
    }
}

/// COVER never samples outside the source image: the sampled region lies
/// inside `[0, iw] × [0, ih]`.
pub proof fn lemma_cover_src_within(w: int, h: int, iw: int, ih: int)
    requires
        iw >= 1,
        ih >= 1,
    ensures
        ({
            let (sx, sy, sw, sh) = spec_cover_src(w, h, iw, ih);
            &&& 0 <= sx && 0 <= sy
            &&& 0 <= sw && 0 <= sh
            &&& sx + sw <= iw
            &&& sy + sh <= ih
        }),
{
    if w <= 0 || h <= 0 {
    } else if w * ih >= h * iw {
        let sh = h * iw / w;
        vstd::arithmetic::div_mod::lemma_div_is_ordered(h * iw, w * ih, w);
        vstd::arithmetic::div_mod::lemma_div_multiples_vanish(ih, w);
        assert(sh <= ih);
        vstd::arithmetic::div_mod::lemma_div_pos_is_pos(h * iw, w);
        let pdy = (ih - sh) / 2;
        vstd::arithmetic::div_mod::lemma_div_pos_is_pos(ih - sh, 2);
        assert(pdy >= 0);
        assert(2 * pdy <= ih - sh) by {
            vstd::arithmetic::div_mod::lemma_fundamental_div_mod(ih - sh, 2);
        }
    } else {
        let sw = w * ih / h;
        vstd::arithmetic::div_mod::lemma_div_is_ordered(w * ih, h * iw, h);
        vstd::arithmetic::div_mod::lemma_div_multiples_vanish(iw, h);
        assert(sw <= iw);
        vstd::arithmetic::div_mod::lemma_div_pos_is_pos(w * ih, h);
        let pdx = (iw - sw) / 2;
        vstd::arithmetic::div_mod::lemma_div_pos_is_pos(iw - sw, 2);
        assert(pdx >= 0);
        assert(2 * pdx <= iw - sw) by {
            vstd::arithmetic::div_mod::lemma_fundamental_div_mod(iw - sw, 2);
        }
    }
}

/// FILL and COVER both fill the placement rectangle exactly, whatever the
/// source's aspect ratio.
pub proof fn lemma_fill_cover_exact(
    fit: AvatarFit,
    x: int,
    y: int,
    w: int,
    h: int,
    iw: int,
    ih: int,
    crop: Option<(int, int, int, int)>,
)
    requires
        fit == AvatarFit::FILL || fit == AvatarFit::COVER,
    ensures
        spec_fit_mapping(fit, x, y, w, h, iw, ih, crop).1 == (x, y, w, h),
{
}

/// Truncating division of nonnegative wide values agrees with flooring.
fn div_nonneg(a: i64, b: i64) -> (r: i64)
    requires
        a >= 0,
        b >= 1,
    ensures
        r == a as int / b as int,
{
    a / b
}

/// Computes the source and destination rectangles for drawing one frame
/// into its placement rectangle.  Negative placement sizes are clamped to
/// zero before the fit policy is applied.
pub fn fit_mapping(fit: &AvatarFit, x: i32, y: i32, w: i32, h: i32, iw: i32, ih: i32, crop: Option<
    (i32, i32, i32, i32),
>) -> (r: FitMapping)
    requires
        iw >= 1,
        ih >= 1,
    ensures
        ({
            let wc = if w >= 0 { w as int } else { 0 };
            let hc = if h >= 0 { h as int } else { 0 };
            let cropv = match crop {
                Some(c) => Some((c.0 as int, c.1 as int, c.2 as int, c.3 as int)),
                None => None,
            };
            let (src, dst) = spec_fit_mapping(*fit, x as int, y as int, wc, hc, iw as int, ih as int, cropv);
            &&& (match (r.src, src) {
                (Some(a), Some(b)) => a.0 == b.0 && a.1 == b.1 && a.2 == b.2 && a.3 == b.3,
                (None, None) => true,
                _ => false,
            })
            &&& r.dst.0 == dst.0 && r.dst.1 == dst.1 && r.dst.2 == dst.2 && r.dst.3 == dst.3
        }),
{
    let w: i64 = if w >= 0 {
        w as i64
    } else {
        0
    };
    let h: i64 = if h >= 0 {
        h as i64
    } else {
        0
    };
    let x: i64 = x as i64;
    let y: i64 = y as i64;
    let iw: i64 = iw as i64;
    let ih: i64 = ih as i64;
    let crop64: Option<SrcRect> = match crop {
        Some(c) => Some((c.0 as i64, c.1 as i64, c.2 as i64, c.3 as i64)),
        None => None,
    };
    proof {
        vstd::arithmetic::mul::lemma_mul_upper_bound(w as int, i32::MAX as int, ih as int, i32::MAX as int);
        vstd::arithmetic::mul::lemma_mul_upper_bound(h as int, i32::MAX as int, iw as int, i32::MAX as int);
        vstd::arithmetic::mul::lemma_mul_upper_bound(ih as int, i32::MAX as int, w as int, i32::MAX as int);
        vstd::arithmetic::mul::lemma_mul_upper_bound(iw as int, i32::MAX as int, h as int, i32::MAX as int);
        vstd::arithmetic::mul::lemma_mul_nonnegative(w as int, ih as int);
        vstd::arithmetic::mul::lemma_mul_nonnegative(h as int, iw as int);
        vstd::arithmetic::mul::lemma_mul_nonnegative(ih as int, w as int);
        vstd::arithmetic::mul::lemma_mul_nonnegative(iw as int, h as int);
    }
    match fit {
        AvatarFit::FILL => FitMapping { src: crop64, dst: (x, y, w, h) },
        AvatarFit::CONTAIN => {
            if w * ih <= h * iw {
                let sh = div_nonneg(ih * w, iw);
                proof {
                    vstd::arithmetic::div_mod::lemma_div_is_ordered(w as int * ih as int, h as int * iw as int, iw as int);
                    vstd::arithmetic::div_mod::lemma_div_multiples_vanish(h as int, iw as int);
                    vstd::arithmetic::div_mod::lemma_div_pos_is_pos(ih as int * w as int, iw as int);
                }
                let off = div_nonneg(h - sh, 2);
                FitMapping { src: crop64, dst: (x, y + off, w, sh) }
            } else {
                let sw = div_nonneg(iw * h, ih);
                proof {
                    vstd::arithmetic::div_mod::lemma_div_is_ordered(h as int * iw as int, w as int * ih as int, ih as int);
                    vstd::arithmetic::div_mod::lemma_div_multiples_vanish(w as int, ih as int);
                    vstd::arithmetic::div_mod::lemma_div_pos_is_pos(iw as int * h as int, ih as int);
                }
                let off = div_nonneg(w - sw, 2);
                FitMapping { src: crop64, dst: (x + off, y, sw, h) }
            }
        },
        AvatarFit::COVER => {
            let src: SrcRect = if w <= 0 || h <= 0 {
                (0, 0, iw, ih)
            } else if w * ih >= h * iw {
                let sh = div_nonneg(h * iw, w);
                proof {
                    vstd::arithmetic::div_mod::lemma_div_is_ordered(h as int * iw as int, w as int * ih as int, w as int);
                    vstd::arithmetic::div_mod::lemma_div_multiples_vanish(ih as int, w as int);
                    vstd::arithmetic::div_mod::lemma_div_pos_is_pos(h as int * iw as int, w as int);
                }
                let pdy = div_nonneg(ih - sh, 2);
                proof {
                    vstd::arithmetic::div_mod::lemma_div_pos_is_pos(ih as int - sh as int, 2);
                    vstd::arithmetic::div_mod::lemma_fundamental_div_mod(ih as int - sh as int, 2);
                }
                (0, pdy, iw, ih - 2 * pdy)
            } else {
                let sw = div_nonneg(w * ih, h);
                proof {
                    vstd::arithmetic::div_mod::lemma_div_is_ordered(w as int * ih as int, h as int * iw as int, h as int);
                    vstd::arithmetic::div_mod::lemma_div_multiples_vanish(iw as int, h as int);
                    vstd::arithmetic::div_mod::lemma_div_pos_is_pos(w as int * ih as int, h as int);
                }
                let pdx = div_nonneg(iw - sw, 2);
                proof {
                    vstd::arithmetic::div_mod::lemma_div_pos_is_pos(iw as int - sw as int, 2);
                    vstd::arithmetic::div_mod::lemma_fundamental_div_mod(iw as int - sw as int, 2);
                }
                (pdx, 0, iw - 2 * pdx, ih)
            };
            FitMapping { src: Some(src), dst: (x, y, w, h) }
        },
    }
}

} // verus!
