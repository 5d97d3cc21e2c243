//! Pixel arithmetic and buffer layout for drawing the landscape UI into the
//! portrait DRM framebuffer of the bottom panel.
use vstd::arithmetic::div_mod::lemma_fundamental_div_mod_converse;
use vstd::arithmetic::mul::lemma_mul_inequality;
use vstd::prelude::*;

verus! {

/// One XRGB8888 framebuffer pixel, in memory order (blue first).
#[derive(Debug, Clone, Copy, Default, PartialEq, Eq)]
pub struct Xrgb8888Pixel {
    pub b: u8,
    pub g: u8,
    pub r: u8,
    pub x: u8,
}

/// A colour with its channels premultiplied by alpha, as the software
/// renderer hands it over for blending.
#[derive(Debug, Clone, Copy, PartialEq, Eq)]
pub struct PremultipliedRgba {
    pub red: u8,
    pub green: u8,
    pub blue: u8,
    pub alpha: u8,
}

/// "Source over" for one channel: the old value weighted by the remaining
/// transparency plus the premultiplied source, in 16-bit arithmetic.
pub open spec fn blend_sum(dst: u8, src: u8, alpha: u8) -> int {
    dst * (255 - alpha) + src * 255
}

/// The blended channel value before it is narrowed back to a byte.
pub open spec fn blend_channel(dst: u8, src: u8, alpha: u8) -> int {
    blend_sum(dst, src, alpha) / 255
}

/// The 16-bit intermediate of the blend does not overflow.
pub open spec fn blend_fits(dst: u8, src: u8, alpha: u8) -> bool {
    blend_sum(dst, src, alpha) <= u16::MAX
}

impl Xrgb8888Pixel {
    pub fn blend(&mut self, color: PremultipliedRgba)
        requires
            blend_fits(old(self).r, color.red, color.alpha),
            blend_fits(old(self).g, color.green, color.alpha),
            blend_fits(old(self).b, color.blue, color.alpha),
        ensures
            final(self).r == blend_channel(old(self).r, color.red, color.alpha) as u8,
            final(self).g == blend_channel(old(self).g, color.green, color.alpha) as u8,
            final(self).b == blend_channel(old(self).b, color.blue, color.alpha) as u8,
            final(self).x == 0xFF,
    {
        let a = color.alpha as u16;
        let inv = 255 - a;
        proof {
            lemma_blend_terms(self.r, color.red, color.alpha);
            lemma_blend_terms(self.g, color.green, color.alpha);
            lemma_blend_terms(self.b, color.blue, color.alpha);
        }
        self.r = ((self.r as u16 * inv + color.red as u16 * 255) / 255) as u8;
        self.g = ((self.g as u16 * inv + color.green as u16 * 255) / 255) as u8;
        self.b = ((self.b as u16 * inv + color.blue as u16 * 255) / 255) as u8;
        self.x = 0xFF;
    }

    pub fn from_rgb(r: u8, g: u8, b: u8) -> (p: Self)
        ensures
            p == (Xrgb8888Pixel { b, g, r, x: 0xFF }),
    {
        Self { b, g, r, x: 0xFF }
    }
}

proof fn lemma_blend_terms(dst: u8, src: u8, alpha: u8)
    ensures
        0 <= dst * (255 - alpha) <= dst * (255 - alpha) + src * 255,
        0 <= src * 255,
        blend_sum(dst, src, alpha) == dst * (255 - alpha) + src * 255,
{
    assert(0 <= dst * (255 - alpha)) by (nonlinear_arith)
        requires
            0 <= dst,
            alpha <= 255,
    ;
    assert(0 <= src * 255) by (nonlinear_arith)
        requires
            0 <= src,
    ;
}

/// A properly premultiplied colour (no channel above its alpha) always blends
/// without overflow, and the blended channel fits in a byte unchanged.
pub proof fn lemma_premultiplied_blend_fits(dst: u8, src: u8, alpha: u8)
    requires
        src <= alpha,
    ensures
        blend_fits(dst, src, alpha),
        0 <= blend_channel(dst, src, alpha) <= 255,
{
    assert(dst * (255 - alpha) + src * 255 <= 255 * 255) by (nonlinear_arith)
        requires
            dst <= 255,
            src <= alpha,
            alpha <= 255,
    ;
    assert(0 <= dst * (255 - alpha)) by (nonlinear_arith)
        requires
            0 <= dst,
            alpha <= 255,
    ;
}

/// The landscape pixel shown at portrait index `d`, if any: portrait row
/// `q = d / stride` and column `c = d % stride` show landscape column
/// `lw - 1 - q` of landscape row `c` (a quarter turn clockwise).
pub open spec fn rotated_source(d: int, lw: int, lh: int, stride: int) -> Option<int> {
    let q = d / stride;
    let c = d % stride;
    if q < lw && c < lh {
        Some(c * lw + (lw - 1 - q))
    } else {
        None
    }
}

/// Whether portrait index `d` has been written once the first `rows`
/// landscape rows are done and, in landscape row `rows`, the first `cols`
/// columns.
spec fn rotated_written(d: int, lw: int, lh: int, stride: int, rows: int, cols: int) -> bool {
    let q = d / stride;
    let c = d % stride;
    &&& q < lw
    &&& c < lh
    &&& (c < rows || (c == rows && q >= lw - cols))
}

/// Portrait index written by the `k`-th copy of a rotation (landscape pixels
/// taken row by row): landscape pixel (lx, ly) = (k % lw, k / lw) goes to
/// portrait row `lw - 1 - lx`, column `ly`.
pub open spec fn rotation_target(k: int, lw: int, stride: int) -> int {
    (lw - 1 - k % lw) * stride + k / lw
}

/// The portrait buffer after the first `k` copies of a rotation, each landscape
/// pixel written in turn over whatever was there (later copies win where
/// targets coincide).
pub open spec fn portrait_writes(
    orig: Seq<Xrgb8888Pixel>,
    src: Seq<Xrgb8888Pixel>,
    lw: int,
    stride: int,
    k: nat,
) -> Seq<Xrgb8888Pixel>
    decreases k,
{
    if k == 0 {
        orig
    } else {
        portrait_writes(orig, src, lw, stride, (k - 1) as nat).update(
            rotation_target(k - 1, lw, stride),
            src[k - 1],
        )
    }
}

/// Copy the landscape image `src` (`lw` × `lh`, row-major) into the portrait
/// framebuffer `dst` (rows of `stride` pixels), rotated 90° clockwise:
/// landscape (lx, ly) lands at portrait row `lw - 1 - lx`, column `ly`.
/// Pixels that no landscape pixel maps to are left as they were.
///
/// When the portrait rows are at least `lh` pixels wide (a DRM dumb buffer's
/// pitch always covers its width) this is exactly the rotated image; with
/// narrower rows the copies overlap and the later landscape pixel wins.
pub fn rotate_into_portrait(
    src: &[Xrgb8888Pixel],
    lw: usize,
    lh: usize,
    dst: &mut [Xrgb8888Pixel],
    stride: usize,
)
    requires
        lw > 0 && lh > 0 ==> {
            &&& lw * lh <= src@.len()
            &&& (lw - 1) * stride + lh <= old(dst)@.len()
        },
    ensures
        final(dst)@.len() == old(dst)@.len(),
        lw > 0 && lh > 0 ==> final(dst)@ == portrait_writes(old(dst)@, src@, lw as int, stride as int, (lw * lh) as nat),
        lw > 0 && 0 < lh <= stride ==> forall|d: int| 0 <= d < old(dst)@.len() ==> match #[trigger] rotated_source(d, lw as int, lh as int, stride as int) {
            Some(s) => final(dst)@[d] == src@[s],
            None => final(dst)@[d] == old(dst)@[d],
        },
        lw == 0 || lh == 0 ==> final(dst)@ == old(dst)@,
{
    if lw == 0 || lh == 0 {
        return;
    }
    let n_src = src.len();
    let n_dst = dst.len();
    let ghost orig = dst@;
    let ghost (w, h, s) = (lw as int, lh as int, stride as int);
    let mut ly: usize = 0;
    while ly < lh
        invariant
            0 < lw,
            0 < lh,
            w == lw,
            h == lh,
            s == stride,
            lw * lh <= src@.len(),
            (lw - 1) * stride + lh <= orig.len(),
            dst@.len() == orig.len(),
            n_src == src@.len(),
            n_dst == orig.len(),
            ly <= lh,
            dst@ == portrait_writes(orig, src@, w, s, (ly * lw) as nat),
            h <= s ==> forall|d: int| 0 <= d < orig.len() ==> if #[trigger] rotated_written(d, w, h, s, ly as int, 0) {
                dst@[d] == src@[(d % s) * w + (w - 1 - d / s)]
            } else {
                dst@[d] == orig[d]
            },
        decreases lh - ly,
    {
        let mut lx: usize = 0;
        while lx < lw
            invariant
                0 < lw,
                0 < lh,
                w == lw,
                h == lh,
                s == stride,
                lw * lh <= src@.len(),
                (lw - 1) * stride + lh <= orig.len(),
                dst@.len() == orig.len(),
                n_src == src@.len(),
                n_dst == orig.len(),
                ly < lh,
                lx <= lw,
                dst@ == portrait_writes(orig, src@, w, s, (ly * lw + lx) as nat),
                h <= s ==> forall|d: int| 0 <= d < orig.len() ==> if #[trigger] rotated_written(d, w, h, s, ly as int, lx as int) {
                    dst@[d] == src@[(d % s) * w + (w - 1 - d / s)]
                } else {
                    dst@[d] == orig[d]
                },
            decreases lw - lx,
        {
            let px = ly;
            let py = (lw - 1) - lx;
            proof {
                lemma_mul_inequality(py as int, (lw - 1) as int, stride as int);
                lemma_mul_inequality(ly as int + 1, lh as int, lw as int);
                assert((ly as int + 1) * lw == ly * lw + lw) by (nonlinear_arith);
                assert(lh * lw == lw * lh) by (nonlinear_arith);
                assert(ly * lw + lx < src@.len());
                if lh <= stride {
                    lemma_fundamental_div_mod_converse(py * stride + px, s, py as int, px as int);
                }
            }
            let src_idx = ly * lw + lx;
            let dst_idx = py * stride + px;
            let ghost before = dst@;
            dst[dst_idx] = src[src_idx];
            proof {
                lemma_fundamental_div_mod_converse(src_idx as int, w, ly as int, lx as int);
                assert(rotation_target(src_idx as int, w, s) == dst_idx);
                assert(dst@ == portrait_writes(orig, src@, w, s, (ly * lw + lx + 1) as nat));

                if lh <= stride {
                    assert forall|d: int| 0 <= d < orig.len() implies if #[trigger] rotated_written(d, w, h, s, ly as int, lx + 1) {
                        dst@[d] == src@[(d % s) * w + (w - 1 - d / s)]
                    } else {
                        dst@[d] == orig[d]
                    } by {
                        if d == dst_idx {
                            assert(d / s == py && d % s == px);
                            assert((d % s) * w + (w - 1 - d / s) == src_idx);
                            assert(rotated_written(d, w, h, s, ly as int, lx + 1));
                            assert(dst@[d] == src@[(d % s) * w + (w - 1 - d / s)]);
                        } else {
                            assert(dst@[d] == before[d]);
                            let was = rotated_written(d, w, h, s, ly as int, lx as int);
                            let now = rotated_written(d, w, h, s, ly as int, lx + 1);
                            if now && !was {
                                // the only index that became written is the one just stored
                                let q = d / s;
                                let c = d % s;
                                assert(c == ly && q == w - 1 - lx);
                                vstd::arithmetic::div_mod::lemma_fundamental_div_mod(d, s);
                                assert(s * q == q * s) by (nonlinear_arith);
                                assert(d == dst_idx);
                            }
                            assert(was ==> now);
                            if now {
                                assert(was);
                                assert(before[d] == src@[(d % s) * w + (w - 1 - d / s)]);
                            } else {
                                assert(!was);
                                assert(before[d] == orig[d]);
                            }
                        }
                    }
                }
            }
            lx = lx + 1;
        }
        proof {
            assert(ly * lw + lw == (ly + 1) * lw) by (nonlinear_arith);

            if lh <= stride {
                assert forall|d: int| 0 <= d < orig.len() implies if #[trigger] rotated_written(d, w, h, s, ly + 1, 0) {
                    dst@[d] == src@[(d % s) * w + (w - 1 - d / s)]
                } else {
                    dst@[d] == orig[d]
                } by {
                    vstd::arithmetic::div_mod::lemma_div_pos_is_pos(d, s);
                    assert(rotated_written(d, w, h, s, ly as int, w) == rotated_written(d, w, h, s, ly + 1, 0));
                }
            }
        }
        ly = ly + 1;
    }
    proof {
        assert(lh * lw == lw * lh) by (nonlinear_arith);
        if lh <= stride {
            assert forall|d: int| 0 <= d < orig.len() implies match #[trigger] rotated_source(d, w, h, s) {
                Some(si) => dst@[d] == src@[si],
                None => dst@[d] == orig[d],
            } by {
                assert(rotated_written(d, w, h, s, h, 0) <==> rotated_source(d, w, h, s) is Some) by {
                    vstd::arithmetic::div_mod::lemma_mod_bound(d, s);
                }
            }
        }
    }
}

/// The span of the landscape buffer that line `line`, pixels
/// `range_start..range_end`, occupies in a buffer of rows of `stride` pixels,
/// or `None` when it would run past the end of the buffer (such lines are
/// skipped).
pub fn line_span(line: usize, stride: usize, range_start: usize, range_end: usize, buf_len: usize) -> (r:
    Option<(usize, usize)>)
    requires
        range_start <= range_end,
        line * stride + range_end <= usize::MAX,
    ensures
        r == (if line * stride + range_end <= buf_len {
            Some(((line * stride + range_start) as usize, (line * stride + range_end) as usize))
        } else {
            None
        }),
{
    proof {
        assert(0 <= line * stride) by (nonlinear_arith);
    }
    let start = line * stride + range_start;
    let end = line * stride + range_end;
    if end <= buf_len {
        Some((start, end))
    } else {
        None
    }
}

} // verus!
