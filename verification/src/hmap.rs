//! Height-field ray marching.
//!
//! A height map stores a `w x h` grid of (height, color) samples spaced
//! `ratio` apart, plus a bounding box over the full footprint that serves as
//! a cheap reject test.  Intersection marches from the box entry point: each
//! step interpolates the surrounding four samples by inverse-distance
//! weights, accepts when the interpolated height meets the ray within one
//! raw unit, and otherwise advances by the height error over the ray's
//! vertical slope.  The march gives up after a hundred steps, or as soon as
//! the accumulated distance turns negative (the surface lies behind).
//!
//! A malformed grid (fewer than two samples a side, a side beyond the
//! supported maximum, or a data row of the wrong length) never panics: the
//! query treats it as a miss.

use vstd::prelude::*;

verus! {

use vstd::arithmetic::mul::{lemma_mul_inequality, lemma_mul_upper_bound};
use crate::fixed::{
    Fx, fx_add, fx_sub, fx_mul, fx_div, fx_min, fx_max, fx_abs, fx_sqrt, FX_SCALE, FX_TWO,
};
use crate::vec3::{
    Vec3, v3_add, v3_sub, v3_scale, v3_scale_div, v3_length, v3_normalize, v3_cross, cross,
};
use crate::material::{Color, Material, color_add, color_scale, color_scale_div};
use crate::ray::{Ray, Inter};
use crate::object::{AABox, box_hit, box_faces};

/// Accept the march when the interpolated height is within one raw unit of
/// the ray's height: the tightest tolerance the scale can express, about a
/// hundred-thousandth of a unit.
pub const FX_TOL: i64 = 1;

/// Largest supported samples per grid side.
pub const HM_MAX_DIM: usize = 0x10_0000;

/// One height-map sample.
#[derive(Clone, Copy, PartialEq, Eq, Structural, Debug)]
pub struct HMData {
    pub h: Fx,
    pub color: Color,
}

/// A height-field surface with a precomputed bounding box.
#[derive(Debug)]
pub struct HeightMap {
    pub pos: Vec3,
    pub start: Vec3,
    pub ratio: Fx,
    pub w: usize,
    pub h: usize,
    pub data: Vec<HMData>,
    pub mat: Material,
    pub aabb: AABox,
}

/// The grid is usable: at least two samples a side, sides within the
/// supported maximum, and exactly one sample per grid point.
pub open spec fn hm_grid_ok(hm: HeightMap) -> bool {
    &&& 2 <= hm.w <= HM_MAX_DIM
    &&& 2 <= hm.h <= HM_MAX_DIM
    &&& hm.data@.len() == hm.w * hm.h
}

/// The greatest sampled height, folded in grid order from zero.
pub open spec fn max_height(data: Seq<HMData>) -> Fx
    decreases data.len(),
{
    if data.len() == 0 {
        Fx { raw: 0 }
    } else {
        fx_max(max_height(data.drop_last()), data.last().h)
    }
}

/// Distance from the corner of a unit square.
pub open spec fn corner_len(a: Fx, b: Fx) -> Fx {
    fx_sqrt(fx_add(fx_mul(a, a), fx_mul(b, b)))
}

/// Inverse-distance corner weight: one minus the distance, floored at zero.
pub open spec fn corner_weight(a: Fx, b: Fx) -> Fx {
    fx_sub(Fx { raw: FX_SCALE }, fx_min(corner_len(a, b), Fx { raw: FX_SCALE }))
}

/// The normal of a grid corner: the cross product of the edge vectors toward
/// its two grid neighbors, normalized.
pub open spec fn corner_normal(dh_z: Fx, dh_x: Fx) -> Vec3 {
    v3_normalize(
        v3_cross(
            Vec3 { x: Fx { raw: 0 }, y: dh_z, z: Fx { raw: FX_SCALE } },
            Vec3 { x: Fx { raw: FX_SCALE }, y: dh_x, z: Fx { raw: 0 } },
        ),
    )
}

/// The interpolated sample under `cur`, or `None` when `cur` projects
/// outside the grid (or the grid is malformed): the four surrounding
/// corners' heights, colors and normals, blended by inverse-distance
/// weights and divided by the weights' sum.
#[verifier::opaque]
pub open spec fn data_at_spec(hm: HeightMap, cur: Vec3) -> Option<(HMData, Vec3)> {
    if !hm_grid_ok(hm) {
        Option::None
    } else {
        let pos = v3_scale_div(v3_sub(cur, hm.start), hm.ratio);
        let x = pos.x;
        let y = pos.z;
        if x.raw < 0 || x.raw >= (hm.w - 1) * (FX_SCALE as int) || y.raw < 0 || y.raw >= (hm.h - 1)
            * (FX_SCALE as int) {
            Option::None
        } else {
            let xi = x.raw as int / (FX_SCALE as int);
            let yi = y.raw as int / (FX_SCALE as int);
            let dx = Fx { raw: (x.raw as int % (FX_SCALE as int)) as i64 };
            let dy = Fx { raw: (y.raw as int % (FX_SCALE as int)) as i64 };
            let one = Fx { raw: FX_SCALE };

            let r00 = corner_weight(dx, dy);
            let r01 = corner_weight(dx, fx_sub(one, dy));
            let r10 = corner_weight(fx_sub(one, dx), dy);
            let r11 = corner_weight(fx_sub(one, dx), fx_sub(one, dy));
            let rtotal = fx_add(fx_add(fx_add(r00, r01), r10), r11);

            let d00 = hm.data@[yi * hm.w + xi];
            let d01 = hm.data@[(yi + 1) * hm.w + xi];
            let d10 = hm.data@[yi * hm.w + xi + 1];
            let d11 = hm.data@[(yi + 1) * hm.w + xi + 1];

            let n00 = corner_normal(fx_sub(d01.h, d00.h), fx_sub(d10.h, d00.h));
            let n10 = corner_normal(fx_sub(d11.h, d10.h), fx_sub(d00.h, d10.h));
            let n01 = corner_normal(fx_sub(d00.h, d01.h), fx_sub(d11.h, d01.h));
            let n11 = corner_normal(fx_sub(d10.h, d11.h), fx_sub(d01.h, d11.h));

            let hh = fx_div(
                fx_add(
                    fx_add(fx_add(fx_mul(d00.h, r00), fx_mul(d01.h, r01)), fx_mul(d10.h, r10)),
                    fx_mul(d11.h, r11),
                ),
                rtotal,
            );
            let color = color_scale_div(
                color_add(
                    color_add(
                        color_add(color_scale(d00.color, r00), color_scale(d01.color, r01)),
                        color_scale(d10.color, r10),
                    ),
                    color_scale(d11.color, r11),
                ),
                rtotal,
            );
            let normal = v3_scale_div(
                v3_add(
                    v3_add(v3_add(v3_scale(n00, r00), v3_scale(n01, r01)), v3_scale(n10, r10)),
                    v3_scale(n11, r11),
                ),
                rtotal,
            );
            Option::Some((HMData { h: hh, color }, normal))
        }
    }
}

/// One march state-step at a time, with `fuel` steps left.
pub open spec fn march_spec(hm: HeightMap, ray: Ray, cur: Vec3, dist: Fx, fuel: nat) -> Option<
    Inter,
>
    decreases fuel,
{
    if fuel == 0 {
        Option::None
    } else {
        match data_at_spec(hm, cur) {
            Option::None => Option::None,
            Option::Some((data, normal)) => {
                let diff = fx_sub(data.h, cur.y);
                if fx_abs(diff).raw < FX_TOL {
                    Option::Some(
                        Inter {
                            dist,
                            pos: cur,
                            normal,
                            mat: Material {
                                color: data.color,
                                spec: hm.mat.spec,
                                diff: hm.mat.diff,
                                refr: hm.mat.refr,
                                refr_idx: hm.mat.refr_idx,
                                refl: hm.mat.refl,
                            },
                        },
                    )
                } else {
                    let step = fx_div(diff, ray.dir.y);
                    let dist2 = fx_add(dist, step);
                    if dist2.raw < 0 {
                        Option::None
                    } else {
                        march_spec(
                            hm,
                            ray,
                            v3_add(cur, v3_scale(ray.dir, step)),
                            dist2,
                            (fuel - 1) as nat,
                        )
                    }
                }
            },
        }
    }
}

/// The height-field intersection: reject against the bounding box, then
/// march up to a hundred steps from the box entry point.
#[verifier::opaque]
pub open spec fn height_map_hit(hm: HeightMap, ray: Ray) -> Option<Inter> {
    match box_hit(hm.aabb, ray) {
        Option::None => Option::None,
        Option::Some(enter) => march_spec(
            hm,
            ray,
            enter.pos,
            v3_length(v3_sub(ray.pos, enter.pos)),
            100,
        ),
    }
}

impl HMData {
    pub fn new(h: Fx, color: Color) -> (d: HMData)
        ensures
            d == (HMData { h, color }),
    {
        HMData { h, color }
    }
}

impl HeightMap {
    /// Build a height map and its bounding box, spanning the grid footprint
    /// and the greatest sampled height.
    pub fn new(pos: Vec3, ratio: Fx, w: usize, h: usize, data: Vec<HMData>, mat: Material) -> (hm:
        HeightMap)
        requires
            1 <= w <= HM_MAX_DIM,
            1 <= h <= HM_MAX_DIM,
            data@.len() == w * h,
        ensures
            hm.pos == pos,
            hm.ratio == ratio,
            hm.w == w,
            hm.h == h,
            hm.data@ == data@,
            hm.mat == mat,
            hm.start == (v3_sub(
                pos,
                v3_scale_div(hm_dim(w, h, ratio, max_height(data@)), Fx { raw: FX_TWO }),
            )),
            hm.aabb.faces@ == box_faces(
                v3_add(
                    hm.start,
                    v3_scale_div(
                        hm_footprint_dim(w, h, ratio, max_height(data@)),
                        Fx { raw: FX_TWO },
                    ),
                ),
                hm_footprint_dim(w, h, ratio, max_height(data@)),
                mat,
                false,
            ),
    {
        let mut maxh = Fx { raw: 0 };
        let mut i: usize = 0;
        proof {
            assert(data@.take(0) =~= Seq::<HMData>::empty());
        }
        while i < data.len()
            invariant
                i <= data@.len(),
                maxh == max_height(data@.take(i as int)),
            decreases data@.len() - i,
        {
            proof {
                assert(data@.take(i as int + 1).drop_last() =~= data@.take(i as int));
                assert(data@.take(i as int + 1).last() == data@[i as int]);
            }
            maxh = maxh.max(data[i].h);
            i = i + 1;
        }
        proof {
            assert(data@.take(data@.len() as int) =~= data@);
        }

        let wf = Fx { raw: ((w - 1) as i64) * FX_SCALE };
        let hf = Fx { raw: ((h - 1) as i64) * FX_SCALE };
        let dim = Vec3 { x: wf.mul(ratio), y: maxh, z: hf.mul(ratio) };
        let start = pos.sub(Vec3 { x: dim.x, y: Fx { raw: 0 }, z: dim.z }.scale_div(Fx {
            raw: FX_TWO,
        }));

        let aapos = start.add(dim.scale_div(Fx { raw: FX_TWO }));
        let aabb = AABox::new(aapos, dim, mat, false);

        HeightMap { pos, start, ratio, w, h, data, mat, aabb }
    }

    /// The interpolated sample under `cur`, or `None` off the grid.
    pub fn data_at(&self, cur: Vec3) -> (r: Option<(HMData, Vec3)>)
        ensures
            r == data_at_spec(*self, cur),
    {
        proof {
            reveal(data_at_spec);
        }
        if !(2 <= self.w && self.w <= HM_MAX_DIM && 2 <= self.h && self.h <= HM_MAX_DIM) {
            return None;
        }
        let wu = self.w as u64;
        let hu = self.h as u64;
        proof {
            lemma_mul_upper_bound(wu as int, 0x10_0000, hu as int, 0x10_0000);
            assert(0x10_0000int * 0x10_0000 == 0x100_0000_0000int) by (nonlinear_arith);
        }
        if !(self.data.len() as u64 == wu * hu) {
            return None;
        }

        // Projection of the current position onto the grid: [0, w) x [0, h)
        let pos = cur.sub(self.start).scale_div(self.ratio);
        let x = pos.x;
        let y = pos.z;
        if x.raw < 0 || x.raw >= ((wu - 1) as i64) * FX_SCALE || y.raw < 0 || y.raw >= ((hu
            - 1) as i64) * FX_SCALE {
            return None;
        }

        let xi = x.raw as u64 / (FX_SCALE as u64);
        let yi = y.raw as u64 / (FX_SCALE as u64);
        proof {
            lemma_grid_indices(self.w as int, self.h as int, x.raw as int, y.raw as int);
        }
        let i00 = yi * wu + xi;
        let i01 = (yi + 1) * wu + xi;
        let i10 = yi * wu + xi + 1;
        let i11 = (yi + 1) * wu + xi + 1;

        // Projection onto the surrounding unit square: [0, 1) x [0, 1)
        let dx = Fx { raw: (x.raw as u64 % (FX_SCALE as u64)) as i64 };
        let dy = Fx { raw: (y.raw as u64 % (FX_SCALE as u64)) as i64 };
        let one = Fx { raw: FX_SCALE };

        // Weight of each surrounding corner
        let r00 = corner_weight_at(dx, dy);
        let r01 = corner_weight_at(dx, one.sub(dy));
        let r10 = corner_weight_at(one.sub(dx), dy);
        let r11 = corner_weight_at(one.sub(dx), one.sub(dy));
        let rtotal = r00.add(r01).add(r10).add(r11);

        // The surrounding corners' samples
        let d00 = self.data[i00 as usize];
        let d01 = self.data[i01 as usize];
        let d10 = self.data[i10 as usize];
        let d11 = self.data[i11 as usize];

        // The corners' normals
        let n00 = corner_normal_at(d01.h.sub(d00.h), d10.h.sub(d00.h));
        let n10 = corner_normal_at(d11.h.sub(d10.h), d00.h.sub(d10.h));
        let n01 = corner_normal_at(d00.h.sub(d01.h), d11.h.sub(d01.h));
        let n11 = corner_normal_at(d10.h.sub(d11.h), d01.h.sub(d11.h));

        // Blend heights, colors and normals
        let hh = d00.h.mul(r00).add(d01.h.mul(r01)).add(d10.h.mul(r10)).add(d11.h.mul(r11)).div(
            rtotal,
        );
        let color = d00.color.mul(r00).add(d01.color.mul(r01)).add(d10.color.mul(r10)).add(
            d11.color.mul(r11),
        ).div(rtotal);
        let normal = n00.scale(r00).add(n01.scale(r01)).add(n10.scale(r10)).add(
            n11.scale(r11),
        ).scale_div(rtotal);

        Some((HMData::new(hh, color), normal))
    }

    /// March the ray across the grid from the bounding-box entry point.
    pub fn intersect(&self, ray: &Ray) -> (r: Option<Inter>)
        ensures
            r == height_map_hit(*self, *ray),
    {
        proof {
            reveal(height_map_hit);
        }
        // Reject against the bounding box
        let enter = self.aabb.intersect(ray);
        if enter.is_none() {
            return None;
        }
        let mut cur = enter.unwrap().pos;
        let mut dist = ray.pos.sub(cur).length();

        // March toward the surface
        let mut i: u32 = 0;
        while i < 100
            invariant
                i <= 100,
                height_map_hit(*self, *ray) == march_spec(
                    *self,
                    *ray,
                    cur,
                    dist,
                    (100 - i) as nat,
                ),
            decreases 100 - i,
        {
            let da = self.data_at(cur);
            if da.is_none() {
                // Off the grid
                return None;
            }
            let (data, normal) = da.unwrap();

            // Accept when the interpolated height meets the ray
            let diff = data.h.sub(cur.y);
            if diff.abs().raw < FX_TOL {
                let mat = Material::new(
                    data.color,
                    self.mat.spec,
                    self.mat.diff,
                    self.mat.refr,
                    self.mat.refr_idx,
                    self.mat.refl,
                );
                return Some(Inter::new(dist, cur, normal, mat));
            }

            // Advance by the height error over the vertical slope
            let step = diff.div(ray.dir.y);
            dist = dist.add(step);

            // The surface lies behind
            if dist.raw < 0 {
                return None;
            }

            cur = cur.add(ray.dir.scale(step));
            i = i + 1;
        }
        None
    }
}

/// The bounding dimensions of a grid footprint under the greatest height.
/// The horizontal extents scale with the grid spacing; the vertical extent
/// is the greatest sample itself, since the march compares heights unscaled.
pub open spec fn hm_footprint_dim(w: usize, h: usize, ratio: Fx, maxh: Fx) -> Vec3 {
    Vec3 {
        x: fx_mul(Fx { raw: ((w - 1) * (FX_SCALE as int)) as i64 }, ratio),
        y: maxh,
        z: fx_mul(Fx { raw: ((h - 1) * (FX_SCALE as int)) as i64 }, ratio),
    }
}

/// The same dimensions with the height zeroed, used to center the footprint.
pub open spec fn hm_dim(w: usize, h: usize, ratio: Fx, maxh: Fx) -> Vec3 {
    Vec3 {
        x: fx_mul(Fx { raw: ((w - 1) * (FX_SCALE as int)) as i64 }, ratio),
        y: Fx { raw: 0 },
        z: fx_mul(Fx { raw: ((h - 1) * (FX_SCALE as int)) as i64 }, ratio),
    }
}

fn corner_weight_at(a: Fx, b: Fx) -> (r: Fx)
    ensures
        r == corner_weight(a, b),
{
    let len = a.mul(a).add(b.mul(b)).sqrt();
    Fx { raw: FX_SCALE }.sub(len.min(Fx { raw: FX_SCALE }))
}

fn corner_normal_at(dh_z: Fx, dh_x: Fx) -> (r: Vec3)
    ensures
        r == corner_normal(dh_z, dh_x),
{
    cross(
        Vec3 { x: Fx { raw: 0 }, y: dh_z, z: Fx { raw: FX_SCALE } },
        Vec3 { x: Fx { raw: FX_SCALE }, y: dh_x, z: Fx { raw: 0 } },
    ).normalize()
}

/// Inside the grid bounds, the floored cell indices leave the four
/// surrounding corners within the data row.
proof fn lemma_grid_indices(w: int, h: int, xr: int, yr: int)
    requires
        2 <= w,
        2 <= h,
        0 <= xr < (w - 1) * (FX_SCALE as int),
        0 <= yr < (h - 1) * (FX_SCALE as int),
    ensures
        0 <= xr / (FX_SCALE as int) <= w - 2,
        0 <= yr / (FX_SCALE as int) <= h - 2,
        (yr / (FX_SCALE as int)) * w + xr / (FX_SCALE as int) < w * h,
        (yr / (FX_SCALE as int) + 1) * w + xr / (FX_SCALE as int) < w * h,
        (yr / (FX_SCALE as int)) * w + xr / (FX_SCALE as int) + 1 < w * h,
        (yr / (FX_SCALE as int) + 1) * w + xr / (FX_SCALE as int) + 1 < w * h,
{
    let xi = xr / (FX_SCALE as int);
    let yi = yr / (FX_SCALE as int);
    assert(xi <= w - 2 && xi >= 0 && yi <= h - 2 && yi >= 0) by (nonlinear_arith)
        requires
            0 <= xr < (w - 1) * (FX_SCALE as int),
            0 <= yr < (h - 1) * (FX_SCALE as int),
            xi == xr / (FX_SCALE as int),
            yi == yr / (FX_SCALE as int),
            2 <= w,
            2 <= h;
    lemma_mul_inequality(yi, h - 2, w);
    lemma_mul_inequality(yi + 1, h - 1, w);
    assert((h - 2) * w + w <= h * w && (h - 1) * w + w == h * w && w * h == h * w)
        by (nonlinear_arith)
        requires 2 <= w && 2 <= h;
}

} // verus!
