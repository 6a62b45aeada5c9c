//! The intersection query input and result.

use vstd::prelude::*;

verus! {

use crate::fixed::Fx;
use crate::vec3::Vec3;
use crate::material::Material;

/// A half-line: origin and direction.  Callers keep `dir` unit-length; the
/// ray itself never renormalizes it.
#[derive(Clone, Copy, PartialEq, Eq, Structural, Debug)]
pub struct Ray {
    pub pos: Vec3,
    pub dir: Vec3,
}

/// The nearest surface point a ray strikes: its distance along the ray, the
/// point itself, the surface normal there, and the surface's material.
#[derive(Clone, Copy, PartialEq, Eq, Structural, Debug)]
pub struct Inter {
    pub dist: Fx,
    pub pos: Vec3,
    pub normal: Vec3,
    pub mat: Material,
}

impl Ray {
    pub fn new(pos: Vec3, dir: Vec3) -> (r: Ray)
        ensures
            r == (Ray { pos, dir }),
    {
        Ray { pos, dir }
    }
}

impl Inter {
    pub fn new(dist: Fx, pos: Vec3, normal: Vec3, mat: Material) -> (i: Inter)
        ensures
            i == (Inter { dist, pos, normal, mat }),
    {
        Inter { dist, pos, normal, mat }
    }
}

} // verus!
