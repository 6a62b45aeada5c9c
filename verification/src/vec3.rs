//! Three-component vectors and the fixed-order Euler rotation.
//!
//! A rotation parameter holds one [`Angle`] per axis.  An angle carries its
//! sine and cosine as fixed-point scalars, since those are the only two
//! quantities the rotation formulas read.  Rotation applies three sequential
//! plane rotations in the fixed order X, then Y, then Z, and an axis whose
//! angle is exactly zero is skipped.

use vstd::prelude::*;

verus! {

use crate::fixed::{
    Fx, fx, fx_add, fx_sub, fx_mul, fx_neg, fx_div, fx_sqrt, fx_bounded, FX_SCALE, FX_NEG_ONE,
    lemma_fx_mul_one, lemma_fx_mul_neg_one, lemma_fx_mul_zero, lemma_fx_mul_neg_neg,
    lemma_fx_cancel,
};

/// A vector of three fixed-point components.
#[derive(Clone, Copy, PartialEq, Eq, Structural, Debug)]
pub struct Vec3 {
    pub x: Fx,
    pub y: Fx,
    pub z: Fx,
}

/// One Euler angle, represented by its sine and cosine.
#[derive(Clone, Copy, PartialEq, Eq, Structural, Debug)]
pub struct Angle {
    pub sin: Fx,
    pub cos: Fx,
}

/// Euler angles around the X, Y and Z axes.
#[derive(Clone, Copy, PartialEq, Eq, Structural, Debug)]
pub struct Rotation {
    pub x: Angle,
    pub y: Angle,
    pub z: Angle,
}

pub open spec fn v3_add(a: Vec3, b: Vec3) -> Vec3 {
    Vec3 { x: fx_add(a.x, b.x), y: fx_add(a.y, b.y), z: fx_add(a.z, b.z) }
}

pub open spec fn v3_sub(a: Vec3, b: Vec3) -> Vec3 {
    Vec3 {
        x: fx_sub(a.x, b.x),
        y: fx_sub(a.y, b.y),
        z: fx_sub(a.z, b.z),
    }
}

/// Component-wise product.
pub open spec fn v3_mul(a: Vec3, b: Vec3) -> Vec3 {
    Vec3 { x: fx_mul(a.x, b.x), y: fx_mul(a.y, b.y), z: fx_mul(a.z, b.z) }
}

/// Component-wise quotient.
pub open spec fn v3_div(a: Vec3, b: Vec3) -> Vec3 {
    Vec3 { x: fx_div(a.x, b.x), y: fx_div(a.y, b.y), z: fx_div(a.z, b.z) }
}

/// Product with a scalar.
pub open spec fn v3_scale(a: Vec3, s: Fx) -> Vec3 {
    Vec3 { x: fx_mul(a.x, s), y: fx_mul(a.y, s), z: fx_mul(a.z, s) }
}

/// Quotient by a scalar.
pub open spec fn v3_scale_div(a: Vec3, s: Fx) -> Vec3 {
    Vec3 { x: fx_div(a.x, s), y: fx_div(a.y, s), z: fx_div(a.z, s) }
}

pub open spec fn v3_dot(a: Vec3, b: Vec3) -> Fx {
    fx_add(fx_add(fx_mul(a.x, b.x), fx_mul(a.y, b.y)), fx_mul(a.z, b.z))
}

pub open spec fn v3_cross(a: Vec3, b: Vec3) -> Vec3 {
    Vec3 {
        x: fx_sub(fx_mul(a.y, b.z), fx_mul(a.z, b.y)),
        y: fx_sub(fx_mul(a.z, b.x), fx_mul(a.x, b.z)),
        z: fx_sub(fx_mul(a.x, b.y), fx_mul(a.y, b.x)),
    }
}

pub open spec fn v3_length(a: Vec3) -> Fx {
    fx_sqrt(fx_add(fx_add(fx_mul(a.x, a.x), fx_mul(a.y, a.y)), fx_mul(a.z, a.z)))
}

pub open spec fn v3_normalize(a: Vec3) -> Vec3 {
    v3_scale_div(a, v3_length(a))
}

pub open spec fn v3_neg(v: Vec3) -> Vec3 {
    Vec3 { x: fx_neg(v.x), y: fx_neg(v.y), z: fx_neg(v.z) }
}

/// An angle is skipped by the rotation exactly when it is zero.
pub open spec fn angle_is_zero(a: Angle) -> bool {
    a.sin.raw == 0 && a.cos.raw == FX_SCALE
}

/// Negated angle: the sine flips sign, the cosine stays.
pub open spec fn angle_neg(a: Angle) -> Angle {
    Angle { sin: fx_neg(a.sin), cos: a.cos }
}

pub open spec fn rot_neg(r: Rotation) -> Rotation {
    Rotation { x: angle_neg(r.x), y: angle_neg(r.y), z: angle_neg(r.z) }
}

/// Plane rotation around the X axis, turning Y toward Z.
pub open spec fn axis_x_rotate(v: Vec3, a: Angle) -> Vec3 {
    Vec3 {
        x: v.x,
        y: fx_add(fx_mul(v.y, a.cos), fx_mul(fx_neg(v.z), a.sin)),
        z: fx_add(fx_mul(v.y, a.sin), fx_mul(v.z, a.cos)),
    }
}

/// Plane rotation around the Y axis, turning Z toward X.
pub open spec fn axis_y_rotate(v: Vec3, a: Angle) -> Vec3 {
    Vec3 {
        x: fx_add(fx_mul(v.x, a.cos), fx_mul(v.z, a.sin)),
        y: v.y,
        z: fx_add(fx_mul(fx_neg(v.x), a.sin), fx_mul(v.z, a.cos)),
    }
}

/// Plane rotation around the Z axis, turning X toward Y.
pub open spec fn axis_z_rotate(v: Vec3, a: Angle) -> Vec3 {
    Vec3 {
        x: fx_add(fx_mul(v.x, a.cos), fx_mul(fx_neg(v.y), a.sin)),
        y: fx_add(fx_mul(v.x, a.sin), fx_mul(v.y, a.cos)),
        z: v.z,
    }
}

/// Sequential Euler rotation: X, then Y, then Z, skipping zero angles.
pub open spec fn v3_rotate(v: Vec3, r: Rotation) -> Vec3 {
    let v1 = if angle_is_zero(r.x) {
        v
    } else {
        axis_x_rotate(v, r.x)
    };
    let v2 = if angle_is_zero(r.y) {
        v1
    } else {
        axis_y_rotate(v1, r.y)
    };
    if angle_is_zero(r.z) {
        v2
    } else {
        axis_z_rotate(v2, r.z)
    }
}

impl Angle {
    /// The zero angle, which every rotation skips.
    pub fn zero() -> (r: Angle)
        ensures
            r == (Angle { sin: Fx { raw: 0 }, cos: Fx { raw: FX_SCALE } }),
            angle_is_zero(r),
    {
        Angle { sin: Fx { raw: 0 }, cos: Fx { raw: FX_SCALE } }
    }

    pub fn new(sin: Fx, cos: Fx) -> (r: Angle)
        ensures
            r == (Angle { sin, cos }),
    {
        Angle { sin, cos }
    }

    pub fn neg(self) -> (r: Angle)
        ensures
            r == angle_neg(self),
    {
        Angle { sin: self.sin.neg(), cos: self.cos }
    }
}

impl Rotation {
    pub fn new(x: Angle, y: Angle, z: Angle) -> (r: Rotation)
        ensures
            r == (Rotation { x, y, z }),
    {
        Rotation { x, y, z }
    }

    /// The rotation by the negated angles, used to undo this rotation.
    pub fn neg(self) -> (r: Rotation)
        ensures
            r == rot_neg(self),
    {
        Rotation { x: self.x.neg(), y: self.y.neg(), z: self.z.neg() }
    }

    fn is_zero_x(self) -> (r: bool)
        ensures
            r == angle_is_zero(self.x),
    {
        self.x.sin.raw == 0 && self.x.cos.raw == FX_SCALE
    }

    fn is_zero_y(self) -> (r: bool)
        ensures
            r == angle_is_zero(self.y),
    {
        self.y.sin.raw == 0 && self.y.cos.raw == FX_SCALE
    }

    fn is_zero_z(self) -> (r: bool)
        ensures
            r == angle_is_zero(self.z),
    {
        self.z.sin.raw == 0 && self.z.cos.raw == FX_SCALE
    }
}

impl Vec3 {
    pub fn new(x: Fx, y: Fx, z: Fx) -> (r: Vec3)
        ensures
            r == (Vec3 { x, y, z }),
    {
        Vec3 { x, y, z }
    }

    /// The vector whose components are the given integers.
    pub fn from_ints(x: i32, y: i32, z: i32) -> (r: Vec3)
        ensures
            r == (Vec3 {
                x: fx(x * FX_SCALE),
                y: fx(y * FX_SCALE),
                z: fx(z * FX_SCALE),
            }),
    {
        Vec3 { x: Fx::from_int(x), y: Fx::from_int(y), z: Fx::from_int(z) }
    }

    pub fn length(&self) -> (r: Fx)
        ensures
            r == v3_length(*self),
    {
        self.x.mul(self.x).add(self.y.mul(self.y)).add(self.z.mul(self.z)).sqrt()
    }

    pub fn normalize(&self) -> (r: Vec3)
        ensures
            r == v3_normalize(*self),
    {
        let len = self.length();
        Vec3 { x: self.x.div(len), y: self.y.div(len), z: self.z.div(len) }
    }

    pub fn add(self, o: Vec3) -> (r: Vec3)
        ensures
            r == v3_add(self, o),
    {
        Vec3 { x: self.x.add(o.x), y: self.y.add(o.y), z: self.z.add(o.z) }
    }

    pub fn sub(self, o: Vec3) -> (r: Vec3)
        ensures
            r == v3_sub(self, o),
    {
        Vec3 { x: self.x.sub(o.x), y: self.y.sub(o.y), z: self.z.sub(o.z) }
    }

    /// Component-wise product.
    pub fn mul(self, o: Vec3) -> (r: Vec3)
        ensures
            r == v3_mul(self, o),
    {
        Vec3 { x: self.x.mul(o.x), y: self.y.mul(o.y), z: self.z.mul(o.z) }
    }

    /// Component-wise quotient.
    pub fn div(self, o: Vec3) -> (r: Vec3)
        ensures
            r == v3_div(self, o),
    {
        Vec3 { x: self.x.div(o.x), y: self.y.div(o.y), z: self.z.div(o.z) }
    }

    /// Product with a scalar.
    pub fn scale(self, s: Fx) -> (r: Vec3)
        ensures
            r == v3_scale(self, s),
    {
        Vec3 { x: self.x.mul(s), y: self.y.mul(s), z: self.z.mul(s) }
    }

    /// Quotient by a scalar.
    pub fn scale_div(self, s: Fx) -> (r: Vec3)
        ensures
            r == v3_scale_div(self, s),
    {
        Vec3 { x: self.x.div(s), y: self.y.div(s), z: self.z.div(s) }
    }

    /// The negated vector.
    pub fn neg(self) -> (r: Vec3)
        ensures
            r == v3_neg(self),
    {
        Vec3 { x: self.x.neg(), y: self.y.neg(), z: self.z.neg() }
    }
}

pub fn dot(left: Vec3, right: Vec3) -> (r: Fx)
    ensures
        r == v3_dot(left, right),
{
    left.x.mul(right.x).add(left.y.mul(right.y)).add(left.z.mul(right.z))
}

pub fn cross(left: Vec3, right: Vec3) -> (r: Vec3)
    ensures
        r == v3_cross(left, right),
{
    Vec3 {
        x: left.y.mul(right.z).sub(left.z.mul(right.y)),
        y: left.z.mul(right.x).sub(left.x.mul(right.z)),
        z: left.x.mul(right.y).sub(left.y.mul(right.x)),
    }
}

/// An angle on a quarter-turn boundary: zero, a half turn, or a quarter
/// turn either way.  These are the angles whose sine and cosine the
/// fixed-point scale represents exactly.
pub open spec fn angle_cardinal(a: Angle) -> bool {
    ||| (a.sin.raw == 0 && a.cos.raw == FX_SCALE)
    ||| (a.sin.raw == 0 && a.cos.raw == FX_NEG_ONE)
    ||| (a.cos.raw == 0 && (a.sin.raw == FX_SCALE || a.sin.raw == FX_NEG_ONE))
}

/// Rotating about one axis by a quarter-turn-boundary angle and then by its
/// negation gives the vector back exactly: each plane rotation only
/// multiplies by zero, one or minus one, and those products are exact in
/// fixed point.  (The two components the plane rotation touches must not sit
/// at the saturating minimum, which negation cannot undo.)
pub proof fn lemma_cardinal_y_round_trip(v: Vec3, r: Rotation)
    requires
        angle_is_zero(r.x),
        angle_is_zero(r.z),
        angle_cardinal(r.y),
        v.x.raw > i64::MIN,
        v.z.raw > i64::MIN,
    ensures
        v3_rotate(v3_rotate(v, r), rot_neg(r)) == v,
{
    let a = r.y;
    let na = angle_neg(a);
    if angle_is_zero(a) {
    } else if a.sin.raw == 0 && a.cos.raw == FX_NEG_ONE {
        let v1 = axis_y_rotate(v, a);
        lemma_fx_mul_neg_one(v.x);
        lemma_fx_mul_zero(v.z);
        lemma_fx_mul_zero(fx_neg(v.x));
        lemma_fx_mul_neg_one(v.z);
        assert(v1 == Vec3 { x: fx_neg(v.x), y: v.y, z: fx_neg(v.z) });
        lemma_fx_mul_neg_one(v1.x);
        lemma_fx_mul_zero(v1.z);
        lemma_fx_mul_zero(fx_neg(v1.x));
        lemma_fx_mul_neg_one(v1.z);
        assert(axis_y_rotate(v1, na) == v);
    } else if a.cos.raw == 0 && a.sin.raw == FX_SCALE {
        let v1 = axis_y_rotate(v, a);
        lemma_fx_mul_zero(v.x);
        lemma_fx_mul_one(v.z);
        lemma_fx_mul_one(fx_neg(v.x));
        lemma_fx_mul_zero(v.z);
        assert(v1 == Vec3 { x: v.z, y: v.y, z: fx_neg(v.x) });
        lemma_fx_mul_zero(v1.x);
        lemma_fx_mul_neg_one(v1.z);
        lemma_fx_mul_neg_one(fx_neg(v1.x));
        lemma_fx_mul_zero(v1.z);
        assert(axis_y_rotate(v1, na) == v);
    } else {
        let v1 = axis_y_rotate(v, a);
        lemma_fx_mul_zero(v.x);
        lemma_fx_mul_neg_one(v.z);
        lemma_fx_mul_neg_one(fx_neg(v.x));
        lemma_fx_mul_zero(v.z);
        assert(v1 == Vec3 { x: fx_neg(v.z), y: v.y, z: v.x });
        lemma_fx_mul_zero(v1.x);
        lemma_fx_mul_one(v1.z);
        lemma_fx_mul_one(fx_neg(v1.x));
        lemma_fx_mul_zero(v1.z);
        assert(axis_y_rotate(v1, na) == v);
    }
}

/// Every component sits in the middle half-range.
pub open spec fn v3_bounded(v: Vec3) -> bool {
    fx_bounded(v.x) && fx_bounded(v.y) && fx_bounded(v.z)
}

/// Every component within twice the bounded range.
pub open spec fn v3_mid(v: Vec3) -> bool {
    &&& -0x4000_0000_0000_0000 <= v.x.raw <= 0x4000_0000_0000_0000
    &&& -0x4000_0000_0000_0000 <= v.y.raw <= 0x4000_0000_0000_0000
    &&& -0x4000_0000_0000_0000 <= v.z.raw <= 0x4000_0000_0000_0000
}

/// Adding and subtracting a bounded vector cancels exactly component-wise.
pub proof fn lemma_v3_cancel(x: Vec3, p: Vec3)
    requires
        v3_mid(x),
        v3_bounded(p),
    ensures
        v3_sub(v3_add(x, p), p) == x,
        v3_add(v3_sub(x, p), p) == x,
{
    lemma_fx_cancel(x.x, p.x);
    lemma_fx_cancel(x.y, p.y);
    lemma_fx_cancel(x.z, p.z);
}

/// A single-axis quarter-turn-boundary rotation only permutes and negates
/// the two components in its plane: Y stays, and X and Z of the result are
/// each one of the incoming X or Z, possibly negated.
pub proof fn lemma_cardinal_y_components(v: Vec3, r: Rotation)
    requires
        angle_is_zero(r.x),
        angle_is_zero(r.z),
        angle_cardinal(r.y),
        v.x.raw > i64::MIN,
        v.z.raw > i64::MIN,
    ensures
        v3_rotate(v, r).y == v.y,
        v3_rotate(v, r).x == v.x || v3_rotate(v, r).x == fx_neg(v.x) || v3_rotate(v, r).x == v.z
            || v3_rotate(v, r).x == fx_neg(v.z),
        v3_rotate(v, r).z == v.x || v3_rotate(v, r).z == fx_neg(v.x) || v3_rotate(v, r).z == v.z
            || v3_rotate(v, r).z == fx_neg(v.z),
{
    let a = r.y;
    if angle_is_zero(a) {
    } else if a.sin.raw == 0 && a.cos.raw == FX_NEG_ONE {
        lemma_fx_mul_neg_one(v.x);
        lemma_fx_mul_zero(v.z);
        lemma_fx_mul_zero(fx_neg(v.x));
        lemma_fx_mul_neg_one(v.z);
    } else if a.cos.raw == 0 && a.sin.raw == FX_SCALE {
        lemma_fx_mul_zero(v.x);
        lemma_fx_mul_one(v.z);
        lemma_fx_mul_one(fx_neg(v.x));
        lemma_fx_mul_zero(v.z);
    } else {
        lemma_fx_mul_zero(v.x);
        lemma_fx_mul_neg_one(v.z);
        lemma_fx_mul_neg_one(fx_neg(v.x));
        lemma_fx_mul_zero(v.z);
    }
}

/// The point `p` carried around `pivot` by the rotation `r`.
pub open spec fn about_pivot(p: Vec3, pivot: Vec3, r: Rotation) -> Vec3 {
    v3_add(v3_rotate(v3_sub(p, pivot), r), pivot)
}

/// The two partial sums a dot product forms, folded from either end, stay
/// representable: the three addends can then be regrouped freely.
pub open spec fn dot_tame(a: Vec3, b: Vec3) -> bool {
    let px = fx_mul(a.x, b.x);
    let py = fx_mul(a.y, b.y);
    let pz = fx_mul(a.z, b.z);
    &&& i64::MIN <= px.raw + py.raw <= i64::MAX
    &&& i64::MIN <= pz.raw + py.raw <= i64::MAX
}

/// The subtraction saturates in no component, and stays clear of the one
/// value negation cannot undo.
pub open spec fn v3_sub_exact(a: Vec3, b: Vec3) -> bool {
    &&& i64::MIN < a.x.raw - b.x.raw <= i64::MAX
    &&& i64::MIN < a.y.raw - b.y.raw <= i64::MAX
    &&& i64::MIN < a.z.raw - b.z.raw <= i64::MAX
}

/// A single-axis quarter-turn-boundary rotation preserves dot products
/// exactly: it only swaps the two in-plane products and negates both factors
/// of each, so the same three addends fold to the same sum.
pub proof fn lemma_cardinal_y_dot(a: Vec3, b: Vec3, r: Rotation)
    requires
        angle_is_zero(r.x),
        angle_is_zero(r.z),
        angle_cardinal(r.y),
        a.x.raw > i64::MIN,
        a.z.raw > i64::MIN,
        b.x.raw > i64::MIN,
        b.z.raw > i64::MIN,
        dot_tame(a, b),
    ensures
        v3_dot(v3_rotate(a, r), v3_rotate(b, r)) == v3_dot(a, b),
{
    let an = r.y;
    if angle_is_zero(an) {
    } else if an.sin.raw == 0 && an.cos.raw == FX_NEG_ONE {
        lemma_fx_mul_neg_one(a.x);
        lemma_fx_mul_zero(a.z);
        lemma_fx_mul_zero(fx_neg(a.x));
        lemma_fx_mul_neg_one(a.z);
        lemma_fx_mul_neg_one(b.x);
        lemma_fx_mul_zero(b.z);
        lemma_fx_mul_zero(fx_neg(b.x));
        lemma_fx_mul_neg_one(b.z);
        lemma_fx_mul_neg_neg(a.x, b.x);
        lemma_fx_mul_neg_neg(a.z, b.z);
    } else if an.cos.raw == 0 && an.sin.raw == FX_SCALE {
        lemma_fx_mul_zero(a.x);
        lemma_fx_mul_one(a.z);
        lemma_fx_mul_one(fx_neg(a.x));
        lemma_fx_mul_zero(a.z);
        lemma_fx_mul_zero(b.x);
        lemma_fx_mul_one(b.z);
        lemma_fx_mul_one(fx_neg(b.x));
        lemma_fx_mul_zero(b.z);
        lemma_fx_mul_neg_neg(a.x, b.x);
    } else {
        lemma_fx_mul_zero(a.x);
        lemma_fx_mul_neg_one(a.z);
        lemma_fx_mul_neg_one(fx_neg(a.x));
        lemma_fx_mul_zero(a.z);
        lemma_fx_mul_zero(b.x);
        lemma_fx_mul_neg_one(b.z);
        lemma_fx_mul_neg_one(fx_neg(b.x));
        lemma_fx_mul_zero(b.z);
        lemma_fx_mul_neg_neg(a.z, b.z);
    }
}

/// A single-axis quarter-turn-boundary rotation distributes over an exact
/// subtraction.
pub proof fn lemma_cardinal_y_rot_sub(a: Vec3, b: Vec3, r: Rotation)
    requires
        angle_is_zero(r.x),
        angle_is_zero(r.z),
        angle_cardinal(r.y),
        v3_sub_exact(a, b),
        a.x.raw > i64::MIN,
        a.z.raw > i64::MIN,
        b.x.raw > i64::MIN,
        b.z.raw > i64::MIN,
    ensures
        v3_rotate(v3_sub(a, b), r) == v3_sub(v3_rotate(a, r), v3_rotate(b, r)),
{
    let an = r.y;
    let d = v3_sub(a, b);
    if angle_is_zero(an) {
    } else if an.sin.raw == 0 && an.cos.raw == FX_NEG_ONE {
        lemma_fx_mul_neg_one(a.x);
        lemma_fx_mul_zero(a.z);
        lemma_fx_mul_zero(fx_neg(a.x));
        lemma_fx_mul_neg_one(a.z);
        lemma_fx_mul_neg_one(b.x);
        lemma_fx_mul_zero(b.z);
        lemma_fx_mul_zero(fx_neg(b.x));
        lemma_fx_mul_neg_one(b.z);
        lemma_fx_mul_neg_one(d.x);
        lemma_fx_mul_zero(d.z);
        lemma_fx_mul_zero(fx_neg(d.x));
        lemma_fx_mul_neg_one(d.z);
    } else if an.cos.raw == 0 && an.sin.raw == FX_SCALE {
        lemma_fx_mul_zero(a.x);
        lemma_fx_mul_one(a.z);
        lemma_fx_mul_one(fx_neg(a.x));
        lemma_fx_mul_zero(a.z);
        lemma_fx_mul_zero(b.x);
        lemma_fx_mul_one(b.z);
        lemma_fx_mul_one(fx_neg(b.x));
        lemma_fx_mul_zero(b.z);
        lemma_fx_mul_zero(d.x);
        lemma_fx_mul_one(d.z);
        lemma_fx_mul_one(fx_neg(d.x));
        lemma_fx_mul_zero(d.z);
    } else {
        lemma_fx_mul_zero(a.x);
        lemma_fx_mul_neg_one(a.z);
        lemma_fx_mul_neg_one(fx_neg(a.x));
        lemma_fx_mul_zero(a.z);
        lemma_fx_mul_zero(b.x);
        lemma_fx_mul_neg_one(b.z);
        lemma_fx_mul_neg_one(fx_neg(b.x));
        lemma_fx_mul_zero(b.z);
        lemma_fx_mul_zero(d.x);
        lemma_fx_mul_neg_one(d.z);
        lemma_fx_mul_neg_one(fx_neg(d.x));
        lemma_fx_mul_zero(d.z);
    }
}

/// Apply the fixed-order Euler rotation `r` to `vec`.
pub fn rotate(vec: Vec3, r: Rotation) -> (res: Vec3)
    ensures
        res == v3_rotate(vec, r),
{
    let mut res = vec;
    if !r.is_zero_x() {
        res = Vec3 {
            x: res.x,
            y: res.y.mul(r.x.cos).add(res.z.neg().mul(r.x.sin)),
            z: res.y.mul(r.x.sin).add(res.z.mul(r.x.cos)),
        };
    }
    if !r.is_zero_y() {
        res = Vec3 {
            x: res.x.mul(r.y.cos).add(res.z.mul(r.y.sin)),
            y: res.y,
            z: res.x.neg().mul(r.y.sin).add(res.z.mul(r.y.cos)),
        };
    }
    if !r.is_zero_z() {
        res = Vec3 {
            x: res.x.mul(r.z.cos).add(res.y.neg().mul(r.z.sin)),
            y: res.x.mul(r.z.sin).add(res.y.mul(r.z.cos)),
            z: res.z,
        };
    }
    res
}

} // verus!
