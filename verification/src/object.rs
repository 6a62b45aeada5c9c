//! Geometric primitives and composite objects.
//!
//! Every object answers one query, `intersect`: the nearest hit of a ray at
//! strictly positive distance, or `None` when the ray misses.  The object tree is a sum
//! type: leaves (sphere, plane, axis-aligned rectangle) and composites (box,
//! hexagonal prism, rotation decorator, group) that own their children.
//!
//! Each `intersect` is pinned down exactly by a spec function over the
//! fixed-point values, so the contracts decide every hit, not just its shape.

use vstd::prelude::*;

verus! {

use crate::fixed::{
    Fx, fx_add, fx_sub, fx_mul, fx_div, fx_neg, fx_abs, fx_sqrt, FX_SCALE, FX_TWO, FX_FOUR,
    FX_NEG_ONE, lemma_fx_mul_one, lemma_fx_mul_neg_one, lemma_fx_half_bound,
};
use crate::vec3::{
    Vec3, Angle, Rotation, v3_add, v3_sub, v3_scale, v3_dot, v3_length, v3_normalize, v3_rotate,
    v3_neg, v3_bounded, v3_mid, about_pivot, dot_tame, rot_neg, angle_is_zero,
    angle_cardinal, dot, rotate, lemma_v3_cancel, lemma_cardinal_y_components,
    lemma_cardinal_y_round_trip, lemma_cardinal_y_dot, lemma_cardinal_y_rot_sub,
};
use crate::material::Material;
use crate::ray::{Ray, Inter};
use crate::hmap::{HeightMap, height_map_hit};

/// The outward axis of an axis-aligned rectangle.
#[derive(Clone, Copy, PartialEq, Eq, Structural, Debug)]
pub enum Dir {
    /// -X
    Left,
    /// X
    Right,
    /// Y
    Top,
    /// -Y
    Bottom,
    /// Z
    Front,
    /// -Z
    Back,
}

/// A sphere given by center and radius.
#[derive(Clone, Copy, PartialEq, Eq, Structural, Debug)]
pub struct Sphere {
    pub pos: Vec3,
    pub radius: Fx,
    pub mat: Material,
}

/// An infinite plane through `pos` with unit normal `normal`.
#[derive(Clone, Copy, PartialEq, Eq, Structural, Debug)]
pub struct Plane {
    pub pos: Vec3,
    pub normal: Vec3,
    pub mat: Material,
}

/// A finite axis-aligned rectangular patch: a plane test along the fixed
/// axis normal followed by an extent check on all three axes.
#[derive(Clone, Copy, PartialEq, Eq, Structural, Debug)]
pub struct AARect {
    pub pos: Vec3,
    pub dir: Dir,
    pub dim: Vec3,
    pub normal: Vec3,
    pub mat: Material,
}

/// An axis-aligned box: six rectangles.  With the skybox flag the six faces
/// swap sides, so their normals point inward.
#[derive(Debug)]
pub struct AABox {
    pub faces: Vec<AARect>,
}

/// A hexagonal prism approximated by three boxes, two of them rotated about
/// the Y axis through the shared center.
#[derive(Debug)]
pub struct AAHexa {
    pub faces: Objects,
}

/// A decorator that shows its child rotated by Euler `dir` about `pos`.
#[derive(Debug)]
pub struct Rotate {
    pub pos: Vec3,
    pub dir: Rotation,
    pub object: Box<Object>,
}

/// An ordered group of objects; the nearest child hit wins, ties going to
/// the earliest child.
#[derive(Debug)]
pub struct Objects {
    pub all: Vec<Object>,
}

/// Any intersectable object.
#[derive(Debug)]
pub enum Object {
    Sphere(Sphere),
    Plane(Plane),
    AARect(AARect),
    AABox(AABox),
    AAHexa(AAHexa),
    Rotate(Rotate),
    HeightMap(HeightMap),
    Group(Objects),
}

/// The nearest fixed-point value of the sine of sixty degrees (also the
/// sine of a hundred and twenty).
pub const FX_SIN60: i64 = 56756;

/// The cosine of sixty degrees, exactly one half.
pub const FX_COS60: i64 = 32768;

/// The cosine of a hundred and twenty degrees, exactly minus one half.
pub const FX_COS120: i64 = -32768;

/// The nearest fixed-point value of the tangent of thirty degrees.
pub const FX_TAN30: i64 = 37837;

/// Keep the earlier hit unless the later one is strictly closer.
pub open spec fn hit_closer(first: Option<Inter>, rest: Option<Inter>) -> Option<Inter> {
    match (first, rest) {
        (Option::None, r) => r,
        (Option::Some(f), Option::None) => Option::Some(f),
        (Option::Some(f), Option::Some(r)) => if r.dist.raw < f.dist.raw {
            Option::Some(r)
        } else {
            Option::Some(f)
        },
    }
}

pub open spec fn dir_normal(d: Dir) -> Vec3 {
    match d {
        Dir::Left => Vec3 { x: Fx { raw: FX_NEG_ONE }, y: Fx { raw: 0 }, z: Fx { raw: 0 } },
        Dir::Right => Vec3 { x: Fx { raw: FX_SCALE }, y: Fx { raw: 0 }, z: Fx { raw: 0 } },
        Dir::Top => Vec3 { x: Fx { raw: 0 }, y: Fx { raw: FX_SCALE }, z: Fx { raw: 0 } },
        Dir::Bottom => Vec3 { x: Fx { raw: 0 }, y: Fx { raw: FX_NEG_ONE }, z: Fx { raw: 0 } },
        Dir::Front => Vec3 { x: Fx { raw: 0 }, y: Fx { raw: 0 }, z: Fx { raw: FX_SCALE } },
        Dir::Back => Vec3 { x: Fx { raw: 0 }, y: Fx { raw: 0 }, z: Fx { raw: FX_NEG_ONE } },
    }
}

/// The sphere intersection: smaller positive root of the ray-sphere
/// quadratic; the normal points outward, or inward when the ray starts
/// inside the sphere.
#[verifier::opaque]
pub open spec fn sphere_hit(s: Sphere, ray: Ray) -> Option<Inter> {
    let temporary = v3_sub(ray.pos, s.pos);
    let b = fx_mul(Fx { raw: FX_TWO }, v3_dot(ray.dir, temporary));
    let a = v3_dot(ray.dir, ray.dir);
    let c = fx_sub(v3_dot(temporary, temporary), fx_mul(s.radius, s.radius));
    let disc = fx_sub(fx_mul(b, b), fx_mul(fx_mul(Fx { raw: FX_FOUR }, a), c));
    if disc.raw < 0 {
        Option::None
    } else {
        let discriminent = fx_sqrt(disc);
        let t1 = fx_div(fx_add(fx_neg(b), discriminent), fx_mul(Fx { raw: FX_TWO }, a));
        let t2 = fx_div(fx_sub(fx_neg(b), discriminent), fx_mul(Fx { raw: FX_TWO }, a));
        if t1.raw <= 0 && t2.raw <= 0 {
            Option::None
        } else {
            let dist = if t2.raw <= 0 || t1.raw < t2.raw {
                t1
            } else {
                t2
            };
            let pos = v3_add(ray.pos, v3_scale(ray.dir, dist));
            let out_normal = v3_normalize(v3_sub(pos, s.pos));
            let normal = if v3_length(v3_sub(ray.pos, s.pos)).raw > s.radius.raw {
                out_normal
            } else {
                v3_scale(out_normal, Fx { raw: FX_NEG_ONE })
            };
            Option::Some(Inter { dist, pos, normal, mat: s.mat })
        }
    }
}

/// The plane intersection: the linear solution, rejected unless its
/// distance is strictly positive.
#[verifier::opaque]
pub open spec fn plane_hit(p: Plane, ray: Ray) -> Option<Inter> {
    let dist = fx_div(v3_dot(v3_sub(p.pos, ray.pos), p.normal), v3_dot(ray.dir, p.normal));
    if dist.raw <= 0 {
        Option::None
    } else {
        let pos = v3_add(ray.pos, v3_scale(ray.dir, dist));
        Option::Some(Inter { dist, pos, normal: p.normal, mat: p.mat })
    }
}

/// The rectangle intersection: the plane hit at strictly positive distance,
/// kept only when the hit point's doubled offset from the center stays
/// within each extent.
#[verifier::opaque]
pub open spec fn rect_hit(r: AARect, ray: Ray) -> Option<Inter> {
    let dist = fx_div(v3_dot(v3_sub(r.pos, ray.pos), r.normal), v3_dot(ray.dir, r.normal));
    if dist.raw <= 0 {
        Option::None
    } else {
        let pos = v3_add(ray.pos, v3_scale(ray.dir, dist));
        let diff = v3_sub(pos, r.pos);
        if fx_mul(fx_abs(diff.x), Fx { raw: FX_TWO }).raw > r.dim.x.raw
            || fx_mul(fx_abs(diff.y), Fx { raw: FX_TWO }).raw > r.dim.y.raw
            || fx_mul(fx_abs(diff.z), Fx { raw: FX_TWO }).raw > r.dim.z.raw {
            Option::None
        } else {
            Option::Some(Inter { dist, pos, normal: r.normal, mat: r.mat })
        }
    }
}

/// The six faces of an axis-aligned box.  The skybox flag negates each face
/// offset, moving every face to the opposite side of the center while its
/// normal keeps pointing along its own axis: seen from inside, the normals
/// face the viewer.
pub open spec fn box_faces(pos: Vec3, dim: Vec3, mat: Material, skybox: bool) -> Seq<AARect> {
    let sign = if skybox {
        Fx { raw: FX_NEG_ONE }
    } else {
        Fx { raw: FX_SCALE }
    };
    let hx = fx_mul(fx_div(dim.x, Fx { raw: FX_TWO }), sign);
    let hy = fx_mul(fx_div(dim.y, Fx { raw: FX_TWO }), sign);
    let hz = fx_mul(fx_div(dim.z, Fx { raw: FX_TWO }), sign);
    seq![
        AARect {
            pos: Vec3 { x: fx_sub(pos.x, hx), y: pos.y, z: pos.z },
            dir: Dir::Left,
            dim,
            normal: dir_normal(Dir::Left),
            mat,
        },
        AARect {
            pos: Vec3 { x: fx_add(pos.x, hx), y: pos.y, z: pos.z },
            dir: Dir::Right,
            dim,
            normal: dir_normal(Dir::Right),
            mat,
        },
        AARect {
            pos: Vec3 { x: pos.x, y: fx_add(pos.y, hy), z: pos.z },
            dir: Dir::Top,
            dim,
            normal: dir_normal(Dir::Top),
            mat,
        },
        AARect {
            pos: Vec3 { x: pos.x, y: fx_sub(pos.y, hy), z: pos.z },
            dir: Dir::Bottom,
            dim,
            normal: dir_normal(Dir::Bottom),
            mat,
        },
        AARect {
            pos: Vec3 { x: pos.x, y: pos.y, z: fx_add(pos.z, hz) },
            dir: Dir::Front,
            dim,
            normal: dir_normal(Dir::Front),
            mat,
        },
        AARect {
            pos: Vec3 { x: pos.x, y: pos.y, z: fx_sub(pos.z, hz) },
            dir: Dir::Back,
            dim,
            normal: dir_normal(Dir::Back),
            mat,
        },
    ]
}

/// Fold of [`rect_hit`] over a row of rectangles, earliest-nearest first.
pub open spec fn rect_seq_hit(faces: Seq<AARect>, ray: Ray) -> Option<Inter>
    decreases faces.len(),
{
    if faces.len() == 0 {
        Option::None
    } else {
        hit_closer(rect_hit(faces[0], ray), rect_seq_hit(faces.drop_first(), ray))
    }
}

#[verifier::opaque]
pub open spec fn box_hit(b: AABox, ray: Ray) -> Option<Inter> {
    rect_seq_hit(b.faces@, ray)
}

/// Nearest hit over a row of objects, ties to the earliest.
pub open spec fn seq_hit(objs: Seq<Object>, ray: Ray) -> Option<Inter>
    decreases objs,
{
    if objs.len() == 0 {
        Option::None
    } else {
        hit_closer(object_hit(objs[0], ray), seq_hit(objs.drop_first(), ray))
    }
}

/// The rotation decorator's hit: the ray is carried into the child's frame,
/// the child queried, and the hit carried back by the negated rotation.
#[verifier::opaque]
pub open spec fn rotate_hit(rt: Rotate, ray: Ray) -> Option<Inter>
    decreases rt,
{
    let rot_ray = Ray {
        pos: v3_add(v3_rotate(v3_sub(ray.pos, rt.pos), rt.dir), rt.pos),
        dir: v3_rotate(ray.dir, rt.dir),
    };
    match object_hit(*rt.object, rot_ray) {
        Option::Some(inter) => Option::Some(
            Inter {
                dist: inter.dist,
                pos: v3_add(v3_rotate(v3_sub(inter.pos, rt.pos), rot_neg(rt.dir)), rt.pos),
                normal: v3_rotate(inter.normal, rot_neg(rt.dir)),
                mat: inter.mat,
            },
        ),
        Option::None => Option::None,
    }
}

/// The nearest hit of `ray` against any object.
pub open spec fn object_hit(o: Object, ray: Ray) -> Option<Inter>
    decreases o,
{
    match o {
        Object::Sphere(s) => sphere_hit(s, ray),
        Object::Plane(p) => plane_hit(p, ray),
        Object::AARect(r) => rect_hit(r, ray),
        Object::AABox(b) => box_hit(b, ray),
        Object::AAHexa(h) => seq_hit(h.faces.all@, ray),
        Object::Rotate(rt) => rotate_hit(rt, ray),
        Object::HeightMap(hm) => height_map_hit(hm, ray),
        Object::Group(g) => seq_hit(g.all@, ray),
    }
}

/// A rotation decorator wrapping the rotation by the negated angles shows
/// the child unmoved: for a single-axis quarter-turn-boundary rotation the
/// two decorators cancel exactly and the composite's hit equals the child's
/// own, as long as the ray, the pivot and the child's hit keep to the middle
/// half of the representable range (saturation cannot be undone).
pub proof fn lemma_rotate_round_trip(outer: Rotate, ray: Ray)
    requires
        angle_is_zero(outer.dir.x),
        angle_is_zero(outer.dir.z),
        angle_cardinal(outer.dir.y),
        (*outer.object) is Rotate,
        (*outer.object)->Rotate_0.pos == outer.pos,
        (*outer.object)->Rotate_0.dir == rot_neg(outer.dir),
        v3_bounded(ray.pos),
        v3_bounded(ray.dir),
        v3_bounded(outer.pos),
        (match object_hit(*(*outer.object)->Rotate_0.object, ray) {
            Option::Some(h) => v3_bounded(h.pos) && v3_bounded(h.normal),
            Option::None => true,
        }),
    ensures
        rotate_hit(outer, ray) == object_hit(*(*outer.object)->Rotate_0.object, ray),
{
    reveal_with_fuel(rotate_hit, 3);
    reveal_with_fuel(object_hit, 2);
    let inner = (*outer.object)->Rotate_0;
    let child = *inner.object;
    let rd = outer.dir;
    let nd = rot_neg(rd);
    assert(rot_neg(nd) == rd);
    assert(angle_is_zero(nd.x) && angle_is_zero(nd.z) && angle_cardinal(nd.y));

    // The child sees the very ray that came in: the two inbound rotations
    // cancel around the shared pivot.
    let t = v3_sub(ray.pos, outer.pos);
    let u = v3_rotate(t, rd);
    assert(v3_mid(t));
    lemma_cardinal_y_components(t, rd);
    assert(v3_mid(u));
    lemma_v3_cancel(u, outer.pos);
    lemma_cardinal_y_round_trip(t, rd);
    lemma_v3_cancel(ray.pos, outer.pos);
    lemma_cardinal_y_round_trip(ray.dir, rd);
    let ray1 = Ray { pos: v3_add(u, outer.pos), dir: v3_rotate(ray.dir, rd) };
    let ray2 = Ray {
        pos: v3_add(v3_rotate(v3_sub(ray1.pos, inner.pos), nd), inner.pos),
        dir: v3_rotate(ray1.dir, nd),
    };
    assert(ray2 == ray);

    // The hit travels back out through the two outbound rotations, which
    // cancel the same way.
    match object_hit(child, ray) {
        Option::Some(h) => {
            let s = v3_sub(h.pos, inner.pos);
            let w = v3_rotate(s, rot_neg(nd));
            assert(v3_mid(s));
            lemma_cardinal_y_components(s, rd);
            assert(v3_mid(w));
            lemma_v3_cancel(w, inner.pos);
            lemma_cardinal_y_round_trip(s, rd);
            lemma_v3_cancel(h.pos, inner.pos);
            lemma_cardinal_y_round_trip(h.normal, rd);
            let h1 = Inter {
                dist: h.dist,
                pos: v3_add(w, inner.pos),
                normal: v3_rotate(h.normal, rot_neg(nd)),
                mat: h.mat,
            };
            assert(rotate_hit(inner, ray1) == Option::Some(h1));
            let h2 = Inter {
                dist: h1.dist,
                pos: v3_add(v3_rotate(v3_sub(h1.pos, outer.pos), rot_neg(rd)), outer.pos),
                normal: v3_rotate(h1.normal, rot_neg(rd)),
                mat: h1.mat,
            };
            assert(h2 == h);
            assert(rotate_hit(outer, ray) == Option::Some(h2));
        },
        Option::None => {
            assert(rotate_hit(inner, ray1) is None);
            assert(rotate_hit(outer, ray) is None);
        },
    }
}

/// The sphere a rotation decorator shows: the wrapped sphere carried about
/// the pivot by the negated angles.
pub open spec fn sphere_moved_by(rt: Rotate) -> Sphere
    recommends
        (*rt.object) is Sphere,
{
    let s = (*rt.object)->Sphere_0;
    Sphere { pos: about_pivot(s.pos, rt.pos, rot_neg(rt.dir)), radius: s.radius, mat: s.mat }
}

/// A rotation decorator around a sphere hits at the same distance as the
/// bare sphere placed at the rotated pivot-relative position, and hits or
/// misses together with it: for a single-axis quarter-turn-boundary angle
/// the change of frame is exact, as long as the ray, the pivot and the
/// sphere keep to the middle of the representable range and the three dot
/// products the quadratic forms do not saturate.
pub proof fn lemma_rotate_sphere_placement(rt: Rotate, ray: Ray)
    requires
        (*rt.object) is Sphere,
        angle_is_zero(rt.dir.x),
        angle_is_zero(rt.dir.z),
        angle_cardinal(rt.dir.y),
        v3_bounded(ray.pos),
        v3_bounded(ray.dir),
        v3_bounded(rt.pos),
        v3_bounded((*rt.object)->Sphere_0.pos),
        v3_bounded(v3_sub(ray.pos, rt.pos)),
        v3_bounded(v3_sub((*rt.object)->Sphere_0.pos, rt.pos)),
        dot_tame(ray.dir, ray.dir),
        dot_tame(ray.dir, v3_sub(ray.pos, sphere_moved_by(rt).pos)),
        dot_tame(v3_sub(ray.pos, sphere_moved_by(rt).pos), v3_sub(ray.pos, sphere_moved_by(rt).pos)),
    ensures
        (rotate_hit(rt, ray) is Some) == (sphere_hit(sphere_moved_by(rt), ray) is Some),
        hit_dist(rotate_hit(rt, ray)) == hit_dist(sphere_hit(sphere_moved_by(rt), ray)),
{
    reveal_with_fuel(rotate_hit, 2);
    reveal_with_fuel(object_hit, 2);
    reveal(sphere_hit);
    let s = (*rt.object)->Sphere_0;
    let piv = rt.pos;
    let rd = rt.dir;
    let nd = rot_neg(rd);
    assert(rot_neg(nd) == rd);
    assert(angle_is_zero(nd.x) && angle_is_zero(nd.z) && angle_cardinal(nd.y));

    // The frames line up: the decorator's rotated temporary vector is the
    // rotation of the moved sphere's temporary vector.
    let t = v3_sub(ray.pos, piv);
    let u = v3_rotate(t, rd);
    lemma_cardinal_y_components(t, rd);
    let q = v3_sub(s.pos, piv);
    let qn = v3_rotate(q, nd);
    lemma_cardinal_y_components(q, nd);
    lemma_cardinal_y_round_trip(q, nd);
    let moved = sphere_moved_by(rt);
    assert(moved.pos == v3_add(qn, piv));
    let tmp2 = v3_sub(ray.pos, moved.pos);
    assert(tmp2 == v3_sub(t, qn));
    lemma_cardinal_y_rot_sub(t, qn, rd);
    assert(v3_rotate(tmp2, rd) == v3_sub(u, q));

    let rot_ray = Ray { pos: v3_add(u, piv), dir: v3_rotate(ray.dir, rd) };
    let tmp_rot = v3_sub(rot_ray.pos, s.pos);
    assert(tmp_rot == v3_sub(u, q));

    // The quadratic's coefficients agree, so the roots and the chosen
    // distance agree.
    lemma_cardinal_y_dot(ray.dir, ray.dir, rd);
    lemma_cardinal_y_dot(ray.dir, tmp2, rd);
    lemma_cardinal_y_dot(tmp2, tmp2, rd);
    assert(v3_dot(rot_ray.dir, tmp_rot) == v3_dot(ray.dir, tmp2));
    assert(v3_dot(rot_ray.dir, rot_ray.dir) == v3_dot(ray.dir, ray.dir));
    assert(v3_dot(tmp_rot, tmp_rot) == v3_dot(tmp2, tmp2));
    assert(object_hit(*rt.object, rot_ray) == sphere_hit(s, rot_ray));
}

/// The index of the face on the geometrically opposite side of the box.
pub open spec fn face_opposite(k: int) -> int {
    if k == 0 {
        1
    } else if k == 1 {
        0
    } else if k == 2 {
        3
    } else if k == 3 {
        2
    } else if k == 4 {
        5
    } else {
        4
    }
}

/// A skybox box places each face on the opposite side of the center, so at
/// every geometric face it presents exactly the negation of the normal the
/// plain box presents there: its face `k` stands at the position of the
/// plain box's face `face_opposite(k)`, with the mirrored normal and the
/// same extents.
pub proof fn lemma_skybox_inward_normals(pos: Vec3, dim: Vec3, mat: Material)
    ensures
        box_faces(pos, dim, mat, true).len() == 6,
        box_faces(pos, dim, mat, false).len() == 6,
        forall|k: int|
            0 <= k < 6 ==> (#[trigger] box_faces(pos, dim, mat, true)[k]).pos == box_faces(
                pos,
                dim,
                mat,
                false,
            )[face_opposite(k)].pos,
        forall|k: int|
            0 <= k < 6 ==> (#[trigger] box_faces(pos, dim, mat, true)[k]).normal == v3_neg(
                box_faces(pos, dim, mat, false)[face_opposite(k)].normal,
            ),
        forall|k: int|
            0 <= k < 6 ==> (#[trigger] box_faces(pos, dim, mat, true)[k]).dim == dim,
{
    let hx = fx_div(dim.x, Fx { raw: FX_TWO });
    let hy = fx_div(dim.y, Fx { raw: FX_TWO });
    let hz = fx_div(dim.z, Fx { raw: FX_TWO });
    lemma_fx_half_bound(dim.x);
    lemma_fx_half_bound(dim.y);
    lemma_fx_half_bound(dim.z);
    lemma_fx_mul_one(hx);
    lemma_fx_mul_one(hy);
    lemma_fx_mul_one(hz);
    lemma_fx_mul_neg_one(hx);
    lemma_fx_mul_neg_one(hy);
    lemma_fx_mul_neg_one(hz);
    let s = box_faces(pos, dim, mat, true);
    let n = box_faces(pos, dim, mat, false);
    assert forall|k: int| 0 <= k < 6 implies (#[trigger] s[k]).pos == n[face_opposite(k)].pos
        && s[k].normal == v3_neg(n[face_opposite(k)].normal) && s[k].dim == dim by {
        assert(fx_sub(pos.x, fx_neg(hx)) == fx_add(pos.x, hx));
        assert(fx_add(pos.x, fx_neg(hx)) == fx_sub(pos.x, hx));
        assert(fx_sub(pos.y, fx_neg(hy)) == fx_add(pos.y, hy));
        assert(fx_add(pos.y, fx_neg(hy)) == fx_sub(pos.y, hy));
        assert(fx_sub(pos.z, fx_neg(hz)) == fx_add(pos.z, hz));
        assert(fx_add(pos.z, fx_neg(hz)) == fx_sub(pos.z, hz));
    }
}

impl Sphere {
    pub fn new(pos: Vec3, radius: Fx, mat: Material) -> (s: Sphere)
        ensures
            s == (Sphere { pos, radius, mat }),
    {
        Sphere { pos, radius, mat }
    }

    pub fn intersect(&self, ray: &Ray) -> (r: Option<Inter>)
        ensures
            r == sphere_hit(*self, *ray),
    {
        proof {
            reveal(sphere_hit);
        }
        let temporary = ray.pos.sub(self.pos);
        let b = Fx { raw: FX_TWO }.mul(dot(ray.dir, temporary));
        let a = dot(ray.dir, ray.dir);
        let c = dot(temporary, temporary).sub(self.radius.mul(self.radius));
        let disc = b.mul(b).sub(Fx { raw: FX_FOUR }.mul(a).mul(c));
        if disc.raw < 0 {
            return None;
        }
        let discriminent = disc.sqrt();
        let t1 = b.neg().add(discriminent).div(Fx { raw: FX_TWO }.mul(a));
        let t2 = b.neg().sub(discriminent).div(Fx { raw: FX_TWO }.mul(a));
        if t1.raw <= 0 && t2.raw <= 0 {
            return None;
        }
        let dist = if t2.raw <= 0 || t1.raw < t2.raw {
            t1
        } else {
            t2
        };
        let pos = ray.pos.add(ray.dir.scale(dist));

        let normal = if ray.pos.sub(self.pos).length().raw > self.radius.raw {
            pos.sub(self.pos).normalize()
        } else {
            pos.sub(self.pos).normalize().scale(Fx { raw: FX_NEG_ONE })
        };
        Some(Inter::new(dist, pos, normal, self.mat))
    }
}

impl Plane {
    /// The stored normal is the given one normalized.
    pub fn new(pos: Vec3, normal: Vec3, mat: Material) -> (p: Plane)
        ensures
            p == (Plane { pos, normal: v3_normalize(normal), mat }),
    {
        Plane { pos, normal: normal.normalize(), mat }
    }

    pub fn intersect(&self, ray: &Ray) -> (r: Option<Inter>)
        ensures
            r == plane_hit(*self, *ray),
    {
        proof {
            reveal(plane_hit);
        }
        let dist = dot(self.pos.sub(ray.pos), self.normal).div(dot(ray.dir, self.normal));
        if dist.raw <= 0 {
            return None;
        }
        let pos = ray.pos.add(ray.dir.scale(dist));
        Some(Inter::new(dist, pos, self.normal, self.mat))
    }
}

impl AARect {
    /// The stored normal is the unit vector of the outward axis.
    pub fn new(pos: Vec3, dir: Dir, dim: Vec3, mat: Material) -> (r: AARect)
        ensures
            r == (AARect { pos, dir, dim, normal: dir_normal(dir), mat }),
    {
        let normal = match dir {
            Dir::Left => Vec3 { x: Fx { raw: FX_NEG_ONE }, y: Fx { raw: 0 }, z: Fx { raw: 0 } },
            Dir::Right => Vec3 { x: Fx { raw: FX_SCALE }, y: Fx { raw: 0 }, z: Fx { raw: 0 } },
            Dir::Top => Vec3 { x: Fx { raw: 0 }, y: Fx { raw: FX_SCALE }, z: Fx { raw: 0 } },
            Dir::Bottom => Vec3 { x: Fx { raw: 0 }, y: Fx { raw: FX_NEG_ONE }, z: Fx { raw: 0 } },
            Dir::Front => Vec3 { x: Fx { raw: 0 }, y: Fx { raw: 0 }, z: Fx { raw: FX_SCALE } },
            Dir::Back => Vec3 { x: Fx { raw: 0 }, y: Fx { raw: 0 }, z: Fx { raw: FX_NEG_ONE } },
        };
        AARect { pos, dir, dim, normal, mat }
    }

    pub fn intersect(&self, ray: &Ray) -> (r: Option<Inter>)
        ensures
            r == rect_hit(*self, *ray),
    {
        proof {
            reveal(rect_hit);
        }
        // Plane intersection
        let dist = dot(self.pos.sub(ray.pos), self.normal).div(dot(ray.dir, self.normal));
        if dist.raw <= 0 {
            return None;
        }
        let pos = ray.pos.add(ray.dir.scale(dist));

        // Extent check
        let diff = pos.sub(self.pos);
        if diff.x.abs().mul(Fx { raw: FX_TWO }).raw > self.dim.x.raw
            || diff.y.abs().mul(Fx { raw: FX_TWO }).raw > self.dim.y.raw
            || diff.z.abs().mul(Fx { raw: FX_TWO }).raw > self.dim.z.raw {
            return None;
        }

        Some(Inter::new(dist, pos, self.normal, self.mat))
    }
}

impl AABox {
    pub fn new(pos: Vec3, dim: Vec3, mat: Material, skybox: bool) -> (b: AABox)
        ensures
            b.faces@ == box_faces(pos, dim, mat, skybox),
    {
        let sign = if skybox {
            Fx { raw: FX_NEG_ONE }
        } else {
            Fx { raw: FX_SCALE }
        };
        let hx = dim.x.div(Fx { raw: FX_TWO }).mul(sign);
        let hy = dim.y.div(Fx { raw: FX_TWO }).mul(sign);
        let hz = dim.z.div(Fx { raw: FX_TWO }).mul(sign);

        let left_pos = Vec3 { x: pos.x.sub(hx), y: pos.y, z: pos.z };
        let right_pos = Vec3 { x: pos.x.add(hx), y: pos.y, z: pos.z };
        let top_pos = Vec3 { x: pos.x, y: pos.y.add(hy), z: pos.z };
        let bottom_pos = Vec3 { x: pos.x, y: pos.y.sub(hy), z: pos.z };
        let front_pos = Vec3 { x: pos.x, y: pos.y, z: pos.z.add(hz) };
        let back_pos = Vec3 { x: pos.x, y: pos.y, z: pos.z.sub(hz) };

        let faces: Vec<AARect> = vec![
            AARect::new(left_pos, Dir::Left, dim, mat),
            AARect::new(right_pos, Dir::Right, dim, mat),
            AARect::new(top_pos, Dir::Top, dim, mat),
            AARect::new(bottom_pos, Dir::Bottom, dim, mat),
            AARect::new(front_pos, Dir::Front, dim, mat),
            AARect::new(back_pos, Dir::Back, dim, mat),
        ];
        proof {
            assert(faces@ =~= box_faces(pos, dim, mat, skybox));
        }
        AABox { faces }
    }

    pub fn intersect(&self, ray: &Ray) -> (r: Option<Inter>)
        ensures
            r == box_hit(*self, *ray),
    {
        proof {
            reveal(box_hit);
        }
        let mut inter: Option<Inter> = None;
        let mut i: usize = 0;
        proof {
            assert(self.faces@.skip(0) =~= self.faces@);
        }
        while i < self.faces.len()
            invariant
                i <= self.faces@.len(),
                rect_seq_hit(self.faces@, *ray) == hit_closer(
                    inter,
                    rect_seq_hit(self.faces@.skip(i as int), *ray),
                ),
            decreases self.faces@.len() - i,
        {
            let cur_inter = self.faces[i].intersect(ray);
            proof {
                lemma_hit_closer_assoc(
                    inter,
                    cur_inter,
                    rect_seq_hit(self.faces@.skip(i as int + 1), *ray),
                );
                assert(self.faces@.skip(i as int).drop_first() =~= self.faces@.skip(i as int + 1));
                assert(self.faces@.skip(i as int)[0] == self.faces@[i as int]);
            }
            if cur_inter.is_some() && (inter.is_none() || cur_inter.unwrap().dist.raw
                < inter.unwrap().dist.raw) {
                inter = cur_inter;
            }
            i = i + 1;
        }
        proof {
            assert(self.faces@.skip(i as int) =~= Seq::<AARect>::empty());
        }
        inter
    }
}

/// `hit_closer` groups either way: keeping the earliest-nearest of three
/// candidates does not depend on the order the fold combines them.
proof fn lemma_hit_closer_assoc(a: Option<Inter>, b: Option<Inter>, c: Option<Inter>)
    ensures
        hit_closer(hit_closer(a, b), c) == hit_closer(a, hit_closer(b, c)),
{
}

/// The distance carried by a hit; zero for a miss.
pub open spec fn hit_dist(h: Option<Inter>) -> int {
    match h {
        Option::Some(i) => i.dist.raw as int,
        Option::None => 0,
    }
}

/// The fold [`hit_closer`] performs over any row of candidate hits.
pub open spec fn hits_fold(hits: Seq<Option<Inter>>) -> Option<Inter>
    decreases hits.len(),
{
    if hits.len() == 0 {
        Option::None
    } else {
        hit_closer(hits[0], hits_fold(hits.drop_first()))
    }
}

/// Each child's own hit, in list order.
pub open spec fn hits_of(objs: Seq<Object>, ray: Ray) -> Seq<Option<Inter>> {
    Seq::new(objs.len(), |i: int| object_hit(objs[i], ray))
}

/// The earliest-nearest fold misses exactly when every candidate misses;
/// otherwise it equals some candidate that no candidate beats, and every
/// earlier candidate misses or lies strictly farther.
proof fn lemma_hits_fold_min(hits: Seq<Option<Inter>>)
    ensures
        (hits_fold(hits) is None) <==> (forall|i: int|
            0 <= i < hits.len() ==> (#[trigger] hits[i]) is None),
        hits_fold(hits) is Some ==> (forall|i: int|
            0 <= i < hits.len() && (#[trigger] hits[i]) is Some ==> hit_dist(hits_fold(hits))
                <= hit_dist(hits[i])),
        hits_fold(hits) is Some ==> (exists|i: int|
            0 <= i < hits.len() && hits_fold(hits) == (#[trigger] hits[i]) && (forall|j: int|
                0 <= j < i ==> hits[j] is None || hit_dist(hits[j]) > hit_dist(hits_fold(hits)))),
    decreases hits.len(),
{
    if hits.len() > 0 {
        let rest = hits.drop_first();
        lemma_hits_fold_min(rest);
        let first = hits[0];
        let rhit = hits_fold(rest);
        let whole = hits_fold(hits);
        assert(forall|j: int| 0 <= j < rest.len() ==> #[trigger] rest[j] == hits[j + 1]);
        if whole is None {
            assert forall|i: int| 0 <= i < hits.len() implies (#[trigger] hits[i]) is None by {
                if i > 0 {
                    assert(rest[i - 1] is None);
                }
            }
        }
        if whole is Some {
            assert forall|i: int|
                0 <= i < hits.len() && (#[trigger] hits[i]) is Some implies hit_dist(whole)
                <= hit_dist(hits[i]) by {
                if i > 0 {
                    assert(rest[i - 1] == hits[i]);
                    assert(rhit is Some ==> hit_dist(rhit) <= hit_dist(rest[i - 1]));
                    if rhit is None {
                        assert(rest[i - 1] is None);
                    }
                }
            }
        }
        if whole is Some {
            if first is Some && (rhit is None || hit_dist(first) <= hit_dist(rhit)) {
                // The first candidate wins: it is the witness.
                assert(whole == hits[0] && (forall|j: int|
                    0 <= j < 0 ==> hits[j] is None || hit_dist(hits[j]) > hit_dist(whole)));
            } else {
                // A later candidate wins strictly: shift the rest's witness.
                assert(whole == rhit);
                let i0 = choose|i: int|
                    0 <= i < rest.len() && hits_fold(rest) == (#[trigger] rest[i]) && (forall|
                        j: int,
                    |
                        0 <= j < i ==> rest[j] is None || hit_dist(rest[j]) > hit_dist(
                            hits_fold(rest),
                        ));
                assert forall|j: int| 0 <= j < i0 + 1 implies hits[j] is None || hit_dist(
                    hits[j],
                ) > hit_dist(whole) by {
                    if j > 0 {
                        assert(rest[j - 1] is None || hit_dist(rest[j - 1]) > hit_dist(rhit));
                    }
                }
                assert(0 <= i0 + 1 < hits.len() && whole == hits[i0 + 1] && (forall|j: int|
                    0 <= j < i0 + 1 ==> hits[j] is None || hit_dist(hits[j]) > hit_dist(whole)));
            }
        }
    }
}

/// A group's fold over its children is the abstract fold of their hits.
proof fn lemma_seq_hit_is_fold(objs: Seq<Object>, ray: Ray)
    ensures
        seq_hit(objs, ray) == hits_fold(hits_of(objs, ray)),
    decreases objs.len(),
{
    if objs.len() > 0 {
        lemma_seq_hit_is_fold(objs.drop_first(), ray);
        assert(hits_of(objs, ray).drop_first() =~= hits_of(objs.drop_first(), ray));
        assert(hits_of(objs, ray)[0] == object_hit(objs[0], ray));
    }
}

/// A group's intersection equals the minimum-distance result of intersecting
/// each child independently, ties resolving to the first child in list
/// order: the group misses exactly when every child misses; otherwise the
/// result is some child's own hit, no child hits nearer, and every earlier
/// child misses or hits strictly farther.
pub proof fn lemma_group_min(objs: Seq<Object>, ray: Ray)
    ensures
        (seq_hit(objs, ray) is None) <==> (forall|i: int|
            0 <= i < objs.len() ==> (#[trigger] object_hit(objs[i], ray)) is None),
        seq_hit(objs, ray) is Some ==> (forall|i: int|
            0 <= i < objs.len() && (#[trigger] object_hit(objs[i], ray)) is Some ==> hit_dist(
                seq_hit(objs, ray),
            ) <= hit_dist(object_hit(objs[i], ray))),
        seq_hit(objs, ray) is Some ==> (exists|i: int|
            0 <= i < objs.len() && seq_hit(objs, ray) == (#[trigger] object_hit(objs[i], ray)) && (
            forall|j: int|
                0 <= j < i ==> (#[trigger] object_hit(objs[j], ray)) is None || hit_dist(
                    object_hit(objs[j], ray),
                ) > hit_dist(seq_hit(objs, ray)))),
{
    let hits = hits_of(objs, ray);
    lemma_seq_hit_is_fold(objs, ray);
    lemma_hits_fold_min(hits);
    assert(forall|i: int| 0 <= i < objs.len() ==> (#[trigger] object_hit(objs[i], ray))
        == hits[i]);
    if seq_hit(objs, ray) is Some {
        let i0 = choose|i: int|
            0 <= i < hits.len() && hits_fold(hits) == (#[trigger] hits[i]) && (forall|j: int|
                0 <= j < i ==> hits[j] is None || hit_dist(hits[j]) > hit_dist(hits_fold(hits)));
        assert(seq_hit(objs, ray) == object_hit(objs[i0], ray));
        assert forall|j: int| 0 <= j < i0 implies (#[trigger] object_hit(objs[j], ray)) is None
            || hit_dist(object_hit(objs[j], ray)) > hit_dist(seq_hit(objs, ray)) by {
            assert(hits[j] is None || hit_dist(hits[j]) > hit_dist(hits_fold(hits)));
        }
        assert(0 <= i0 < objs.len() && seq_hit(objs, ray) == (#[trigger] object_hit(
            objs[i0],
            ray,
        )) && (forall|j: int|
            0 <= j < i0 ==> (#[trigger] object_hit(objs[j], ray)) is None || hit_dist(
                object_hit(objs[j], ray),
            ) > hit_dist(seq_hit(objs, ray))));
    }
}

/// The box extents a hexagonal prism of radius `x` and height `y` uses:
/// the depth is the radius under the tangent of thirty degrees.
pub open spec fn hexa_dim(x: Fx, y: Fx) -> Vec3 {
    Vec3 { x, y, z: fx_mul(Fx { raw: FX_TAN30 }, x) }
}

/// Rotation about the Y axis by sixty degrees.
pub open spec fn rot_y60() -> Rotation {
    Rotation {
        x: Angle { sin: Fx { raw: 0 }, cos: Fx { raw: FX_SCALE } },
        y: Angle { sin: Fx { raw: FX_SIN60 }, cos: Fx { raw: FX_COS60 } },
        z: Angle { sin: Fx { raw: 0 }, cos: Fx { raw: FX_SCALE } },
    }
}

/// Rotation about the Y axis by a hundred and twenty degrees.
pub open spec fn rot_y120() -> Rotation {
    Rotation {
        x: Angle { sin: Fx { raw: 0 }, cos: Fx { raw: FX_SCALE } },
        y: Angle { sin: Fx { raw: FX_SIN60 }, cos: Fx { raw: FX_COS120 } },
        z: Angle { sin: Fx { raw: 0 }, cos: Fx { raw: FX_SCALE } },
    }
}

impl AAHexa {
    /// Three boxes through the shared center: one straight, one rotated by
    /// sixty degrees about Y, one by a hundred and twenty.
    pub fn new(pos: Vec3, x: Fx, y: Fx, mat: Material) -> (hx: AAHexa)
        ensures
            hx.faces.all@.len() == 3,
            hx.faces.all@[0] is AABox,
            hx.faces.all@[0]->AABox_0.faces@ == box_faces(pos, hexa_dim(x, y), mat, false),
            hx.faces.all@[1] is Rotate,
            hx.faces.all@[1]->Rotate_0.pos == pos,
            hx.faces.all@[1]->Rotate_0.dir == rot_y60(),
            (*hx.faces.all@[1]->Rotate_0.object) is AABox,
            (*hx.faces.all@[1]->Rotate_0.object)->AABox_0.faces@ == box_faces(
                pos,
                hexa_dim(x, y),
                mat,
                false,
            ),
            hx.faces.all@[2] is Rotate,
            hx.faces.all@[2]->Rotate_0.pos == pos,
            hx.faces.all@[2]->Rotate_0.dir == rot_y120(),
            (*hx.faces.all@[2]->Rotate_0.object) is AABox,
            (*hx.faces.all@[2]->Rotate_0.object)->AABox_0.faces@ == box_faces(
                pos,
                hexa_dim(x, y),
                mat,
                false,
            ),
    {
        let z = Fx { raw: FX_TAN30 }.mul(x);
        let dim = Vec3 { x, y, z };
        let r60 = Rotation::new(
            Angle::zero(),
            Angle::new(Fx { raw: FX_SIN60 }, Fx { raw: FX_COS60 }),
            Angle::zero(),
        );
        let r120 = Rotation::new(
            Angle::zero(),
            Angle::new(Fx { raw: FX_SIN60 }, Fx { raw: FX_COS120 }),
            Angle::zero(),
        );

        let faces: Vec<Object> = vec![
            Object::AABox(AABox::new(pos, dim, mat, false)),
            Object::Rotate(
                Rotate::new(pos, r60, Box::new(Object::AABox(AABox::new(pos, dim, mat, false)))),
            ),
            Object::Rotate(
                Rotate::new(pos, r120, Box::new(Object::AABox(AABox::new(pos, dim, mat, false)))),
            ),
        ];
        AAHexa { faces: Objects::new(faces) }
    }
}

impl Objects {
    pub fn new(all: Vec<Object>) -> (o: Objects)
        ensures
            o.all@ == all@,
    {
        Objects { all }
    }

    pub fn add(&mut self, object: Object)
        ensures
            final(self).all@ == old(self).all@.push(object),
    {
        self.all.push(object);
    }

    #[verifier::rlimit(50)]
    pub fn intersect(&self, ray: &Ray) -> (r: Option<Inter>)
        ensures
            r == seq_hit(self.all@, *ray),
        decreases self.all@,
    {
        let mut inter: Option<Inter> = None;
        let mut i: usize = 0;
        proof {
            assert(self.all@.skip(0) =~= self.all@);
        }
        while i < self.all.len()
            invariant
                i <= self.all@.len(),
                seq_hit(self.all@, *ray) == hit_closer(
                    inter,
                    seq_hit(self.all@.skip(i as int), *ray),
                ),
            decreases self.all@.len() - i,
        {
            proof {
                assert(decreases_to!(self.all@ => self.all@[i as int]));
            }
            let cur_inter = self.all[i].intersect(ray);
            proof {
                lemma_hit_closer_assoc(
                    inter,
                    cur_inter,
                    seq_hit(self.all@.skip(i as int + 1), *ray),
                );
                assert(self.all@.skip(i as int).drop_first() =~= self.all@.skip(i as int + 1));
                assert(self.all@.skip(i as int)[0] == self.all@[i as int]);
            }
            if cur_inter.is_some() && (inter.is_none() || cur_inter.unwrap().dist.raw
                < inter.unwrap().dist.raw) {
                inter = cur_inter;
            }
            i = i + 1;
        }
        proof {
            assert(self.all@.skip(i as int) =~= Seq::<Object>::empty());
        }
        inter
    }
}

impl Rotate {
    pub fn new(pos: Vec3, dir: Rotation, object: Box<Object>) -> (r: Rotate)
        ensures
            r == (Rotate { pos, dir, object }),
    {
        Rotate { pos, dir, object }
    }

    pub fn intersect(&self, ray: &Ray) -> (r: Option<Inter>)
        ensures
            r == rotate_hit(*self, *ray),
        decreases *self,
    {
        proof {
            reveal(rotate_hit);
        }
        let rot_ray = Ray::new(
            rotate(ray.pos.sub(self.pos), self.dir).add(self.pos),
            rotate(ray.dir, self.dir),
        );
        match self.object.intersect(&rot_ray) {
            Some(inter) => {
                Some(Inter::new(
                    inter.dist,
                    rotate(inter.pos.sub(self.pos), self.dir.neg()).add(self.pos),
                    rotate(inter.normal, self.dir.neg()),
                    inter.mat,
                ))
            },
            None => None,
        }
    }
}

impl AAHexa {
    pub fn intersect(&self, ray: &Ray) -> (r: Option<Inter>)
        ensures
            r == seq_hit(self.faces.all@, *ray),
        decreases *self,
    {
        self.faces.intersect(ray)
    }
}

impl Object {
    /// Dispatch `intersect` to the variant.
    pub fn intersect(&self, ray: &Ray) -> (r: Option<Inter>)
        ensures
            r == object_hit(*self, *ray),
        decreases *self,
    {
        match self {
            Object::Sphere(s) => {
                proof {
                    assert(object_hit(*self, *ray) == sphere_hit(*s, *ray));
                }
                s.intersect(ray)
            },
            Object::Plane(p) => {
                proof {
                    assert(object_hit(*self, *ray) == plane_hit(*p, *ray));
                }
                p.intersect(ray)
            },
            Object::AARect(rc) => {
                proof {
                    assert(object_hit(*self, *ray) == rect_hit(*rc, *ray));
                }
                rc.intersect(ray)
            },
            Object::AABox(b) => {
                proof {
                    assert(object_hit(*self, *ray) == box_hit(*b, *ray));
                }
                b.intersect(ray)
            },
            Object::AAHexa(h) => {
                proof {
                    assert(object_hit(*self, *ray) == seq_hit(h.faces.all@, *ray));
                }
                h.intersect(ray)
            },
            Object::Rotate(rt) => {
                proof {
                    reveal_with_fuel(rotate_hit, 2);
                    assert(object_hit(*self, *ray) == rotate_hit(*rt, *ray));
                }
                rt.intersect(ray)
            },
            Object::HeightMap(hm) => {
                proof {
                    assert(object_hit(*self, *ray) == height_map_hit(*hm, *ray));
                }
                hm.intersect(ray)
            },
            Object::Group(g) => {
                proof {
                    assert(object_hit(*self, *ray) == seq_hit(g.all@, *ray));
                }
                g.intersect(ray)
            },
        }
    }
}

} // verus!
