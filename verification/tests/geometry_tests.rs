use raytracer::fixed::{Fx, FX_SCALE};
use raytracer::material::{Color, Material};
use raytracer::object::{AABox, AAHexa, AARect, Dir, Object, Objects, Plane, Rotate, Sphere};
use raytracer::ray::Ray;
use raytracer::vec3::{Angle, Rotation, Vec3};

const ONE: i64 = FX_SCALE;

fn fx(raw: i64) -> Fx {
    Fx { raw }
}

fn v3(x: i64, y: i64, z: i64) -> Vec3 {
    Vec3 { x: fx(x * ONE), y: fx(y * ONE), z: fx(z * ONE) }
}

fn mat_colored(r: i64, g: i64, b: i64) -> Material {
    Material::new(
        Color::new(fx(r), fx(g), fx(b)),
        fx(0),
        fx(ONE),
        fx(0),
        fx(ONE),
        fx(0),
    )
}

fn mat_plain() -> Material {
    mat_colored(ONE, ONE, ONE)
}

fn down_z_ray_from_ten() -> Ray {
    Ray::new(v3(0, 0, 10), v3(0, 0, -1))
}

#[test]
fn sphere_from_outside_distance_and_normal() {
    // A sphere of radius 2 at the origin, a ray along -Z from (0,0,10):
    // the hit lies at distance 10 - 2 = 8 with the outward radial normal.
    let s = Sphere::new(v3(0, 0, 0), fx(2 * ONE), mat_plain());
    let hit = s.intersect(&down_z_ray_from_ten()).unwrap();
    assert_eq!(hit.dist.raw, 8 * ONE);
    assert_eq!(hit.pos, v3(0, 0, 2));
    assert_eq!(hit.normal, v3(0, 0, 1));
}

#[test]
fn sphere_distance_tracks_the_radius() {
    // The same axial ray against radius 4: distance 10 - 4, exactly.
    let s = Sphere::new(v3(0, 0, 0), fx(4 * ONE), mat_plain());
    let hit = s.intersect(&down_z_ray_from_ten()).unwrap();
    assert_eq!(hit.dist.raw, 6 * ONE);
    assert_eq!(hit.normal, v3(0, 0, 1));
}

#[test]
fn sphere_from_inside_flips_the_normal() {
    let s = Sphere::new(v3(0, 0, 0), fx(2 * ONE), mat_plain());
    let hit = s.intersect(&Ray::new(v3(0, 0, 0), v3(0, 0, -1))).unwrap();
    assert_eq!(hit.dist.raw, 2 * ONE);
    assert_eq!(hit.pos, v3(0, 0, -2));
    // Outward would be (0,0,-1); from inside the normal points back.
    assert_eq!(hit.normal, v3(0, 0, 1));
}

#[test]
fn sphere_miss_is_none() {
    let s = Sphere::new(v3(100, 0, 0), fx(ONE), mat_plain());
    assert!(s.intersect(&down_z_ray_from_ten()).is_none());
}

#[test]
fn sphere_behind_the_ray_is_none() {
    let s = Sphere::new(v3(0, 0, 20), fx(ONE), mat_plain());
    assert!(s.intersect(&down_z_ray_from_ten()).is_none());
}

#[test]
fn plane_hit_distance() {
    let p = Plane::new(v3(0, 0, 0), v3(0, 1, 0), mat_plain());
    let hit = p.intersect(&Ray::new(v3(0, 5, 0), v3(0, -1, 0))).unwrap();
    assert_eq!(hit.dist.raw, 5 * ONE);
    assert_eq!(hit.pos, v3(0, 0, 0));
    assert_eq!(hit.normal, v3(0, 1, 0));
}

#[test]
fn plane_zero_distance_is_none() {
    // A ray starting exactly on the plane computes distance zero, which is
    // not a hit: only strictly positive distances count.
    let p = Plane::new(v3(0, 0, 0), v3(0, 1, 0), mat_plain());
    assert!(p.intersect(&Ray::new(v3(0, 0, 0), v3(0, -1, 0))).is_none());
    assert!(p.intersect(&Ray::new(v3(3, 0, 7), v3(0, 1, 0))).is_none());
}

#[test]
fn plane_behind_is_none() {
    let p = Plane::new(v3(0, 0, 0), v3(0, 1, 0), mat_plain());
    assert!(p.intersect(&Ray::new(v3(0, 5, 0), v3(0, 1, 0))).is_none());
}

#[test]
fn rect_bounds_are_checked() {
    let r = AARect::new(v3(0, 0, 0), Dir::Top, v3(4, 0, 4), mat_plain());
    // Straight down onto the middle: hit.
    let hit = r.intersect(&Ray::new(v3(1, 5, 1), v3(0, -1, 0))).unwrap();
    assert_eq!(hit.dist.raw, 5 * ONE);
    assert_eq!(hit.normal, v3(0, 1, 0));
    // Straight down outside the extents: miss.
    assert!(r.intersect(&Ray::new(v3(3, 5, 0), v3(0, -1, 0))).is_none());
}

#[test]
fn rect_zero_distance_is_none() {
    let r = AARect::new(v3(0, 0, 0), Dir::Top, v3(4, 0, 4), mat_plain());
    // Starting on the rectangle, inside its extents: still no hit.
    assert!(r.intersect(&Ray::new(v3(1, 0, 1), v3(0, -1, 0))).is_none());
}

#[test]
fn box_hit_from_outside() {
    let b = AABox::new(v3(0, 0, 0), v3(4, 4, 4), mat_plain(), false);
    let hit = b.intersect(&down_z_ray_from_ten()).unwrap();
    assert_eq!(hit.dist.raw, 8 * ONE);
    assert_eq!(hit.normal, v3(0, 0, 1));
}

#[test]
fn skybox_presents_inward_normals() {
    // Seen from the center, the skybox face in the +X direction carries the
    // normal (-1,0,0): the negation of what the plain box presents at that
    // geometric face from outside.
    let plain = AABox::new(v3(0, 0, 0), v3(4, 4, 4), mat_plain(), false);
    let sky = AABox::new(v3(0, 0, 0), v3(4, 4, 4), mat_plain(), true);

    let from_center = Ray::new(v3(0, 0, 0), v3(1, 0, 0));
    let sky_hit = sky.intersect(&from_center).unwrap();
    assert_eq!(sky_hit.dist.raw, 2 * ONE);
    assert_eq!(sky_hit.normal, v3(-1, 0, 0));

    let from_outside = Ray::new(v3(10, 0, 0), v3(-1, 0, 0));
    let plain_hit = plain.intersect(&from_outside).unwrap();
    assert_eq!(plain_hit.pos, v3(2, 0, 0));
    assert_eq!(sky_hit.pos, v3(2, 0, 0));
    assert_eq!(sky_hit.normal, plain_hit.normal.neg());
}

#[test]
fn group_takes_the_nearest_hit() {
    // The farther sphere comes first in the list; the nearer one must win.
    let far = Object::Sphere(Sphere::new(v3(0, 0, 3), fx(ONE), mat_colored(ONE, 0, 0)));
    let near = Object::Sphere(Sphere::new(v3(0, 0, 5), fx(ONE), mat_colored(0, ONE, 0)));
    let group = Objects::new(vec![far, near]);
    let hit = group.intersect(&down_z_ray_from_ten()).unwrap();
    assert_eq!(hit.dist.raw, 4 * ONE);
    assert_eq!(hit.mat.color.g.raw, ONE);
}

#[test]
fn group_tie_goes_to_the_first_child() {
    let first = Object::Sphere(Sphere::new(v3(0, 0, 5), fx(ONE), mat_colored(ONE, 0, 0)));
    let second = Object::Sphere(Sphere::new(v3(0, 0, 5), fx(ONE), mat_colored(0, ONE, 0)));
    let group = Objects::new(vec![first, second]);
    let hit = group.intersect(&down_z_ray_from_ten()).unwrap();
    assert_eq!(hit.dist.raw, 4 * ONE);
    assert_eq!(hit.mat.color.r.raw, ONE);
    assert_eq!(hit.mat.color.g.raw, 0);
}

#[test]
fn group_misses_when_every_child_misses() {
    let a = Object::Sphere(Sphere::new(v3(100, 0, 0), fx(ONE), mat_plain()));
    let b = Object::Sphere(Sphere::new(v3(0, 100, 0), fx(ONE), mat_plain()));
    let group = Objects::new(vec![a, b]);
    assert!(group.intersect(&down_z_ray_from_ten()).is_none());
}

#[test]
fn nested_groups_pass_hits_through() {
    let inner = Objects::new(vec![Object::Sphere(Sphere::new(
        v3(0, 0, 0),
        fx(2 * ONE),
        mat_plain(),
    ))]);
    let outer = Objects::new(vec![Object::Group(inner)]);
    let hit = outer.intersect(&down_z_ray_from_ten()).unwrap();
    assert_eq!(hit.dist.raw, 8 * ONE);
}

#[test]
fn empty_group_misses() {
    let group = Objects::new(vec![]);
    assert!(group.intersect(&down_z_ray_from_ten()).is_none());
}

fn quarter_turn_y() -> Rotation {
    Rotation::new(Angle::zero(), Angle::new(fx(ONE), fx(0)), Angle::zero())
}

#[test]
fn rotate_moves_the_object() {
    // A sphere at (5,0,0) rotated a quarter turn about Y at the origin
    // intersects like the same sphere placed at (0,0,5).
    let rotated = Object::Rotate(Rotate::new(
        v3(0, 0, 0),
        quarter_turn_y(),
        Box::new(Object::Sphere(Sphere::new(v3(5, 0, 0), fx(2 * ONE), mat_plain()))),
    ));
    let reference = Sphere::new(v3(0, 0, 5), fx(2 * ONE), mat_plain());

    let ray = down_z_ray_from_ten();
    let hit = rotated.intersect(&ray).unwrap();
    let ref_hit = reference.intersect(&ray).unwrap();
    assert_eq!(hit.dist.raw, 3 * ONE);
    assert_eq!(hit.dist, ref_hit.dist);
}

#[test]
fn rotate_quarter_turn_round_trip_is_exact() {
    // Rotating by a quarter turn and back wraps the child in two decorators;
    // the intersection must equal the bare object's exactly.
    let bare = Sphere::new(v3(5, 0, 0), fx(2 * ONE), mat_plain());
    let inner = Object::Rotate(Rotate::new(
        v3(0, 0, 0),
        quarter_turn_y(),
        Box::new(Object::Sphere(bare)),
    ));
    let both = Object::Rotate(Rotate::new(
        v3(0, 0, 0),
        quarter_turn_y().neg(),
        Box::new(inner),
    ));

    let ray = Ray::new(v3(10, 0, 0), v3(-1, 0, 0));
    let wrapped = both.intersect(&ray).unwrap();
    let direct = bare.intersect(&ray).unwrap();
    assert_eq!(wrapped.dist, direct.dist);
    assert_eq!(wrapped.pos, direct.pos);
    assert_eq!(wrapped.normal, direct.normal);
}

#[test]
fn rotate_round_trip_keeps_misses() {
    let bare = Sphere::new(v3(5, 0, 0), fx(ONE), mat_plain());
    let inner = Object::Rotate(Rotate::new(
        v3(0, 0, 0),
        quarter_turn_y(),
        Box::new(Object::Sphere(bare)),
    ));
    let both = Object::Rotate(Rotate::new(
        v3(0, 0, 0),
        quarter_turn_y().neg(),
        Box::new(inner),
    ));
    // A ray that misses the bare sphere misses the wrapped one too.
    let ray = Ray::new(v3(10, 10, 0), v3(0, 0, -1));
    assert!(bare.intersect(&ray).is_none());
    assert!(both.intersect(&ray).is_none());
}

#[test]
fn rotate_round_trip_within_tolerance_for_a_general_angle() {
    // Thirty degrees: sine 0.5 exactly, cosine 0.86602540... ~ 56756 raw.
    let thirty = Angle::new(fx(ONE / 2), fx(56756));
    let rot = Rotation::new(Angle::zero(), thirty, Angle::zero());
    let bare = Sphere::new(v3(5, 0, 0), fx(2 * ONE), mat_plain());
    let inner = Object::Rotate(Rotate::new(
        v3(0, 0, 0),
        rot,
        Box::new(Object::Sphere(bare)),
    ));
    let both = Object::Rotate(Rotate::new(v3(0, 0, 0), rot.neg(), Box::new(inner)));

    let ray = Ray::new(v3(10, 0, 0), v3(-1, 0, 0));
    let wrapped = both.intersect(&ray).unwrap();
    let direct = bare.intersect(&ray).unwrap();
    let err = (wrapped.dist.raw - direct.dist.raw).abs();
    // Within a few thousandths of a unit.
    assert!(err < ONE / 256, "round-trip distance error too large: {}", err);
}

#[test]
fn hexa_nearest_face_is_the_straight_box() {
    // Radius 2, height 2: the straight box's +X face sits at x = 1, so a
    // ray along -X from (5,0,0) hits at distance 4; the two rotated boxes
    // lie farther along this ray.
    let hx = AAHexa::new(v3(0, 0, 0), fx(2 * ONE), fx(2 * ONE), mat_plain());
    let hit = hx.intersect(&Ray::new(v3(5, 0, 0), v3(-1, 0, 0))).unwrap();
    assert_eq!(hit.dist.raw, 4 * ONE);
    assert_eq!(hit.normal, v3(1, 0, 0));
}

#[test]
fn object_dispatch_matches_the_variant() {
    let s = Sphere::new(v3(0, 0, 0), fx(2 * ONE), mat_plain());
    let o = Object::Sphere(s);
    let ray = down_z_ray_from_ten();
    assert_eq!(o.intersect(&ray).unwrap().dist, s.intersect(&ray).unwrap().dist);
}
