use raytracer::fixed::{Fx, FX_SCALE};
use raytracer::hmap::{HMData, HeightMap};
use raytracer::light::{Bulb, Light, Lights, Sun};
use raytracer::material::{Color, Material};
use raytracer::object::{Object, Objects, Plane, Sphere};
use raytracer::ray::Ray;
use raytracer::scene::Scene;
use raytracer::vec3::Vec3;

const ONE: i64 = FX_SCALE;

fn fx(raw: i64) -> Fx {
    Fx { raw }
}

fn v3(x: i64, y: i64, z: i64) -> Vec3 {
    Vec3 { x: fx(x * ONE), y: fx(y * ONE), z: fx(z * ONE) }
}

fn black() -> Color {
    Color::new(fx(0), fx(0), fx(0))
}

fn white() -> Color {
    Color::new(fx(ONE), fx(ONE), fx(ONE))
}

fn matte(color: Color) -> Material {
    Material::new(color, fx(0), fx(ONE), fx(0), fx(ONE), fx(0))
}

fn empty_scene(back: Color) -> Scene {
    Scene::new(Objects::new(vec![]), Lights::new(vec![]), fx(ONE / 5), back)
}

#[test]
fn miss_returns_exactly_the_background() {
    let back = Color::new(fx(100), fx(200), fx(300));
    let scene = empty_scene(back);
    let c = scene.raytrace(Ray::new(v3(0, 0, 10), v3(0, 0, -1)), fx(ONE), 5);
    assert_eq!(c, back);
}

#[test]
fn miss_returns_the_background_whatever_the_budget() {
    let back = Color::new(fx(7), fx(8), fx(9));
    let mut scene = empty_scene(back);
    scene.add_object(Object::Sphere(Sphere::new(v3(100, 0, 0), fx(ONE), matte(white()))));
    let ray = Ray::new(v3(0, 0, 10), v3(0, 0, -1));
    assert_eq!(scene.raytrace(ray, fx(ONE), 0), back);
    assert_eq!(scene.raytrace(ray, fx(ONE), 9), back);
}

#[test]
fn color_normalize_clamps_to_one() {
    let c = Color::new(fx(2 * ONE), fx(ONE / 2), fx(ONE));
    let n = c.normalize();
    assert_eq!(n.r.raw, ONE);
    assert_eq!(n.g.raw, ONE / 2);
    assert_eq!(n.b.raw, ONE);
}

#[test]
fn color_normalize_keeps_negative_channels() {
    // There is no lower clamp.
    let c = Color::new(fx(-ONE), fx(0), fx(3 * ONE));
    let n = c.normalize();
    assert_eq!(n.r.raw, -ONE);
    assert_eq!(n.g.raw, 0);
    assert_eq!(n.b.raw, ONE);
}

fn mirror_scene(refl: i64) -> Scene {
    // A fully reflective plane facing +Z, a red background, no lights.
    let mat = Material::new(black(), fx(0), fx(0), fx(0), fx(ONE), fx(refl));
    let plane = Object::Plane(Plane::new(v3(0, 0, 0), v3(0, 0, 1), mat));
    Scene::new(
        Objects::new(vec![plane]),
        Lights::new(vec![]),
        fx(ONE / 5),
        Color::new(fx(ONE), fx(0), fx(0)),
    )
}

#[test]
fn reflection_bounces_into_the_background() {
    let scene = mirror_scene(ONE);
    let c = scene.raytrace(Ray::new(v3(0, 0, 10), v3(0, 0, -1)), fx(ONE), 1);
    // The bounced ray misses everything, so the mirror shows the background.
    assert_eq!(c.r.raw, ONE);
    assert_eq!(c.g.raw, 0);
    assert_eq!(c.b.raw, 0);
}

#[test]
fn zero_budget_never_recurses() {
    // With no budget the reflective term contributes exactly nothing,
    // whatever the reflection weight.
    let full = mirror_scene(ONE);
    let none = mirror_scene(0);
    let ray = Ray::new(v3(0, 0, 10), v3(0, 0, -1));
    let with_weight = full.raytrace(ray, fx(ONE), 0);
    let without = none.raytrace(ray, fx(ONE), 0);
    assert_eq!(with_weight, without);
    assert_eq!(with_weight, black());
}

#[test]
fn refraction_with_matching_index_passes_straight_through() {
    // A glass sphere with the surrounding index bends nothing: the ray
    // leaves on the far side and finds the background.
    let glass = Material::new(black(), fx(0), fx(0), fx(ONE), fx(ONE), fx(0));
    let sphere = Object::Sphere(Sphere::new(v3(0, 0, 0), fx(2 * ONE), glass));
    let scene = Scene::new(
        Objects::new(vec![sphere]),
        Lights::new(vec![]),
        fx(ONE / 5),
        Color::new(fx(0), fx(0), fx(ONE)),
    );
    let c = scene.raytrace(Ray::new(v3(0, 0, 10), v3(0, 0, -1)), fx(ONE), 2);
    assert_eq!(c.r.raw, 0);
    assert_eq!(c.g.raw, 0);
    assert_eq!(c.b.raw, ONE);
}

#[test]
fn shadow_is_full_light_when_nothing_blocks() {
    let mut scene = empty_scene(black());
    scene.add_object(Object::Plane(Plane::new(v3(0, 0, 0), v3(0, 1, 0), matte(white()))));
    // Straight up from the plane toward a light above: unobstructed.
    let s = scene.shadow(v3(0, 0, 0), v3(0, 10, 0));
    assert_eq!(s.raw, ONE);
}

#[test]
fn shadow_is_ambient_when_blocked() {
    let ambient = ONE / 5;
    let blocker = Object::Sphere(Sphere::new(v3(0, 5, 0), fx(ONE), matte(white())));
    let scene = Scene::new(Objects::new(vec![blocker]), Lights::new(vec![]), fx(ambient), black());
    let s = scene.shadow(v3(0, 0, 0), v3(0, 10, 0));
    assert_eq!(s.raw, ambient);
}

#[test]
fn plane_under_a_bulb_is_brightest_at_the_center() {
    // A plane at y = 0 with an upward normal, one bulb directly above, and
    // a camera looking straight down: the diffuse term falls off with the
    // angle, so the center outshines the edges.
    let mat = matte(white());
    let plane = Object::Plane(Plane::new(v3(0, 0, 0), v3(0, 1, 0), mat));
    let bulb = Light::Bulb(Bulb::new(v3(0, 10, 0), fx(0), 1, fx(ONE)));
    let scene = Scene::new(
        Objects::new(vec![plane]),
        Lights::new(vec![bulb]),
        fx(ONE),
        black(),
    );

    let eye = v3(0, 5, 0);
    let center = scene.raytrace(Ray::new(eye, v3(0, -1, 0)), fx(ONE), 1);
    let toward_edge = v3(3, 0, 0).sub(eye).normalize();
    let edge = scene.raytrace(Ray::new(eye, toward_edge), fx(ONE), 1);

    assert_eq!(center.r.raw, ONE);
    assert!(edge.r.raw < center.r.raw);
    assert!(edge.r.raw > 0);
    assert_eq!(center.g, center.r);
    assert_eq!(edge.g, edge.r);
}

#[test]
fn two_bulbs_add_their_contributions() {
    let mat = matte(white());
    let plane = Object::Plane(Plane::new(v3(0, 0, 0), v3(0, 1, 0), mat));
    let bulb = Light::Bulb(Bulb::new(v3(0, 10, 0), fx(0), 1, fx(ONE / 4)));
    let one_light = Scene::new(
        Objects::new(vec![plane]),
        Lights::new(vec![bulb]),
        fx(ONE),
        black(),
    );
    let mut two_lights = Scene::new(
        Objects::new(vec![Object::Plane(Plane::new(v3(0, 0, 0), v3(0, 1, 0), mat))]),
        Lights::new(vec![bulb]),
        fx(ONE),
        black(),
    );
    two_lights.add_light(bulb);

    let ray = Ray::new(v3(0, 5, 0), v3(0, -1, 0));
    let single = one_light.raytrace(ray, fx(ONE), 1);
    let double = two_lights.raytrace(ray, fx(ONE), 1);
    assert_eq!(single.r.raw, ONE / 4);
    assert_eq!(double.r.raw, ONE / 2);
}

#[test]
fn sun_lights_like_a_distant_bulb() {
    let mat = matte(white());
    let plane = Object::Plane(Plane::new(v3(0, 0, 0), v3(0, 1, 0), mat));
    // A sun shining straight down is treated as a point far above.
    let sun = Light::Sun(Sun::new(v3(0, -1, 0), fx(0), 1, fx(ONE)));
    let scene = Scene::new(
        Objects::new(vec![plane]),
        Lights::new(vec![sun]),
        fx(ONE),
        black(),
    );
    let c = scene.raytrace(Ray::new(v3(0, 5, 0), v3(0, -1, 0)), fx(ONE), 1);
    assert_eq!(c.r.raw, ONE);
}

fn flat_height_map() -> HeightMap {
    // A 2 x 2 grid of height one, spaced one unit apart, centered at the
    // origin: a unit square roof at y = 1 over [-0.5, 0.5] x [-0.5, 0.5].
    let sample = HMData::new(fx(ONE), Color::new(fx(ONE / 2), fx(ONE / 4), fx(ONE / 8)));
    let data = vec![sample, sample, sample, sample];
    HeightMap::new(v3(0, 0, 0), fx(ONE), 2, 2, data, matte(white()))
}

#[test]
fn height_map_hits_a_flat_roof() {
    let hm = flat_height_map();
    let hit = hm.intersect(&Ray::new(v3(0, 2, 0), v3(0, -1, 0))).unwrap();
    assert_eq!(hit.dist.raw, ONE);
    assert_eq!(hit.pos, v3(0, 1, 0));
    assert_eq!(hit.normal, v3(0, 1, 0));
    // The hit carries the interpolated sample color over the base material.
    // The halves and quarters blend exactly; the eighth loses two raw units
    // to truncation in the weighted blend.
    assert_eq!(hit.mat.color.r.raw, ONE / 2);
    assert_eq!(hit.mat.color.g.raw, ONE / 4);
    assert_eq!(hit.mat.color.b.raw, ONE / 8 - 2);
}

#[test]
fn height_map_misses_beside_the_footprint() {
    let hm = flat_height_map();
    assert!(hm.intersect(&Ray::new(v3(5, 2, 0), v3(0, -1, 0))).is_none());
}

#[test]
fn height_map_interpolates_data() {
    let hm = flat_height_map();
    let (data, normal) = hm.data_at(v3(0, 1, 0)).unwrap();
    assert_eq!(data.h.raw, ONE);
    assert_eq!(normal, v3(0, 1, 0));
    assert_eq!(data.color.r.raw, ONE / 2);
}

#[test]
fn height_map_in_a_scene_shows_its_color() {
    // Dropped into a scene, the roof's interpolated color shades the pixel.
    let scene = Scene::new(
        Objects::new(vec![Object::HeightMap(flat_height_map())]),
        Lights::new(vec![Light::Bulb(Bulb::new(v3(0, 10, 0), fx(0), 1, fx(ONE)))]),
        fx(ONE),
        black(),
    );
    let c = scene.raytrace(Ray::new(v3(0, 2, 0), v3(0, -1, 0)), fx(ONE), 1);
    // Lit straight from above at full diffuse: the color is the sample's.
    assert_eq!(c.r.raw, ONE / 2);
    assert_eq!(c.g.raw, ONE / 4);
}

#[test]
fn height_map_rejects_points_off_the_grid() {
    let hm = flat_height_map();
    assert!(hm.data_at(v3(7, 0, 0)).is_none());
}
