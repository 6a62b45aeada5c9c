//! The scene and the recursive raytracer.
//!
//! A scene owns one object group, a light list, an ambient factor and a
//! background color; it is built once and only read afterwards.  `raytrace`
//! finds the nearest hit, shades it, and recurses for refraction and
//! reflection while the bounce budget lasts; the budget strictly decreases,
//! so the recursion always terminates.
//!
//! Two degenerate cases are settled explicitly where the mathematics runs
//! out: a negative Snell radicand (total internal reflection) is clamped to
//! zero by the square root, and the shadow test judges whether an occluder
//! lies beyond the light by the X components alone, a deliberate
//! approximation that misjudges occluders for shadow rays running parallel
//! to the X plane.

use vstd::prelude::*;

verus! {

use crate::fixed::{Fx, fx_sub, fx_mul, fx_div, fx_neg, fx_sqrt, FX_SCALE, FX_TWO, FX_EPS};
use crate::vec3::{Vec3, v3_add, v3_sub, v3_scale, v3_dot, v3_normalize, dot};
use crate::material::{Color, color_add, color_scale, color_normalize};
use crate::ray::{Ray, Inter};
use crate::object::{Object, Objects, seq_hit};
use crate::light::{Light, Lights, lights_bright_spec};

/// A scene: the object aggregate, the lights, the ambient shadow factor and
/// the background color.
#[derive(Debug)]
pub struct Scene {
    pub objects: Objects,
    pub lights: Lights,
    pub ambient: Fx,
    pub back: Color,
}

/// The shadow factor for a surface point `from` lit from `to`: full light
/// when the shadow ray hits nothing or the occluder lies beyond the light
/// along the X axis, the ambient factor otherwise.
pub open spec fn shadow_spec(scene: Scene, from: Vec3, to: Vec3) -> Fx {
    let dir = v3_normalize(v3_sub(to, from));
    let sray = Ray { pos: v3_add(from, v3_scale(dir, Fx { raw: FX_EPS })), dir };
    match seq_hit(scene.objects.all@, sray) {
        Option::None => Fx { raw: FX_SCALE },
        Option::Some(inter) => {
            if fx_mul(v3_sub(to, inter.pos).x, dir.x).raw < 0 {
                Fx { raw: FX_SCALE }
            } else {
                scene.ambient
            }
        },
    }
}

/// Direct lighting at a hit: the material color under the summed diffuse
/// magnitude plus a white specular highlight, each weighted by the material.
pub open spec fn local_shade_spec(scene: Scene, ray: Ray, inter: Inter) -> Color {
    let sd = lights_bright_spec(scene.lights.all@, ray, inter, scene);
    color_add(
        color_scale(color_scale(inter.mat.color, sd.1), inter.mat.diff),
        color_scale(
            color_scale(
                Color { r: Fx { raw: FX_SCALE }, g: Fx { raw: FX_SCALE }, b: Fx { raw: FX_SCALE } },
                sd.0,
            ),
            inter.mat.spec,
        ),
    )
}

/// The refracted contribution.  Snell's law in vector form; a negative
/// radicand (total internal reflection) is clamped to zero by the square
/// root.  The spawned ray starts one raw unit off the surface and carries
/// the material's refractive index.
pub open spec fn refraction_spec(
    scene: Scene,
    ray_dir: Vec3,
    refr_idx: Fx,
    inter: Inter,
    count: u32,
) -> Color
    decreases count, 0int,
{
    if count == 0 {
        Color { r: Fx { raw: 0 }, g: Fx { raw: 0 }, b: Fx { raw: 0 } }
    } else {
        let n = fx_div(refr_idx, inter.mat.refr_idx);
        let c1 = fx_neg(v3_dot(inter.normal, ray_dir));
        let c2 = fx_sqrt(
            fx_sub(
                Fx { raw: FX_SCALE },
                fx_mul(fx_mul(n, n), fx_sub(Fx { raw: FX_SCALE }, fx_mul(c1, c1))),
            ),
        );
        let dir = v3_normalize(
            v3_add(v3_scale(ray_dir, n), v3_scale(inter.normal, fx_sub(fx_mul(n, c1), c2))),
        );
        let nray = Ray { pos: v3_add(inter.pos, v3_scale(dir, Fx { raw: FX_EPS })), dir };
        color_scale(
            raytrace_spec(scene, nray, inter.mat.refr_idx, (count - 1) as u32),
            inter.mat.refr,
        )
    }
}

/// The reflected contribution: the mirrored direction, spawned one raw unit
/// off the surface, carrying the incoming refractive index.
pub open spec fn reflection_spec(
    scene: Scene,
    ray_dir: Vec3,
    refr_idx: Fx,
    inter: Inter,
    count: u32,
) -> Color
    decreases count, 0int,
{
    if count == 0 {
        Color { r: Fx { raw: 0 }, g: Fx { raw: 0 }, b: Fx { raw: 0 } }
    } else {
        let c1 = fx_neg(v3_dot(inter.normal, ray_dir));
        let dir = v3_normalize(
            v3_add(ray_dir, v3_scale(v3_scale(inter.normal, Fx { raw: FX_TWO }), c1)),
        );
        let nray = Ray { pos: v3_add(inter.pos, v3_scale(dir, Fx { raw: FX_EPS })), dir };
        color_scale(raytrace_spec(scene, nray, refr_idx, (count - 1) as u32), inter.mat.refl)
    }
}

/// The color seen along `ray`: background on a miss; otherwise the local
/// shade, plus refraction and reflection while the bounce budget lasts,
/// clamped channel-wise to one.
pub open spec fn raytrace_spec(scene: Scene, ray: Ray, refr_idx: Fx, count: u32) -> Color
    decreases count, 1int,
{
    match seq_hit(scene.objects.all@, ray) {
        Option::None => scene.back,
        Option::Some(inter) => {
            let color = local_shade_spec(scene, ray, inter);
            let color = if inter.mat.refr.raw != 0 && count > 0 {
                color_add(color, refraction_spec(scene, ray.dir, refr_idx, inter, count))
            } else {
                color
            };
            let color = if inter.mat.refl.raw != 0 && count > 0 {
                color_add(color, reflection_spec(scene, ray.dir, refr_idx, inter, count))
            } else {
                color
            };
            color_normalize(color)
        },
    }
}

impl Scene {
    pub fn new(objects: Objects, lights: Lights, ambient: Fx, back: Color) -> (s: Scene)
        ensures
            s.objects.all@ == objects.all@,
            s.lights.all@ == lights.all@,
            s.ambient == ambient,
            s.back == back,
    {
        Scene { objects, lights, ambient, back }
    }

    pub fn add_object(&mut self, object: Object)
        ensures
            final(self).objects.all@ == old(self).objects.all@.push(object),
            final(self).lights == old(self).lights,
            final(self).ambient == old(self).ambient,
            final(self).back == old(self).back,
    {
        self.objects.add(object);
    }

    pub fn add_light(&mut self, light: Light)
        ensures
            final(self).lights.all@ == old(self).lights.all@.push(light),
            final(self).objects == old(self).objects,
            final(self).ambient == old(self).ambient,
            final(self).back == old(self).back,
    {
        self.lights.add(light);
    }

    pub fn raytrace(&self, ray: Ray, refr_idx: Fx, count: u32) -> (c: Color)
        ensures
            c == raytrace_spec(*self, ray, refr_idx, count),
        decreases count, 1int,
    {
        // Compute intersection
        let inter = self.objects.intersect(&ray);
        if inter.is_none() {
            return self.back;
        }
        let hit = inter.unwrap();

        // Compute lighting
        let mat = hit.mat;
        let mut color = mat.color;
        let sd = self.lights.bright(&ray, &hit, self);
        color = color.mul(sd.1).mul(mat.diff).add(Color::white().mul(sd.0).mul(mat.spec));

        // Compute refraction
        if mat.refr.raw != 0 && count > 0 {
            color = color.add(self.refraction(ray.dir, refr_idx, &hit, count));
        }

        // Compute reflection
        if mat.refl.raw != 0 && count > 0 {
            color = color.add(self.reflection(ray.dir, refr_idx, &hit, count));
        }

        color.normalize()
    }

    fn refraction(&self, ray_dir: Vec3, refr_idx: Fx, inter: &Inter, count: u32) -> (c: Color)
        requires
            count > 0,
        ensures
            c == refraction_spec(*self, ray_dir, refr_idx, *inter, count),
        decreases count, 0int,
    {
        let n = refr_idx.div(inter.mat.refr_idx);
        let c1 = dot(inter.normal, ray_dir).neg();
        let one = Fx { raw: FX_SCALE };
        let c2 = one.sub(n.mul(n).mul(one.sub(c1.mul(c1)))).sqrt();
        let dir = ray_dir.scale(n).add(inter.normal.scale(n.mul(c1).sub(c2))).normalize();
        let ray = Ray::new(inter.pos.add(dir.scale(Fx { raw: FX_EPS })), dir);

        self.raytrace(ray, inter.mat.refr_idx, count - 1).mul(inter.mat.refr)
    }

    fn reflection(&self, ray_dir: Vec3, refr_idx: Fx, inter: &Inter, count: u32) -> (c: Color)
        requires
            count > 0,
        ensures
            c == reflection_spec(*self, ray_dir, refr_idx, *inter, count),
        decreases count, 0int,
    {
        let c1 = dot(inter.normal, ray_dir).neg();
        let dir = ray_dir.add(inter.normal.scale(Fx { raw: FX_TWO }).scale(c1)).normalize();
        let ray = Ray::new(inter.pos.add(dir.scale(Fx { raw: FX_EPS })), dir);

        self.raytrace(ray, refr_idx, count - 1).mul(inter.mat.refl)
    }

    /// The shadow factor between a surface point and a light position.
    pub fn shadow(&self, from: Vec3, to: Vec3) -> (s: Fx)
        ensures
            s == shadow_spec(*self, from, to),
    {
        let dir = to.sub(from).normalize();
        let ray = Ray::new(from.add(dir.scale(Fx { raw: FX_EPS })), dir);

        // Compute intersection
        let inter = self.objects.intersect(&ray);
        if inter.is_none() || to.sub(inter.unwrap().pos).x.mul(dir.x).raw < 0 {
            return Fx { raw: FX_SCALE };
        }
        self.ambient
    }
}

/// A ray that misses every object is colored exactly with the scene's
/// background color, whatever the refractive index and bounce budget.
pub proof fn lemma_miss_gives_background(scene: Scene, ray: Ray, refr_idx: Fx, count: u32)
    requires
        seq_hit(scene.objects.all@, ray) is None,
    ensures
        raytrace_spec(scene, ray, refr_idx, count) == scene.back,
{
}

/// With a bounce budget of zero the raytrace never recurses: the result is
/// the normalized local shade alone (or the background on a miss), whatever
/// reflection and refraction weights the material carries.
pub proof fn lemma_zero_budget_no_recursion(scene: Scene, ray: Ray, refr_idx: Fx)
    ensures
        raytrace_spec(scene, ray, refr_idx, 0) == match seq_hit(scene.objects.all@, ray) {
            Option::None => scene.back,
            Option::Some(inter) => color_normalize(local_shade_spec(scene, ray, inter)),
        },
{
}

} // verus!
