//! Light sources.
//!
//! A light answers one query, `bright`: the specular and diffuse magnitudes
//! it contributes at an intersection, before the surface's own material
//! weights are applied.  Both kinds reduce to the same point-light formula; a
//! sun stands in for a directional source as a point a million units away
//! against its direction.  The shadow factor comes from the scene.

use vstd::prelude::*;

verus! {

use crate::fixed::{Fx, fx_add, fx_mul, fx_max, fx_powi, FX_SCALE, FX_TWO};
use crate::vec3::{Vec3, v3_sub, v3_scale, v3_dot, v3_normalize, dot};
use crate::ray::{Ray, Inter};
use crate::scene::{Scene, shadow_spec};

/// The raw representation of minus one million, the distance at which a sun
/// is modeled as a point light.
pub const FX_NEG_MILLION: i64 = -65536000000;

/// A point light.
#[derive(Clone, Copy, PartialEq, Eq, Structural, Debug)]
pub struct Bulb {
    pub pos: Vec3,
    /// Specular weight.
    pub spec: Fx,
    /// Shininess exponent.
    pub shin: i32,
    /// Diffuse weight.
    pub diff: Fx,
}

/// A directional light.
#[derive(Clone, Copy, PartialEq, Eq, Structural, Debug)]
pub struct Sun {
    pub dir: Vec3,
    /// Specular weight.
    pub spec: Fx,
    /// Shininess exponent.
    pub shin: i32,
    /// Diffuse weight.
    pub diff: Fx,
}

/// Any light source.
#[derive(Clone, Copy, PartialEq, Eq, Structural, Debug)]
pub enum Light {
    Bulb(Bulb),
    Sun(Sun),
}

/// An ordered list of lights whose contributions add up.
#[derive(Debug)]
pub struct Lights {
    pub all: Vec<Light>,
}

/// The shared point-light formula: Phong specular and diffuse magnitudes for
/// a light at `light_pos`, both scaled by the scene's shadow factor.
pub open spec fn bright_helper_spec(
    light_pos: Vec3,
    shin: i32,
    ray: Ray,
    inter: Inter,
    scene: Scene,
) -> (Fx, Fx) {
    let l = v3_normalize(v3_sub(light_pos, inter.pos));
    let r = v3_normalize(
        v3_sub(v3_scale(v3_scale(inter.normal, Fx { raw: FX_TWO }), v3_dot(l, inter.normal)), l),
    );
    let v = v3_normalize(v3_sub(ray.pos, inter.pos));
    let s = shadow_spec(scene, inter.pos, light_pos);
    let diff = fx_mul(s, fx_max(v3_dot(l, inter.normal), Fx { raw: 0 }));
    let spec = fx_mul(s, fx_powi(fx_max(v3_dot(r, v), Fx { raw: 0 }), shin));
    (spec, diff)
}

pub open spec fn bulb_bright_spec(b: Bulb, ray: Ray, inter: Inter, scene: Scene) -> (Fx, Fx) {
    let sd = bright_helper_spec(b.pos, b.shin, ray, inter, scene);
    (fx_mul(sd.0, b.spec), fx_mul(sd.1, b.diff))
}

pub open spec fn sun_bright_spec(s: Sun, ray: Ray, inter: Inter, scene: Scene) -> (Fx, Fx) {
    let pos = v3_scale(s.dir, Fx { raw: FX_NEG_MILLION });
    let sd = bright_helper_spec(pos, s.shin, ray, inter, scene);
    (fx_mul(sd.0, s.spec), fx_mul(sd.1, s.diff))
}

pub open spec fn light_bright_spec(l: Light, ray: Ray, inter: Inter, scene: Scene) -> (Fx, Fx) {
    match l {
        Light::Bulb(b) => bulb_bright_spec(b, ray, inter, scene),
        Light::Sun(s) => sun_bright_spec(s, ray, inter, scene),
    }
}

/// Sum of all lights' contributions, added in list order.
pub open spec fn lights_bright_spec(ls: Seq<Light>, ray: Ray, inter: Inter, scene: Scene) -> (
    Fx,
    Fx,
)
    decreases ls.len(),
{
    if ls.len() == 0 {
        (Fx { raw: 0 }, Fx { raw: 0 })
    } else {
        let prev = lights_bright_spec(ls.drop_last(), ray, inter, scene);
        let cur = light_bright_spec(ls.last(), ray, inter, scene);
        (fx_add(prev.0, cur.0), fx_add(prev.1, cur.1))
    }
}

impl Bulb {
    pub fn new(pos: Vec3, spec: Fx, shin: i32, diff: Fx) -> (b: Bulb)
        ensures
            b == (Bulb { pos, spec, shin, diff }),
    {
        Bulb { pos, spec, shin, diff }
    }

    pub fn bright(&self, ray: &Ray, inter: &Inter, scene: &Scene) -> (r: (Fx, Fx))
        ensures
            r == bulb_bright_spec(*self, *ray, *inter, *scene),
    {
        let sd = Lights::bright_helper(self.pos, self.shin, ray, inter, scene);
        (sd.0.mul(self.spec), sd.1.mul(self.diff))
    }
}

impl Sun {
    /// The stored direction is the given one normalized.
    pub fn new(dir: Vec3, spec: Fx, shin: i32, diff: Fx) -> (s: Sun)
        ensures
            s == (Sun { dir: v3_normalize(dir), spec, shin, diff }),
    {
        Sun { dir: dir.normalize(), spec, shin, diff }
    }

    pub fn bright(&self, ray: &Ray, inter: &Inter, scene: &Scene) -> (r: (Fx, Fx))
        ensures
            r == sun_bright_spec(*self, *ray, *inter, *scene),
    {
        let pos = self.dir.scale(Fx { raw: FX_NEG_MILLION });
        let sd = Lights::bright_helper(pos, self.shin, ray, inter, scene);
        (sd.0.mul(self.spec), sd.1.mul(self.diff))
    }
}

impl Light {
    /// Dispatch `bright` to the variant.
    pub fn bright(&self, ray: &Ray, inter: &Inter, scene: &Scene) -> (r: (Fx, Fx))
        ensures
            r == light_bright_spec(*self, *ray, *inter, *scene),
    {
        match self {
            Light::Bulb(b) => b.bright(ray, inter, scene),
            Light::Sun(s) => s.bright(ray, inter, scene),
        }
    }
}

impl Lights {
    pub fn new(all: Vec<Light>) -> (l: Lights)
        ensures
            l.all@ == all@,
    {
        Lights { all }
    }

    pub fn add(&mut self, light: Light)
        ensures
            final(self).all@ == old(self).all@.push(light),
    {
        self.all.push(light);
    }

    /// The shared point-light formula behind both light kinds.
    pub fn bright_helper(
        light_pos: Vec3,
        shin: i32,
        ray: &Ray,
        inter: &Inter,
        scene: &Scene,
    ) -> (r: (Fx, Fx))
        ensures
            r == bright_helper_spec(light_pos, shin, *ray, *inter, *scene),
    {
        let l = light_pos.sub(inter.pos).normalize();
        let r = inter.normal.scale(Fx { raw: FX_TWO }).scale(dot(l, inter.normal)).sub(
            l,
        ).normalize();
        let v = ray.pos.sub(inter.pos).normalize();

        let s = scene.shadow(inter.pos, light_pos);
        let diff = s.mul(dot(l, inter.normal).max(Fx { raw: 0 }));
        let spec = s.mul(dot(r, v).max(Fx { raw: 0 }).powi(shin));

        (spec, diff)
    }

    /// Sum every light's contribution, in list order.
    pub fn bright(&self, ray: &Ray, inter: &Inter, scene: &Scene) -> (r: (Fx, Fx))
        ensures
            r == lights_bright_spec(self.all@, *ray, *inter, *scene),
    {
        let mut spec = Fx { raw: 0 };
        let mut diff = Fx { raw: 0 };
        let mut i: usize = 0;
        proof {
            assert(self.all@.take(0) =~= Seq::<Light>::empty());
        }
        while i < self.all.len()
            invariant
                i <= self.all@.len(),
                (spec, diff) == lights_bright_spec(self.all@.take(i as int), *ray, *inter, *scene),
            decreases self.all@.len() - i,
        {
            let cur = self.all[i].bright(ray, inter, scene);
            proof {
                assert(self.all@.take(i as int + 1).drop_last() =~= self.all@.take(i as int));
                assert(self.all@.take(i as int + 1).last() == self.all@[i as int]);
            }
            spec = spec.add(cur.0);
            diff = diff.add(cur.1);
            i = i + 1;
        }
        proof {
            assert(self.all@.take(self.all@.len() as int) =~= self.all@);
        }
        (spec, diff)
    }
}

} // verus!
