//! Mandelbrot escape iteration, usable to generate height-map terrain.
//!
//! The iteration `z = z * z + c` runs on fixed-point complex numbers until
//! the squared norm reaches four or the iteration budget runs out; the
//! result carries the escape count and the final `z`.

use vstd::prelude::*;

verus! {

use crate::fixed::{Fx, fx_add, fx_sub, fx_mul, FX_FOUR};

/// A complex number with fixed-point parts.
#[derive(Clone, Copy, PartialEq, Eq, Structural, Debug)]
pub struct Complex {
    pub re: Fx,
    pub im: Fx,
}

/// One sampled point: how many iterations it survived, and the final `z`.
#[derive(Clone, Copy, PartialEq, Eq, Structural, Debug)]
pub struct Point {
    pub iter: u32,
    pub z: Complex,
}

/// `z * z + c`, with the products formed as complex multiplication forms
/// them: the imaginary part adds the two cross products separately.
pub open spec fn mandel_step(z: Complex, c: Complex) -> Complex {
    Complex {
        re: fx_add(fx_sub(fx_mul(z.re, z.re), fx_mul(z.im, z.im)), c.re),
        im: fx_add(fx_add(fx_mul(z.re, z.im), fx_mul(z.im, z.re)), c.im),
    }
}

pub open spec fn norm_sqr(z: Complex) -> Fx {
    fx_add(fx_mul(z.re, z.re), fx_mul(z.im, z.im))
}

/// The rest of the escape loop, starting at `iter` of `maxiter` with the
/// running value `z`.
pub open spec fn mandel_loop(z: Complex, c: Complex, iter: u32, maxiter: u32) -> Point
    decreases maxiter - iter,
{
    if iter < maxiter && norm_sqr(z).raw < FX_FOUR {
        mandel_loop(mandel_step(z, c), c, (iter + 1) as u32, maxiter)
    } else {
        Point { iter, z }
    }
}

/// The whole escape loop for the sample `x + y i`.
pub open spec fn mandelbrot_spec(x: Fx, y: Fx, maxiter: u32) -> Point {
    mandel_loop(
        Complex { re: Fx { raw: 0 }, im: Fx { raw: 0 } },
        Complex { re: x, im: y },
        0,
        maxiter,
    )
}

impl Point {
    pub fn new(iter: u32, z: Complex) -> (p: Point)
        ensures
            p == (Point { iter, z }),
    {
        Point { iter, z }
    }
}

/// Iterate `z = z * z + c` from zero until the squared norm reaches four or
/// `maxiter` iterations have run.
pub fn mandelbrot(x: Fx, y: Fx, maxiter: u32) -> (p: Point)
    ensures
        p == mandelbrot_spec(x, y, maxiter),
{
    let mut z = Complex { re: Fx { raw: 0 }, im: Fx { raw: 0 } };
    let c = Complex { re: x, im: y };
    let mut iter: u32 = 0;
    while iter < maxiter && z.re.mul(z.re).add(z.im.mul(z.im)).raw < FX_FOUR
        invariant
            iter <= maxiter,
            mandelbrot_spec(x, y, maxiter) == mandel_loop(z, c, iter, maxiter),
        decreases maxiter - iter,
    {
        z = Complex {
            re: z.re.mul(z.re).sub(z.im.mul(z.im)).add(c.re),
            im: z.re.mul(z.im).add(z.im.mul(z.re)).add(c.im),
        };
        iter = iter + 1;
    }
    Point::new(iter, z)
}

} // verus!
