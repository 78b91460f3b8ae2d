//! A small kinematics model: a projectile under gravity and wind.

use vstd::prelude::*;
use crate::point::Point;
use crate::vector::Vector;

verus! {

#[derive(Clone, Copy, PartialEq, Eq, Structural, Debug)]
pub struct Projectile {
    pub position: Point,
    pub velocity: Vector,
}

#[derive(Clone, Copy, PartialEq, Eq, Structural, Debug)]
pub struct Environment {
    pub gravity: Vector,
    pub wind: Vector,
}

/// One time step: the position advances by the velocity, and the velocity
/// picks up gravity and wind.
pub fn tick(env: &Environment, proj: &mut Projectile)
    ensures
        final(proj).position.tuple == old(proj).position.tuple.spec_add(
            old(proj).velocity.tuple,
        ),
        final(proj).velocity.tuple == old(proj).velocity.tuple.spec_add(
            env.gravity.tuple,
        ).spec_add(env.wind.tuple),
{
    proj.position = proj.position.add(proj.velocity);
    proj.velocity = proj.velocity.add(env.gravity).add(env.wind);
}

} // verus!
