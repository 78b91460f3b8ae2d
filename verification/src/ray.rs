//! Rays: an origin and a direction, transformable by affine matrices.

use vstd::prelude::*;
use crate::fixed::{fx_epsilon, fx_one, Fixed};
use crate::intersection::{spec_sorted_by_t, Intersection, IntersectionComputations};
use crate::matrix::matrix4d::Matrix4D;
use crate::point::Point;
use crate::tuple::Tuple;
use crate::vector::Vector;
use crate::world::World;

verus! {

use vstd::seq_lib::group_to_multiset_ensures;

#[derive(Clone, Copy, PartialEq, Eq, Structural, Debug)]
pub struct Ray {
    pub origin: Point,
    pub direction: Vector,
}

impl Ray {
    /// The point reached after travelling `t` along the ray.
    pub open spec fn spec_position(self, t: Fixed) -> Point {
        Point { tuple: self.origin.tuple.spec_add(self.direction.tuple.spec_scale(t)) }
    }

    /// The ray carried through an affine transform.
    pub open spec fn spec_transform(self, transformation: Matrix4D) -> Ray {
        Ray {
            origin: Point { tuple: transformation.spec_mul_tuple(self.origin.tuple) },
            direction: Vector { tuple: transformation.spec_mul_tuple(self.direction.tuple) },
        }
    }

    /// The ray carried through the inverse of an affine transform.
    pub open spec fn spec_transform_inverse(self, transformation: Matrix4D) -> Ray {
        Ray {
            origin: Point { tuple: transformation.spec_inverse_mul_tuple(self.origin.tuple) },
            direction: Vector {
                tuple: transformation.spec_inverse_mul_tuple(self.direction.tuple),
            },
        }
    }

    pub fn new(origin: Point, direction: Vector) -> (r: Ray)
        ensures
            r.origin == origin,
            r.direction == direction,
    {
        Ray { origin, direction }
    }

    pub fn position(&self, t: Fixed) -> (r: Point)
        ensures
            r == self.spec_position(t),
    {
        self.origin.add(self.direction.scale(t))
    }

    pub fn transform(&self, transformation: &Matrix4D) -> (r: Ray)
        ensures
            r == self.spec_transform(*transformation),
    {
        Ray {
            origin: transformation.mul_point(self.origin),
            direction: transformation.mul_vector(self.direction),
        }
    }

    /// Every intersection of this ray with the first `n` shapes of the
    /// world, in shape order.
    pub open spec fn spec_world_xs(self, world: World, n: int) -> Seq<Intersection>
        decreases n,
    {
        if n <= 0 {
            Seq::empty()
        } else {
            self.spec_world_xs(world, n - 1) + world.objects@[n - 1].spec_intersections(
                self,
                (n - 1) as usize,
            )
        }
    }

    /// Whether some shape sees this ray as degenerate in its object space.
    pub open spec fn spec_any_degenerate(self, world: World) -> bool {
        exists|i: int|
            0 <= i < world.objects@.len() && (#[trigger] world.objects@[i]).spec_degenerate(
                world.objects@[i].spec_world_ray(self),
            )
    }

    /// Intersect the ray against every shape of the world and sort the
    /// combined records by ascending distance. The result is a permutation
    /// of the per-shape intersections; an error is returned exactly when
    /// some shape's object-space ray is degenerate.
    #[verifier::rlimit(100)]
    pub fn intersect_world(&self, world: &World) -> (r: Result<Vec<Intersection>, String>)
        requires
            world.wf(),
        ensures
            r.is_ok() == !self.spec_any_degenerate(*world),
            r matches Ok(v) ==> v@ == crate::intersection::spec_sort_by_t(
                self.spec_world_xs(*world, world.objects@.len() as int),
            ),
            r matches Ok(v) ==> v@.to_multiset() == self.spec_world_xs(
                *world,
                world.objects@.len() as int,
            ).to_multiset() && spec_sorted_by_t(v@) && forall|k: int|
                0 <= k < v@.len() ==> (#[trigger] v@[k]).object < world.objects@.len(),
    {
        let mut result: Vec<Intersection> = Vec::new();
        let n = world.objects.len();
        let mut i: usize = 0;
        while i < n
            invariant
                world.wf(),
                n == world.objects@.len(),
                i <= n,
                result@ == self.spec_world_xs(*world, i as int),
                forall|j: int|
                    0 <= j < i ==> !(#[trigger] world.objects@[j]).spec_degenerate(
                        world.objects@[j].spec_world_ray(*self),
                    ),
            decreases n - i,
        {
            let ghost prefix = result@;
            let obj = &world.objects[i];
            match obj.intersects(self, i) {
                Ok(mut xs) => {
                    proof {
                        assert(xs@ == world.objects@[i as int].spec_intersections(*self, i));
                    }
                    result.append(&mut xs);
                    proof {
                        assert(result@ == prefix + world.objects@[i as int].spec_intersections(
                            *self,
                            i,
                        ));
                        assert(result@ == self.spec_world_xs(*world, i as int + 1));
                    }
                },
                Err(e) => {
                    return Err(e);
                },
            }
            i += 1;
        }
        let ghost all = self.spec_world_xs(*world, n as int);
        proof {
            lemma_world_xs_objects_in_range(*self, *world, n as int);
        }
        let sorted = sort_intersections(result);
        proof {
            broadcast use group_to_multiset_ensures;

            assert forall|k: int| 0 <= k < sorted@.len() implies (#[trigger] sorted@[k]).object
                < world.objects@.len() by {
                assert(sorted@.to_multiset().contains(sorted@[k]));
                assert(all.to_multiset().contains(sorted@[k]));
                assert(all.contains(sorted@[k]));
            }
        }
        Ok(sorted)
    }

    /// The data prepared at a chosen hit. When the full sorted intersection
    /// list is supplied, the refractive indices on the two sides of the hit
    /// come from walking that list; otherwise the hit's own material decides
    /// and the ray is taken to arrive through vacuum.
    pub fn prepare_computations(
        &self,
        world: &World,
        intersection: &Intersection,
        xs: Option<&Vec<Intersection>>,
    ) -> (r: IntersectionComputations)
        requires
            world.wf(),
            intersection.object < world.objects@.len(),
            xs matches Some(list) ==> forall|k: int|
                0 <= k < list@.len() ==> (#[trigger] list@[k]).object < world.objects@.len(),
        ensures
            r == spec_prepare_computations(
                *world,
                *self,
                *intersection,
                match xs {
                    Some(list) => Some(list@),
                    None => None,
                },
            ),
    {
        let point = self.position(intersection.t);
        let obj = &world.objects[intersection.object];
        let mut normal = obj.normal_at(point);
        let eye = self.direction.neg();
        let mut inside = false;

        if normal.dot(&eye).raw < 0 {
            inside = true;
            normal = normal.neg();
        }

        let reflection_vector = self.direction.reflect(normal);

        let mut n1 = Fixed::one();
        let mut n2 = Fixed::one();

        match xs {
            Some(intersections) => {
                let pair = refractive_pair(world, intersections, intersection);
                n1 = pair.0;
                n2 = pair.1;
            },
            None => {
                n2 = world.objects[intersection.object].material().refractive_index;
            },
        }

        let eps = Fixed::from_raw(crate::fixed::EPSILON_RAW);
        IntersectionComputations {
            t: intersection.t,
            object: intersection.object,
            point,
            over_point: point.add(normal.scale(eps)),
            under_point: point.sub_vector(normal.scale(eps)),
            eye,
            normal,
            reflection_vector,
            inside,
            n1,
            n2,
        }
    }
}

/// Every record produced by the first `n` shapes carries an index below `n`.
#[verifier::rlimit(50)]
proof fn lemma_world_xs_objects_in_range(ray: Ray, world: World, n: int)
    requires
        0 <= n <= world.objects@.len(),
        world.objects@.len() <= usize::MAX,
    ensures
        forall|k: int|
            0 <= k < ray.spec_world_xs(world, n).len() ==> (#[trigger] ray.spec_world_xs(
                world,
                n,
            )[k]).object < n,
    decreases n,
{
    if n > 0 {
        lemma_world_xs_objects_in_range(ray, world, n - 1);
        let prefix = ray.spec_world_xs(world, n - 1);
        let obj = world.objects@[n - 1];
        let tail = obj.spec_intersections(ray, (n - 1) as usize);
        let lxs = obj.spec_local_xs(obj.spec_world_ray(ray));
        let whole = ray.spec_world_xs(world, n);
        assert(whole == prefix + tail);
        assert forall|k: int| 0 <= k < tail.len() implies (#[trigger] tail[k]).object == n - 1 by {
            assert(tail[k] == (Intersection { t: lxs[k], object: (n - 1) as usize }));
        }
        assert forall|k: int| 0 <= k < whole.len() implies (#[trigger] whole[k]).object < n by {
            if k < prefix.len() {
                assert(whole[k] == prefix[k]);
            } else {
                assert(whole[k] == tail[k - prefix.len()]);
            }
        }
    }
}

/// Sort intersection records by ascending distance, by repeatedly moving a
/// least remaining record to the output.
fn sort_intersections(xs: Vec<Intersection>) -> (r: Vec<Intersection>)
    ensures
        r@ == crate::intersection::spec_sort_by_t(xs@),
        r@.to_multiset() == xs@.to_multiset(),
        spec_sorted_by_t(r@),
{
    proof {
        broadcast use group_to_multiset_ensures;

    }
    let mut input = xs;
    let mut out: Vec<Intersection> = Vec::new();
    proof {
        assert(out@ + crate::intersection::spec_sort_by_t(input@) =~= crate::intersection::spec_sort_by_t(xs@));
    }
    while input.len() > 0
        invariant
            out@ + crate::intersection::spec_sort_by_t(input@) == crate::intersection::spec_sort_by_t(xs@),
            out@.to_multiset().add(input@.to_multiset()) == xs@.to_multiset(),
            spec_sorted_by_t(out@),
            forall|a: int, b: int|
                0 <= a < out@.len() && 0 <= b < input@.len() ==> out@[a].t.raw <= input@[b].t.raw,
        decreases input.len(),
    {
        let mut m: usize = 0;
        let mut k: usize = 1;
        while k < input.len()
            invariant
                input@.len() > 0,
                m < k <= input@.len(),
                forall|l: int| 0 <= l < k ==> input@[m as int].t.raw <= (#[trigger] input@[l]).t.raw,
                forall|l: int| 0 <= l < m ==> (#[trigger] input@[l]).t.raw > input@[m as int].t.raw,
            decreases input.len() - k,
        {
            if input[k].t.raw < input[m].t.raw {
                m = k;
            }
            k += 1;
        }
        proof {
            crate::intersection::lemma_first_min_unique(input@, m as int);
            assert(crate::intersection::spec_sort_by_t(input@) == seq![input@[m as int]]
                + crate::intersection::spec_sort_by_t(input@.remove(m as int)));
        }
        let ghost old_input = input@;
        let ghost old_out = out@;
        let x = input.remove(m);
        out.push(x);
        proof {
            broadcast use group_to_multiset_ensures;

            assert(input@ == old_input.remove(m as int));
            assert(input@.to_multiset() =~= old_input.to_multiset().remove(x));
            assert(out@.to_multiset() =~= old_out.to_multiset().insert(x));
            assert(old_input.to_multiset().contains(x));
            assert(out@.to_multiset().add(input@.to_multiset()) =~= xs@.to_multiset());
            assert(forall|b: int|
                0 <= b < input@.len() ==> input@[b] == old_input[if b < m as int {
                    b
                } else {
                    b + 1
                }]);
            assert(out@ + crate::intersection::spec_sort_by_t(input@) =~= old_out + (seq![x]
                + crate::intersection::spec_sort_by_t(old_input.remove(m as int))));
            assert(out@ + crate::intersection::spec_sort_by_t(input@)
                == crate::intersection::spec_sort_by_t(xs@));
        }
    }
    proof {
        assert(out@ + crate::intersection::spec_sort_by_t(input@) =~= out@);
    }
    out
}

/// The refractive indices on the two sides of the target hit, from walking
/// the intersection list while maintaining the stack of shapes the ray is
/// currently inside.
fn refractive_pair(world: &World, xs: &Vec<Intersection>, target: &Intersection) -> (r: (
    Fixed,
    Fixed,
))
    requires
        forall|k: int| 0 <= k < xs@.len() ==> (#[trigger] xs@[k]).object < world.objects@.len(),
    ensures
        r == spec_n1_n2(*world, xs@, *target, Seq::empty()),
{
    let mut container: Vec<usize> = Vec::new();
    let n = xs.len();
    let mut i: usize = 0;
    let mut n1 = Fixed::one();
    let mut n2 = Fixed::one();

    proof {
        assert(xs@.skip(0) =~= xs@);
    }
    while i < n
        invariant
            n == xs@.len(),
            i <= n,
            n1 == fx_one(),
            n2 == fx_one(),
            forall|k: int| 0 <= k < xs@.len() ==> (#[trigger] xs@[k]).object
                < world.objects@.len(),
            forall|k: int| 0 <= k < container@.len() ==> (#[trigger] container@[k])
                < world.objects@.len(),
            spec_n1_n2(*world, xs@, *target, Seq::empty()) == spec_n1_n2(
                *world,
                xs@.skip(i as int),
                *target,
                container@,
            ),
        decreases n - i,
    {
        let current = xs[i];
        let found = current == *target;
        if found {
            if container.len() == 0 {
                n1 = Fixed::one();
            } else {
                n1 = world.objects[container[container.len() - 1]].material().refractive_index;
            }
        }

        container = toggle_containment(container, current.object);

        if found {
            if container.len() == 0 {
                n2 = Fixed::one();
            } else {
                n2 = world.objects[container[container.len() - 1]].material().refractive_index;
            }
            proof {
                assert(xs@.skip(i as int)[0] == current);
            }
            return (n1, n2);
        }
        proof {
            assert(xs@.skip(i as int)[0] == current);
            assert(xs@.skip(i as int).drop_first() =~= xs@.skip(i as int + 1));
        }
        i += 1;
    }
    proof {
        assert(xs@.skip(n as int).len() == 0);
    }
    (n1, n2)
}

/// The containment stack with the index toggled: its first occurrence
/// removed if present, the index appended otherwise.
#[verifier::rlimit(100)]
fn toggle_containment(container: Vec<usize>, obj: usize) -> (r: Vec<usize>)
    ensures
        r@ == spec_toggle(container@, obj),
        forall|k: int|
            0 <= k < r@.len() ==> container@.contains(#[trigger] r@[k]) || r@[k] == obj,
{
    let mut out = container;
    let n = out.len();
    let mut j: usize = 0;
    let mut idx: usize = n;
    while idx == n && j < n
        invariant
            n == out@.len(),
            j <= n,
            idx == n || (idx == j && j < n && out@[j as int] == obj),
            forall|l: int| 0 <= l < j ==> out@[l] != obj,
        decreases n - j + (if idx == n { 1int } else { 0int }),
    {
        if out[j] == obj {
            idx = j;
        } else {
            j += 1;
        }
    }
    if idx < n {
        proof {
            lemma_first_index_skip(out@, obj, idx as int);
        }
        let ghost before = out@;
        out.remove(idx);
        proof {
            before.remove_ensures(idx as int);
            assert(out@ == before.remove(idx as int));
            assert(spec_toggle(before, obj) == before.remove(idx as int));
            assert forall|k: int| 0 <= k < out@.len() implies before.contains(
                #[trigger] out@[k],
            ) by {
                if k < idx as int {
                    assert(out@[k] == before[k]);
                } else {
                    assert(out@[k] == before[k + 1]);
                }
            }
        }
        out
    } else {
        proof {
            assert(!out@.contains(obj)) by {
                assert(forall|l: int| 0 <= l < out@.len() ==> out@[l] != obj);
            }
        }
        out.push(obj);
        out
    }
}

/// The index of the first occurrence of `x`.
pub open spec fn spec_first_index(s: Seq<usize>, x: usize) -> int
    decreases s.len(),
{
    if s.len() == 0 {
        0
    } else if s[0] == x {
        0
    } else {
        1 + spec_first_index(s.drop_first(), x)
    }
}

/// A prefix free of `x` shifts the first occurrence past itself.
proof fn lemma_first_index_skip(s: Seq<usize>, x: usize, j: int)
    requires
        0 <= j < s.len(),
        s[j] == x,
        forall|l: int| 0 <= l < j ==> s[l] != x,
    ensures
        spec_first_index(s, x) == j,
        s.contains(x),
    decreases j,
{
    if j > 0 {
        assert(s.drop_first() =~= s.skip(1));
        assert(forall|l: int| 0 <= l < j - 1 ==> s.skip(1)[l] == s[l + 1]);
        assert(s.skip(1)[j - 1] == s[j]);
        lemma_first_index_skip(s.skip(1), x, j - 1);
    }
}

/// Containment toggling: remove the first occurrence when present,
/// otherwise append.
pub open spec fn spec_toggle(container: Seq<usize>, obj: usize) -> Seq<usize> {
    if container.contains(obj) {
        container.remove(spec_first_index(container, obj))
    } else {
        container.push(obj)
    }
}

/// The refractive indices at the target: `n1` reads the stack top as the
/// walk reaches the target, `n2` reads it after toggling the target's own
/// shape; an empty stack means vacuum. A walk that never meets the target
/// leaves both at one.
pub open spec fn spec_n1_n2(
    world: World,
    xs: Seq<Intersection>,
    target: Intersection,
    container: Seq<usize>,
) -> (Fixed, Fixed)
    decreases xs.len(),
{
    if xs.len() == 0 {
        (fx_one(), fx_one())
    } else {
        let current = xs[0];
        if current == target {
            let n1 = if container.len() == 0 {
                fx_one()
            } else {
                world.spec_refractive_of(container.last())
            };
            let after = spec_toggle(container, current.object);
            let n2 = if after.len() == 0 {
                fx_one()
            } else {
                world.spec_refractive_of(after.last())
            };
            (n1, n2)
        } else {
            spec_n1_n2(world, xs.drop_first(), target, spec_toggle(container, current.object))
        }
    }
}

/// The data prepared at a hit: the world point, the eye direction, the
/// normal (flipped inward hits carry `inside`), the reflection direction,
/// the nudged points and the refractive pair.
pub open spec fn spec_prepare_computations(
    world: World,
    ray: Ray,
    target: Intersection,
    xs: Option<Seq<Intersection>>,
) -> IntersectionComputations {
    let point = ray.spec_position(target.t);
    let obj = world.objects@[target.object as int];
    let normal0 = obj.spec_normal_at(point);
    let eye = Vector { tuple: ray.direction.tuple.spec_neg() };
    let inside = normal0.spec_dot(eye).raw < 0;
    let normal = if inside {
        Vector { tuple: normal0.tuple.spec_neg() }
    } else {
        normal0
    };
    let pair = match xs {
        Some(list) => spec_n1_n2(world, list, target, Seq::empty()),
        None => (fx_one(), obj.spec_shape().material.refractive_index),
    };
    IntersectionComputations {
        t: target.t,
        object: target.object,
        point,
        over_point: Point { tuple: point.tuple.spec_add(normal.tuple.spec_scale(fx_epsilon())) },
        under_point: Point { tuple: point.tuple.spec_sub(normal.tuple.spec_scale(fx_epsilon())) },
        eye,
        normal,
        reflection_vector: ray.direction.spec_reflect(normal),
        inside,
        n1: pair.0,
        n2: pair.1,
    }
}

} // verus!
