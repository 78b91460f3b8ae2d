//! Intersection records, hit selection, and the Fresnel reflectance
//! approximation.

use vstd::prelude::*;
use crate::fixed::{fx_one, spec_powi, Fixed, SCALE};
use crate::point::Point;
use crate::vector::Vector;

verus! {

/// A parametric distance along a ray paired with the index of the shape met
/// there, into the owning world's shape collection.
#[derive(Clone, Copy, PartialEq, Eq, Structural, Debug)]
pub struct Intersection {
    pub t: Fixed,
    pub object: usize,
}

impl Intersection {
    pub fn new(t: Fixed, object: usize) -> (r: Intersection)
        ensures
            r.t == t,
            r.object == object,
    {
        Intersection { t, object }
    }
}

/// The first intersection, in list order, whose distance is not negative.
pub open spec fn spec_hit(xs: Seq<Intersection>) -> Option<Intersection>
    decreases xs.len(),
{
    if xs.len() == 0 {
        None
    } else if xs[0].t.raw >= 0 {
        Some(xs[0])
    } else {
        spec_hit(xs.drop_first())
    }
}

/// Whether the list is ordered by ascending distance.
pub open spec fn spec_sorted_by_t(xs: Seq<Intersection>) -> bool {
    forall|i: int, j: int| 0 <= i < j < xs.len() ==> xs[i].t.raw <= xs[j].t.raw
}

/// The index of the first record attaining the minimal distance.
pub open spec fn spec_first_min_index(xs: Seq<Intersection>) -> int
    decreases xs.len(),
{
    if xs.len() <= 1 {
        0
    } else {
        let m = spec_first_min_index(xs.drop_first()) + 1;
        if xs[0].t.raw <= xs[m].t.raw {
            0
        } else {
            m
        }
    }
}

/// Sorting by ascending distance, moving the first minimal record to the
/// front at each step: the exact order in which `intersect_world` hands the
/// records out, which keeps equal distances in shape order.
pub open spec fn spec_sort_by_t(xs: Seq<Intersection>) -> Seq<Intersection>
    decreases xs.len(),
{
    if xs.len() == 0 {
        Seq::empty()
    } else {
        let m = spec_first_min_index(xs);
        if 0 <= m < xs.len() {
            seq![xs[m]] + spec_sort_by_t(xs.remove(m))
        } else {
            xs
        }
    }
}

/// The first minimal index lies within the list.
pub proof fn lemma_first_min_in_range(xs: Seq<Intersection>)
    requires
        xs.len() > 0,
    ensures
        0 <= spec_first_min_index(xs) < xs.len(),
    decreases xs.len(),
{
    if xs.len() > 1 {
        lemma_first_min_in_range(xs.drop_first());
    }
}

/// The first minimal index holds a minimal distance, and every earlier
/// record is strictly farther.
pub proof fn lemma_first_min_characterization(xs: Seq<Intersection>)
    requires
        xs.len() > 0,
    ensures
        0 <= spec_first_min_index(xs) < xs.len(),
        forall|l: int|
            0 <= l < xs.len() ==> xs[spec_first_min_index(xs)].t.raw <= (#[trigger] xs[l]).t.raw,
        forall|l: int|
            0 <= l < spec_first_min_index(xs) ==> (#[trigger] xs[l]).t.raw
                > xs[spec_first_min_index(xs)].t.raw,
    decreases xs.len(),
{
    lemma_first_min_in_range(xs);
    if xs.len() > 1 {
        let rest = xs.drop_first();
        lemma_first_min_characterization(rest);
        let mr = spec_first_min_index(rest);
        assert(forall|l: int| 0 <= l < rest.len() ==> rest[l] == xs[l + 1]);
        let m = spec_first_min_index(xs);
        if xs[0].t.raw <= xs[mr + 1].t.raw {
            assert(m == 0);
            assert forall|l: int| 0 <= l < xs.len() implies xs[m].t.raw <= (
            #[trigger] xs[l]).t.raw by {
                if l > 0 {
                    assert(rest[mr].t.raw <= rest[l - 1].t.raw);
                }
            }
        } else {
            assert(m == mr + 1);
            assert forall|l: int| 0 <= l < xs.len() implies xs[m].t.raw <= (
            #[trigger] xs[l]).t.raw by {
                if l > 0 {
                    assert(rest[mr].t.raw <= rest[l - 1].t.raw);
                }
            }
            assert forall|l: int| 0 <= l < m implies (#[trigger] xs[l]).t.raw > xs[m].t.raw by {
                if l > 0 {
                    assert(rest[l - 1].t.raw > rest[mr].t.raw);
                }
            }
        }
    }
}

/// Any index holding a minimal distance with all earlier records strictly
/// farther is the first minimal index.
pub proof fn lemma_first_min_unique(xs: Seq<Intersection>, m: int)
    requires
        0 <= m < xs.len(),
        forall|l: int| 0 <= l < xs.len() ==> xs[m].t.raw <= (#[trigger] xs[l]).t.raw,
        forall|l: int| 0 <= l < m ==> (#[trigger] xs[l]).t.raw > xs[m].t.raw,
    ensures
        m == spec_first_min_index(xs),
    decreases xs.len(),
{
    if xs.len() > 1 {
        let rest = xs.drop_first();
        assert(forall|l: int| 0 <= l < rest.len() ==> rest[l] == xs[l + 1]);
        let mr = spec_first_min_index(rest);
        lemma_first_min_characterization(rest);
        if m == 0 {
            assert(xs[0].t.raw <= xs[mr + 1].t.raw);
        } else {
            lemma_first_min_unique(rest, m - 1);
            assert(mr == m - 1);
            assert(xs[0].t.raw > xs[m].t.raw);
            assert(spec_first_min_index(xs) == mr + 1);
        }
    }
}

/// Skipping a wholly-negative prefix does not change the hit.
proof fn lemma_hit_skip(xs: Seq<Intersection>, k: int)
    requires
        0 <= k <= xs.len(),
        forall|j: int| 0 <= j < k ==> xs[j].t.raw < 0,
    ensures
        spec_hit(xs) == spec_hit(xs.skip(k)),
    decreases k,
{
    if k == 0 {
        assert(xs.skip(0) =~= xs);
    } else {
        assert(xs.len() > 0);
        assert(xs[0].t.raw < 0);
        assert(spec_hit(xs) == spec_hit(xs.drop_first()));
        assert(xs.drop_first() =~= xs.skip(1));
        assert(forall|j: int| 0 <= j < k - 1 ==> xs.skip(1)[j] == xs[j + 1]);
        lemma_hit_skip(xs.skip(1), k - 1);
        assert(spec_hit(xs.skip(1)) == spec_hit(xs.skip(1).skip(k - 1)));
        assert(xs.skip(1).skip(k - 1) =~= xs.skip(k));
        assert(spec_hit(xs) == spec_hit(xs.skip(k)));
    }
}

/// On a list sorted by distance, the hit is the intersection with the
/// smallest non-negative distance, and there is none exactly when every
/// distance is negative.
pub proof fn lemma_hit_is_nearest(xs: Seq<Intersection>)
    requires
        spec_sorted_by_t(xs),
    ensures
        spec_hit(xs) matches Some(h) ==> h.t.raw >= 0 && xs.contains(h) && forall|k: int|
            0 <= k < xs.len() && xs[k].t.raw >= 0 ==> h.t.raw <= xs[k].t.raw,
        spec_hit(xs) is None ==> forall|k: int| 0 <= k < xs.len() ==> xs[k].t.raw < 0,
    decreases xs.len(),
{
    if xs.len() > 0 {
        if xs[0].t.raw >= 0 {
            assert(spec_hit(xs) == Some(xs[0]));
            assert(xs.contains(xs[0]));
        } else {
            let rest = xs.drop_first();
            assert(spec_sorted_by_t(rest)) by {
                assert(forall|i: int, j: int|
                    0 <= i < j < rest.len() ==> rest[i] == xs[i + 1] && rest[j] == xs[j + 1]);
            }
            lemma_hit_is_nearest(rest);
            match spec_hit(xs) {
                Some(h) => {
                    assert(rest.contains(h));
                    let w = choose|w: int| 0 <= w < rest.len() && rest[w] == h;
                    assert(xs[w + 1] == h);
                    assert(xs.contains(h));
                    assert(forall|k: int|
                        1 <= k < xs.len() && xs[k].t.raw >= 0 ==> rest[k - 1] == xs[k]
                            && h.t.raw <= xs[k].t.raw);
                },
                None => {
                    assert(spec_hit(rest) is None);
                    assert(forall|k: int| 1 <= k < xs.len() ==> xs[k] == rest[k - 1]);
                },
            }
        }
    }
}

/// The first intersection in front of the ray origin, if any; entries with a
/// negative distance are behind the ray and skipped.
pub fn hit(intersections: &Vec<Intersection>) -> (r: Option<Intersection>)
    ensures
        r == spec_hit(intersections@),
        r matches Some(h) ==> h.t.raw >= 0 && intersections@.contains(h),
        r is None ==> forall|k: int| 0 <= k < intersections@.len() ==> intersections@[k].t.raw
            < 0,
{
    let n = intersections.len();
    let mut i: usize = 0;
    while i < n
        invariant
            n == intersections@.len(),
            i <= n,
            forall|j: int| 0 <= j < i ==> intersections@[j].t.raw < 0,
        decreases n - i,
    {
        if intersections[i].t.raw >= 0 {
            proof {
                lemma_hit_skip(intersections@, i as int);
                assert(intersections@.skip(i as int)[0] == intersections@[i as int]);
            }
            return Some(intersections[i]);
        }
        i += 1;
    }
    proof {
        lemma_hit_skip(intersections@, n as int);
        assert(intersections@.skip(n as int).len() == 0);
    }
    None
}

/// The ray-local data prepared at a chosen hit: the world point, the points
/// nudged off the surface on either side, the eye and normal directions, the
/// reflection direction, whether the hit is on the inside, and the
/// refractive indices on the two sides of the surface.
#[derive(Clone, Copy, PartialEq, Eq, Structural, Debug)]
pub struct IntersectionComputations {
    pub t: Fixed,
    pub object: usize,
    pub point: Point,
    pub over_point: Point,
    pub under_point: Point,
    pub eye: Vector,
    pub normal: Vector,
    pub reflection_vector: Vector,
    pub inside: bool,
    pub n1: Fixed,
    pub n2: Fixed,
}

impl IntersectionComputations {
    /// The Schlick base term: `r0 + (1 - r0) * (1 - cos)^5` with `r0` the
    /// normal-incidence reflectance of the two indices.
    pub open spec fn spec_schlick_term(self, cos: Fixed) -> Fixed {
        let r0 = spec_powi(
            self.n1.spec_sub(self.n2).spec_div(self.n1.spec_add(self.n2)),
            2,
        );
        r0.spec_add(fx_one().spec_sub(r0).spec_mul(spec_powi(fx_one().spec_sub(cos), 5)))
    }

    /// Whether the hit undergoes total internal reflection: the ray leaves a
    /// denser medium at an angle whose refracted sine would exceed one.
    pub open spec fn spec_total_internal_reflection(self) -> bool {
        let cos = self.eye.spec_dot(self.normal);
        let n = self.n1.spec_div(self.n2);
        let sin2_t = n.spec_mul(n).spec_mul(fx_one().spec_sub(cos.spec_mul(cos)));
        self.n1.raw > self.n2.raw && sin2_t.raw > SCALE
    }

    /// The Schlick approximation of the Fresnel reflectance.
    pub open spec fn spec_schlick(self) -> Fixed {
        let cos = self.eye.spec_dot(self.normal);
        if self.n1.raw > self.n2.raw {
            let n = self.n1.spec_div(self.n2);
            let sin2_t = n.spec_mul(n).spec_mul(fx_one().spec_sub(cos.spec_mul(cos)));
            if sin2_t.raw > SCALE {
                fx_one()
            } else {
                self.spec_schlick_term(fx_one().spec_sub(sin2_t).spec_sqrt())
            }
        } else {
            self.spec_schlick_term(cos)
        }
    }

    /// The reflectance blended into the Fresnel split; exactly one under
    /// total internal reflection.
    pub fn schlick(&self) -> (r: Fixed)
        ensures
            r == self.spec_schlick(),
            self.spec_total_internal_reflection() ==> r.raw == SCALE,
    {
        let mut cos = self.eye.dot(&self.normal);
        if self.n1.raw > self.n2.raw {
            let n = self.n1.div(self.n2);
            let sin2_t = n.mul(n).mul(Fixed::one().sub(cos.mul(cos)));
            if sin2_t.raw > SCALE {
                return Fixed::one();
            }
            cos = Fixed::one().sub(sin2_t).sqrt();
        }
        let r0 = self.n1.sub(self.n2).div(self.n1.add(self.n2)).powi(2);
        r0.add(Fixed::one().sub(r0).mul(Fixed::one().sub(cos).powi(5)))
    }
}

} // verus!
