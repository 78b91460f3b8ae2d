use ray_tracer::camera::Camera;
use ray_tracer::canvas::Canvas;
use ray_tracer::color::Color;
use ray_tracer::fixed::Fixed;
use ray_tracer::intersection::{hit, Intersection};
use ray_tracer::lights::PointLight;
use ray_tracer::materials::Material;
use ray_tracer::matrix::matrix3d::Matrix3D;
use ray_tracer::matrix::matrix4d::Matrix4D;
use ray_tracer::patterns::color_pattern::ColorPattern;
use ray_tracer::point::Point;
use ray_tracer::ray::Ray;
use ray_tracer::shapes::shape::SceneObject;
use ray_tracer::shapes::spheres::Sphere;
use ray_tracer::transformations::{scaling, translation, view_transform};
use ray_tracer::vector::Vector;
use ray_tracer::world::World;

fn fx(v: f64) -> Fixed {
    Fixed::from_raw((v * 4294967296.0) as i64)
}

fn fxi(v: i64) -> Fixed {
    Fixed::from_int(v)
}

fn point(x: f64, y: f64, z: f64) -> Point {
    Point::new(fx(x), fx(y), fx(z))
}

fn vector(x: f64, y: f64, z: f64) -> Vector {
    Vector::new(fx(x), fx(y), fx(z))
}

fn color(r: f64, g: f64, b: f64) -> Color {
    Color::new(fx(r), fx(g), fx(b))
}

/// Absolute distance between two scalars, in raw steps of 2^-32.
fn dist(a: Fixed, b: Fixed) -> i64 {
    (a.raw - b.raw).abs()
}

/// About 1e-4 in raw steps.
const TOL: i64 = 429497;

fn assert_close(a: Fixed, b: Fixed) {
    assert!(dist(a, b) <= TOL, "{} vs {}", a.raw, b.raw);
}

fn assert_color_close(a: Color, b: Color) {
    assert_close(a.red, b.red);
    assert_close(a.green, b.green);
    assert_close(a.blue, b.blue);
}

#[test]
fn matrix3d_multiply() {}

#[test]
fn multiply_by_identity() {
    let m1 = Matrix3D::new([
        [fx(-3.0), fx(5.0), fx(0.0)],
        [fx(1.0), fx(-2.0), fx(-7.0)],
        [fx(0.0), fx(1.0), fx(-1.0)],
    ]);
    let m = Matrix3D::new([
        [fx(-3.0), fx(5.0), fx(0.0)],
        [fx(1.0), fx(-2.0), fx(-7.0)],
        [fx(0.0), fx(1.0), fx(-1.0)],
    ]);
    assert_eq!(&m1.mul(&Matrix3D::identity()), &m);
}

#[test]
fn matrix4d_multiply() {
    let m1 = Matrix4D::new([
        [fxi(1), fxi(2), fxi(3), fxi(4)],
        [fxi(5), fxi(6), fxi(7), fxi(8)],
        [fxi(9), fxi(8), fxi(7), fxi(6)],
        [fxi(5), fxi(4), fxi(3), fxi(2)],
    ]);
    let m2 = Matrix4D::new([
        [fxi(-2), fxi(1), fxi(2), fxi(3)],
        [fxi(3), fxi(2), fxi(1), fxi(-1)],
        [fxi(4), fxi(3), fxi(6), fxi(5)],
        [fxi(1), fxi(2), fxi(7), fxi(8)],
    ]);
    let m3 = Matrix4D::new([
        [fxi(20), fxi(22), fxi(50), fxi(48)],
        [fxi(44), fxi(54), fxi(114), fxi(108)],
        [fxi(40), fxi(58), fxi(110), fxi(102)],
        [fxi(16), fxi(26), fxi(46), fxi(42)],
    ]);
    assert_eq!(&m1.mul(&m2), &m3);
}

#[test]
fn matrix4d_inverse_of_singular_is_none() {
    let m = Matrix4D::new([
        [fxi(-4), fxi(2), fxi(-2), fxi(-3)],
        [fxi(9), fxi(6), fxi(2), fxi(6)],
        [fxi(0), fxi(-5), fxi(1), fxi(-5)],
        [fxi(0), fxi(0), fxi(0), fxi(0)],
    ]);
    assert!(!m.is_invertible());
    assert!(m.inverse().is_none());
}

#[test]
fn matrix4d_inverse_undoes_translation_exactly() {
    let t = translation(fxi(5), fxi(-3), fxi(2));
    let inv = t.inverse().unwrap();
    let p = point(-3.0, 4.0, 5.0);
    let moved = t.mul_point(p);
    assert_eq!(moved, point(2.0, 1.0, 7.0));
    assert_eq!(inv.mul_point(moved), p);
}

#[test]
fn hit_test() {
    // basic intersection
    let i1 = Intersection::new(fxi(1), 0);
    let i2 = Intersection::new(fxi(2), 0);
    let xs = vec![i1, i2];
    assert_eq!(hit(&xs), Some(i1));

    // one point behind the ray
    let i1 = Intersection::new(fxi(-1), 0);
    let i2 = Intersection::new(fxi(1), 0);
    let xs = vec![i1, i2];
    assert_eq!(hit(&xs), Some(i2));

    // no intersections in front
    let i1 = Intersection::new(fxi(-2), 0);
    let i2 = Intersection::new(fxi(-1), 0);
    let xs = vec![i1, i2];
    assert_eq!(hit(&xs), None);

    // more complex example, sorted ascending as intersect_world produces
    let mut xs = vec![
        Intersection::new(fxi(5), 0),
        Intersection::new(fxi(7), 0),
        Intersection::new(fxi(-3), 0),
        Intersection::new(fxi(2), 0),
    ];
    xs.sort_by(|a, b| a.t.raw.cmp(&b.t.raw));
    assert_eq!(hit(&xs), Some(Intersection::new(fxi(2), 0)));
}

#[test]
fn unit_sphere_intersection() {
    let obj = SceneObject::Sphere(Sphere::new(point(0.0, 0.0, 0.0)));

    // two points, both records naming the same shape
    let r = Ray::new(point(0.0, 0.0, -5.0), vector(0.0, 0.0, 1.0));
    let xs = obj.intersects(&r, 0).unwrap();
    assert_eq!(xs.len(), 2);
    assert_eq!(xs[0].t, fxi(4));
    assert_eq!(xs[1].t, fxi(6));
    assert_eq!(xs[0].object, xs[1].object);

    // tangent
    let r = Ray::new(point(0.0, 1.0, -5.0), vector(0.0, 0.0, 1.0));
    let xs = obj.intersects(&r, 0).unwrap();
    assert_eq!(xs[0].t, fxi(5));
    assert_eq!(xs[1].t, fxi(5));

    // miss
    let r = Ray::new(point(0.0, 2.0, -5.0), vector(0.0, 0.0, 1.0));
    let xs = obj.intersects(&r, 0).unwrap();
    assert_eq!(xs.len(), 0);

    // from inside
    let r = Ray::new(point(0.0, 0.0, 0.0), vector(0.0, 0.0, 1.0));
    let xs = obj.intersects(&r, 0).unwrap();
    assert_eq!(xs[0].t, fxi(-1));
    assert_eq!(xs[1].t, fxi(1));

    // behind
    let r = Ray::new(point(0.0, 0.0, 5.0), vector(0.0, 0.0, 1.0));
    let xs = obj.intersects(&r, 0).unwrap();
    assert_eq!(xs[0].t, fxi(-6));
    assert_eq!(xs[1].t, fxi(-4));
}

#[test]
#[should_panic(expected = "Direction is zero or close to zero")]
fn unit_sphere_intersection_failure() {
    let obj = SceneObject::Sphere(Sphere::new(point(0.0, 0.0, 0.0)));
    let r = Ray::new(point(0.0, 0.0, -5.0), vector(0.0, 0.0, 0.0));
    match obj.intersects(&r, 0) {
        Ok(_) => {},
        Err(e) => panic!("{}", e),
    }
}

#[test]
fn intersecting_scaled_sphere() {
    let r = Ray::new(point(0.0, 0.0, -5.0), vector(0.0, 0.0, 1.0));
    let mut obj = SceneObject::Sphere(Sphere::new(point(0.0, 0.0, 0.0)));
    obj.set_transform(scaling(fxi(2), fxi(2), fxi(2)));
    let xs = obj.intersects(&r, 0).unwrap();
    assert_eq!(xs.len(), 2);
    assert_eq!(xs[0].t, fxi(3));
    assert_eq!(xs[1].t, fxi(7));

    let mut obj = SceneObject::Sphere(Sphere::new(point(0.0, 0.0, 0.0)));
    obj.set_transform(translation(fxi(5), fxi(0), fxi(0)));
    let xs = obj.intersects(&r, 0).unwrap();
    assert_eq!(xs.len(), 0);
}

#[test]
fn normal_tests() {
    let obj = SceneObject::Sphere(Sphere::new(point(0.0, 0.0, 0.0)));
    assert_eq!(obj.normal_at(point(1.0, 0.0, 0.0)), vector(1.0, 0.0, 0.0));
    assert_eq!(obj.normal_at(point(0.0, 1.0, 0.0)), vector(0.0, 1.0, 0.0));
    assert_eq!(obj.normal_at(point(0.0, 0.0, 1.0)), vector(0.0, 0.0, 1.0));

    // a normal is a unit vector, within tolerance (sphere, oblique point)
    let k = 3.0f64.sqrt() / 3.0;
    let n = obj.normal_at(point(k, k, k));
    assert_close(n.magnitude(), Fixed::one());
}

#[test]
fn position_test() {
    let r = Ray::new(point(2.0, 3.0, 4.0), vector(1.0, 0.0, 0.0));
    assert_eq!(r.position(fxi(0)), point(2.0, 3.0, 4.0));
    assert_eq!(r.position(fxi(1)), point(3.0, 3.0, 4.0));
    assert_eq!(r.position(fxi(-1)), point(1.0, 3.0, 4.0));
    assert_eq!(r.position(fx(2.5)), point(4.5, 3.0, 4.0));
}

#[test]
fn transform_test() {
    // translating a ray
    let r1 = Ray::new(point(1.0, 2.0, 3.0), vector(0.0, 1.0, 0.0));
    let t = translation(fxi(3), fxi(4), fxi(5));
    let r2 = r1.transform(&t);
    assert_eq!(r2.origin, point(4.0, 6.0, 8.0));
    assert_eq!(r2.direction, vector(0.0, 1.0, 0.0));

    // scaling a ray
    let r1 = Ray::new(point(1.0, 2.0, 3.0), vector(0.0, 1.0, 0.0));
    let t = scaling(fxi(2), fxi(3), fxi(4));
    let r2 = r1.transform(&t);
    assert_eq!(r2.origin, point(2.0, 6.0, 12.0));
    assert_eq!(r2.direction, vector(0.0, 3.0, 0.0));
}

#[test]
fn translation_round_trip_reproduces_ray() {
    let r1 = Ray::new(point(1.0, 2.0, 3.0), vector(0.0, 1.0, 0.0));
    let t = translation(fxi(3), fxi(4), fxi(5));
    let back = translation(fxi(-3), fxi(-4), fxi(-5));
    assert_eq!(r1.transform(&t).transform(&back), r1);
    // and the inverse matrix itself undoes the translation
    let inv = t.inverse().unwrap();
    assert_eq!(r1.transform(&t).transform(&inv), r1);
}

#[test]
fn translation_test() {
    let transform = translation(fxi(5), fxi(-3), fxi(2));
    assert_eq!(transform.mul_point(point(-3.0, 4.0, 5.0)), point(2.0, 1.0, 7.0));
    // translation does not move vectors
    let v = vector(-3.0, 4.0, 5.0);
    assert_eq!(transform.mul_vector(v), v);
}

#[test]
fn scaling_test() {
    let transform = scaling(fxi(2), fxi(3), fxi(4));
    assert_eq!(transform.mul_point(point(-4.0, 6.0, 8.0)), point(-8.0, 18.0, 32.0));
    assert_eq!(transform.mul_vector(vector(-4.0, 6.0, 8.0)), vector(-8.0, 18.0, 32.0));
    let inv = transform.inverse().unwrap();
    let v = inv.mul_vector(vector(-4.0, 6.0, 8.0));
    assert_close(v.tuple.x, fx(-2.0));
    assert_close(v.tuple.y, fx(2.0));
    assert_close(v.tuple.z, fx(2.0));
}

#[test]
fn view_transform_test() {
    // the default orientation is the identity
    let t = view_transform(point(0.0, 0.0, 0.0), point(0.0, 0.0, -1.0), vector(0.0, 1.0, 0.0));
    assert_eq!(t, Matrix4D::identity());

    // looking along positive z mirrors x and z
    let t = view_transform(point(0.0, 0.0, 0.0), point(0.0, 0.0, 1.0), vector(0.0, 1.0, 0.0));
    assert_eq!(t, scaling(fxi(-1), fxi(1), fxi(-1)));

    // the view transform moves the world, not the eye
    let t = view_transform(point(0.0, 0.0, 8.0), point(0.0, 0.0, 0.0), vector(0.0, 1.0, 0.0));
    assert_eq!(t, translation(fxi(0), fxi(0), fxi(-8)));
}

#[test]
fn test_stripe_pattern() {
    let white = color(0.0, 0.0, 0.0);
    let black = color(1.0, 1.0, 1.0);
    let pattern = ColorPattern::new_stripe(white, black);

    assert_eq!(pattern.pattern_at(&point(0.0, 0.0, 0.0)), white);
    assert_eq!(pattern.pattern_at(&point(0.0, 1.0, 0.0)), white);
    assert_eq!(pattern.pattern_at(&point(0.0, 0.0, 2.0)), white);
    assert_eq!(pattern.pattern_at(&point(0.9, 0.0, 0.0)), white);
    assert_eq!(pattern.pattern_at(&point(1.0, 0.0, 0.0)), black);
    assert_eq!(pattern.pattern_at(&point(-0.1, 0.0, 0.0)), black);
    assert_eq!(pattern.pattern_at(&point(-1.0, 0.0, 0.0)), black);
    assert_eq!(pattern.pattern_at(&point(-1.1, 0.0, 0.0)), white);
}

#[test]
fn test_gradient_pattern() {
    let white = color(0.0, 0.0, 0.0);
    let black = color(1.0, 1.0, 1.0);
    let p = ColorPattern::new_gradient(white, black);
    assert_eq!(p.pattern_at(&point(0.0, 0.0, 0.0)), white);
    assert_eq!(p.pattern_at(&point(0.25, 0.0, 0.0)), color(0.25, 0.25, 0.25));
    assert_eq!(p.pattern_at(&point(0.5, 0.0, 0.0)), color(0.5, 0.5, 0.5));
    assert_eq!(p.pattern_at(&point(0.75, 0.0, 0.0)), color(0.75, 0.75, 0.75));
}

#[test]
fn test_ring_pattern() {
    let white = color(0.0, 0.0, 0.0);
    let black = color(1.0, 1.0, 1.0);
    let p = ColorPattern::new_ring(white, black);
    assert_eq!(p.pattern_at(&point(0.0, 0.0, 0.0)), white);
    assert_eq!(p.pattern_at(&point(1.0, 0.0, 0.0)), black);
    assert_eq!(p.pattern_at(&point(0.0, 0.0, 1.0)), black);
    assert_eq!(p.pattern_at(&point(0.708, 0.0, 0.708)), black);
}

#[test]
fn test_checker_pattern() {
    let white = color(0.0, 0.0, 0.0);
    let black = color(1.0, 1.0, 1.0);
    let p = ColorPattern::new_checker(white, black);
    assert_eq!(p.pattern_at(&point(0.0, 0.0, 0.0)), white);
    assert_eq!(p.pattern_at(&point(0.99, 0.0, 0.0)), white);
    assert_eq!(p.pattern_at(&point(1.01, 0.0, 0.0)), black);
    assert_eq!(p.pattern_at(&point(0.0, 0.99, 0.0)), white);
    assert_eq!(p.pattern_at(&point(0.0, 1.01, 0.0)), black);
    assert_eq!(p.pattern_at(&point(0.0, 0.0, 0.99)), white);
    assert_eq!(p.pattern_at(&point(0.0, 0.0, 1.01)), black);
}

#[test]
fn test_object_transformation() {
    let mut s = Sphere::new(point(0.0, 0.0, 0.0));
    s.shape.transform = scaling(fxi(2), fxi(2), fxi(2));
    let p = ColorPattern::new_test();
    let c = p.pattern_at_object(&s.shape, &point(2.0, 3.0, 4.0));
    assert_eq!(c, color(1.0, 1.5, 2.0));

    let s = Sphere::new(point(0.0, 0.0, 0.0));
    let mut p = ColorPattern::new_test();
    p.set_transform(scaling(fxi(2), fxi(2), fxi(2)));
    let c = p.pattern_at_object(&s.shape, &point(2.0, 3.0, 4.0));
    assert_eq!(c, color(1.0, 1.5, 2.0));

    let mut s = Sphere::new(point(0.0, 0.0, 0.0));
    s.shape.transform = scaling(fxi(2), fxi(2), fxi(2));
    let mut p = ColorPattern::new_test();
    p.set_transform(translation(fx(0.5), fxi(1), fx(1.5)));
    let c = p.pattern_at_object(&s.shape, &point(2.5, 3.0, 3.5));
    assert_eq!(c, color(0.75, 0.5, 0.25));
}

#[test]
fn lighting_test() {
    let s = Sphere::new(point(0.0, 0.0, 0.0));
    let m = Material::default();
    let position = point(0.0, 0.0, 0.0);

    // eye between the light and the surface
    let eye = vector(0.0, 0.0, -1.0);
    let n = vector(0.0, 0.0, -1.0);
    let light = PointLight::new(point(0.0, 0.0, -10.0), color(1.0, 1.0, 1.0));
    let result = m.lighting(&s.shape, &light, &position, &eye, &n, false);
    assert_color_close(result, color(1.9, 1.9, 1.9));

    // eye offset 45 degrees
    let k = 2.0f64.sqrt() / 2.0;
    let eye = Vector::new(fx(0.0), fx(k), fx(-k));
    let result = m.lighting(&s.shape, &light, &position, &eye, &n, false);
    assert_color_close(result, color(1.0, 1.0, 1.0));

    // surface in shadow: only the ambient term remains
    let eye = vector(0.0, 0.0, -1.0);
    let result = m.lighting(&s.shape, &light, &position, &eye, &n, true);
    assert_color_close(result, color(0.1, 0.1, 0.1));

    // light behind the surface
    let light = PointLight::new(point(0.0, 0.0, 10.0), color(1.0, 1.0, 1.0));
    let result = m.lighting(&s.shape, &light, &position, &eye, &n, false);
    assert_color_close(result, color(0.1, 0.1, 0.1));
}

#[test]
fn default_test() {
    let w = World::default();
    assert_eq!(w.objects[0].material().color, color(0.8, 1.0, 0.6));
    assert_eq!(w.objects[0].material().diffuse, fx(0.7));
    assert_eq!(w.objects[0].material().specular, fx(0.2));
}

#[test]
fn intersect_world() {
    let r = Ray::new(point(0.0, 0.0, -5.0), vector(0.0, 0.0, 1.0));
    let w = World::default();
    let xs = r.intersect_world(&w).unwrap();
    assert_eq!(xs.len(), 4);
    assert_eq!(xs[0].t, fxi(4));
    assert_close(xs[1].t, fx(4.5));
    assert_close(xs[2].t, fx(5.5));
    assert_eq!(xs[3].t, fxi(6));
}

#[test]
fn color_at_test() {
    // ray misses: black
    let r = Ray::new(point(0.0, 0.0, -5.0), vector(0.0, 1.0, 0.0));
    let w = World::default();
    assert_eq!(w.color_at(&r, None).unwrap(), color(0.0, 0.0, 0.0));

    // ray hits the outer sphere
    let r = Ray::new(point(0.0, 0.0, -5.0), vector(0.0, 0.0, 1.0));
    let c = w.color_at(&r, None).unwrap();
    assert_color_close(c, color(0.38066, 0.47583, 0.2855));
}

#[test]
fn shade_hit_test() {
    let r = Ray::new(point(0.0, 0.0, -5.0), vector(0.0, 0.0, 1.0));
    let w = World::default();
    let i = Intersection::new(fxi(4), 0);
    let xs = vec![i];
    let comps = r.prepare_computations(&w, &i, Some(&xs));
    let c = w.shade_hit(&comps, None).unwrap();
    assert_color_close(c, color(0.38066, 0.47583, 0.2855));
}

#[test]
fn is_shadowed_test() {
    let w = World::default();

    // nothing collinear with the point and the light
    assert!(!w.is_shadowed(point(0.0, 10.0, 0.0)).unwrap());

    // an object between the point and the light
    assert!(w.is_shadowed(point(10.0, -10.0, 10.0)).unwrap());

    // an object behind the light
    assert!(!w.is_shadowed(point(-20.0, 20.0, -20.0)).unwrap());
}

#[test]
fn test_reflected_color() {
    // a non-reflective surface contributes black
    let w = World::default();
    let r = Ray::new(point(0.0, 0.0, -5.0), vector(0.0, 0.0, 1.0));
    let i = Intersection::new(fxi(4), 0);
    let comps = r.prepare_computations(&w, &i, None);
    assert_eq!(w.reflected_color(&comps, None).unwrap(), color(0.0, 0.0, 0.0));

    // a spent recursion budget contributes black whatever the material
    assert_eq!(w.reflected_color(&comps, Some(0)).unwrap(), color(0.0, 0.0, 0.0));
    assert_eq!(w.refracted_color(&comps, Some(0)).unwrap(), color(0.0, 0.0, 0.0));
}

#[test]
fn test_schlick() {
    // total internal reflection: the reflectance is exactly one
    let k = 2.0f64.sqrt() / 2.0;
    let shape = SceneObject::Sphere(Sphere::new_glass_sphere());
    let light = PointLight::new(point(-10.0, 10.0, -10.0), color(1.0, 1.0, 1.0));
    let w = World::new(vec![shape], light);
    let r = Ray::new(Point::new(fx(0.0), fx(0.0), fx(k)), vector(0.0, 1.0, 0.0));
    let xs = vec![
        Intersection::new(fx(-k), 0),
        Intersection::new(fx(k), 0),
    ];
    let comps = r.prepare_computations(&w, &xs[1], Some(&xs));
    assert_eq!(comps.schlick(), Fixed::one());

    // a perpendicular ray reflects about four percent
    let r = Ray::new(point(0.0, 0.0, 0.0), vector(0.0, 1.0, 0.0));
    let xs = vec![Intersection::new(fxi(-1), 0), Intersection::new(fxi(1), 0)];
    let comps = r.prepare_computations(&w, &xs[1], Some(&xs));
    assert_close(comps.schlick(), fx(0.04));
}

#[test]
fn refraction_test() {
    // the refractive-index pair at each hit through nested glass spheres
    let mut a = Sphere::new_glass_sphere();
    a.shape.transform = scaling(fxi(2), fxi(2), fxi(2));
    a.shape.material.refractive_index = fx(1.5);

    let mut b = Sphere::new_glass_sphere();
    b.shape.transform = translation(fx(0.0), fx(0.0), fx(-0.25));
    b.shape.material.refractive_index = fx(2.0);

    let mut c = Sphere::new_glass_sphere();
    c.shape.transform = translation(fx(0.0), fx(0.0), fx(0.25));
    c.shape.material.refractive_index = fx(2.5);

    let light = PointLight::new(point(-10.0, 10.0, -10.0), color(1.0, 1.0, 1.0));
    let w = World::new(
        vec![SceneObject::Sphere(a), SceneObject::Sphere(b), SceneObject::Sphere(c)],
        light,
    );

    let r = Ray::new(point(0.0, 0.0, -4.0), vector(0.0, 0.0, 1.0));
    let xs = vec![
        Intersection::new(fxi(2), 0),
        Intersection::new(fx(2.75), 1),
        Intersection::new(fx(3.25), 2),
        Intersection::new(fx(4.75), 1),
        Intersection::new(fx(5.25), 2),
        Intersection::new(fxi(6), 0),
    ];

    let expected = [
        (1.0, 1.5),
        (1.5, 2.0),
        (2.0, 2.5),
        (2.5, 2.5),
        (2.5, 1.5),
        (1.5, 1.0),
    ];
    for (i, (n1, n2)) in expected.iter().enumerate() {
        let comps = r.prepare_computations(&w, &xs[i], Some(&xs));
        assert_eq!(comps.n1, fx(*n1), "n1 at {}", i);
        assert_eq!(comps.n2, fx(*n2), "n2 at {}", i);
    }
}

#[test]
fn prepare_computations_test() {
    // a hit from outside
    let r = Ray::new(point(0.0, 0.0, -5.0), vector(0.0, 0.0, 1.0));
    let light = PointLight::new(point(-10.0, 10.0, -10.0), color(1.0, 1.0, 1.0));
    let w = World::new(
        vec![SceneObject::Sphere(Sphere::new(point(0.0, 0.0, 0.0)))],
        light,
    );
    let i = Intersection::new(fxi(4), 0);
    let comps = r.prepare_computations(&w, &i, None);
    assert!(!comps.inside);
    assert_eq!(comps.t, i.t);
    assert_eq!(comps.object, i.object);
    assert_eq!(comps.point, point(0.0, 0.0, -1.0));
    assert_eq!(comps.eye, vector(0.0, 0.0, -1.0));
    assert_eq!(comps.normal, vector(0.0, 0.0, -1.0));

    // a hit from inside flips the normal
    let r = Ray::new(point(0.0, 0.0, 0.0), vector(0.0, 0.0, 1.0));
    let i = Intersection::new(fxi(1), 0);
    let comps = r.prepare_computations(&w, &i, None);
    assert!(comps.inside);
    assert_eq!(comps.point, point(0.0, 0.0, 1.0));
    assert_eq!(comps.eye, vector(0.0, 0.0, -1.0));
    assert_eq!(comps.normal, vector(0.0, 0.0, -1.0));
}

#[test]
fn pixel_size_test() {
    let half_view = fxi(1);  // tangent of a quarter turn halved
    let c = Camera::new(200, 125, fx(std::f64::consts::PI / 2.0), half_view);
    assert_close(c.pixel_size, fx(0.01));
    let c = Camera::new(125, 200, fx(std::f64::consts::PI / 2.0), half_view);
    assert_close(c.pixel_size, fx(0.01));
}

#[test]
fn ray_for_pixel_test() {
    let half_view = fxi(1);
    let c = Camera::new(201, 101, fx(std::f64::consts::PI / 2.0), half_view);
    let r = c.ray_for_pixel(100, 50);
    assert_eq!(r.origin, point(0.0, 0.0, 0.0));
    assert_close(r.direction.tuple.x, fx(0.0));
    assert_close(r.direction.tuple.y, fx(0.0));
    assert_close(r.direction.tuple.z, fx(-1.0));

    let r = c.ray_for_pixel(0, 0);
    assert_close(r.direction.tuple.x, fx(0.66519));
    assert_close(r.direction.tuple.y, fx(0.33259));
    assert_close(r.direction.tuple.z, fx(-0.66851));
}

#[test]
fn render_test() {
    let w = World::default();
    let mut c = Camera::new(11, 11, fx(std::f64::consts::PI / 2.0), fxi(1));
    c.transform = view_transform(point(0.0, 0.0, -5.0), point(0.0, 0.0, 0.0), vector(0.0, 1.0, 0.0));
    let image = c.render(&w).unwrap();
    assert_color_close(image.pixel_at(5, 5), color(0.38066, 0.47583, 0.2855));
}

#[test]
fn sanity() {
    let c = Canvas::new(10, 20);
    let black = color(0.0, 0.0, 0.0);
    assert_eq!(c.pixel_at(0, 0), black);
    assert_eq!(c.pixel_at(0, 1), black);
    assert_eq!(c.pixel_at(9, 19), black);
}

#[test]
fn writing_pixel() {
    let mut c = Canvas::new(10, 20);
    let red = color(1.0, 0.0, 0.0);
    c.write_pixel(2, 3, red);
    assert_eq!(c.pixel_at(2, 3), red);
}

#[test]
fn color_normalise_clamps_channels() {
    let c = color(1.5, 0.5, -0.5);
    let (r, g, b) = c.normalise(Fixed::zero(), fxi(255));
    assert_eq!(r, 255);
    assert_eq!(g, 127);
    assert_eq!(b, 0);
}

#[test]
fn material_test() {
    let mut s = Sphere::new(point(0.0, 0.0, 0.0));
    let mut m = Material::default();
    assert_eq!(s.shape.material.color, m.color);
    assert_eq!(s.shape.material.ambient, m.ambient);
    assert_eq!(s.shape.material.diffuse, m.diffuse);
    assert_eq!(s.shape.material.specular, m.specular);
    assert_eq!(s.shape.material.shininess, m.shininess);
    m.ambient = fxi(1);
    s.shape.material = m;
    assert_eq!(s.shape.material.ambient, fxi(1));
}

#[test]
fn projectile_tick() {
    let mut p = ray_tracer::projectile::Projectile {
        position: point(0.0, 1.0, 0.0),
        velocity: vector(1.0, 2.0, 0.0),
    };
    let e = ray_tracer::projectile::Environment {
        gravity: vector(0.0, -0.1, 0.0),
        wind: vector(-0.01, 0.0, 0.0),
    };
    ray_tracer::projectile::tick(&e, &mut p);
    assert_eq!(p.position, point(1.0, 3.0, 0.0));
    assert_close(p.velocity.tuple.x, fx(0.99));
    assert_close(p.velocity.tuple.y, fx(1.9));
}

#[test]
fn plane_intersections() {
    let p = ray_tracer::shapes::plane::Plane::new(point(0.0, 0.0, 0.0));

    // parallel and coplanar rays miss
    let r = Ray::new(point(0.0, 10.0, 0.0), vector(0.0, 0.0, 1.0));
    assert_eq!(p.local_intersect(&r).unwrap().len(), 0);
    let r = Ray::new(point(0.0, 0.0, 0.0), vector(0.0, 0.0, 1.0));
    assert_eq!(p.local_intersect(&r).unwrap().len(), 0);

    // from above and below
    let r = Ray::new(point(0.0, 1.0, 0.0), vector(0.0, -1.0, 0.0));
    let xs = p.local_intersect(&r).unwrap();
    assert_eq!(xs, vec![fxi(1)]);
    let r = Ray::new(point(0.0, -1.0, 0.0), vector(0.0, 1.0, 0.0));
    let xs = p.local_intersect(&r).unwrap();
    assert_eq!(xs, vec![fxi(1)]);
}

#[test]
fn cube_intersections() {
    let c = ray_tracer::shapes::cube::Cube::new(point(0.0, 0.0, 0.0));
    let cases = [
        (point(5.0, 0.5, 0.0), vector(-1.0, 0.0, 0.0), 4.0, 6.0),
        (point(-5.0, 0.5, 0.0), vector(1.0, 0.0, 0.0), 4.0, 6.0),
        (point(0.5, 5.0, 0.0), vector(0.0, -1.0, 0.0), 4.0, 6.0),
        (point(0.5, -5.0, 0.0), vector(0.0, 1.0, 0.0), 4.0, 6.0),
        (point(0.5, 0.0, 5.0), vector(0.0, 0.0, -1.0), 4.0, 6.0),
        (point(0.5, 0.0, -5.0), vector(0.0, 0.0, 1.0), 4.0, 6.0),
        (point(0.0, 0.5, 0.0), vector(0.0, 0.0, 1.0), -1.0, 1.0),
    ];
    for (o, d, t1, t2) in cases.iter() {
        let r = Ray::new(*o, *d);
        let xs = c.local_intersect(&r).unwrap();
        assert_eq!(xs.len(), 2);
        assert_eq!(xs[0], fx(*t1));
        assert_eq!(xs[1], fx(*t2));
    }
    // miss
    let r = Ray::new(point(-2.0, 0.0, 0.0), vector(0.2673, 0.5345, 0.8018));
    assert_eq!(c.local_intersect(&r).unwrap().len(), 0);
}

#[test]
fn cube_normals() {
    let c = ray_tracer::shapes::cube::Cube::new(point(0.0, 0.0, 0.0));
    assert_eq!(c.local_normal_at(point(1.0, 0.5, -0.8)), vector(1.0, 0.0, 0.0));
    assert_eq!(c.local_normal_at(point(-1.0, -0.5, 0.9)), vector(-1.0, 0.0, 0.0));
    assert_eq!(c.local_normal_at(point(-0.4, 1.0, -0.1)), vector(0.0, 1.0, 0.0));
    assert_eq!(c.local_normal_at(point(0.3, -1.0, -0.7)), vector(0.0, -1.0, 0.0));
    assert_eq!(c.local_normal_at(point(-0.6, 0.5, 1.0)), vector(0.0, 0.0, 1.0));
    assert_eq!(c.local_normal_at(point(0.4, 0.4, -1.0)), vector(0.0, 0.0, -1.0));
}

#[test]
fn cylinder_intersections() {
    let c = ray_tracer::shapes::cylinder::Cylinder::new(
        point(0.0, 0.0, 0.0),
        Fixed::from_raw(i64::MAX),
        Fixed::from_raw(i64::MIN),
        false,
    );
    // misses
    let r = Ray::new(point(1.0, 0.0, 0.0), vector(0.0, 1.0, 0.0));
    assert_eq!(c.local_intersect(&r).unwrap().len(), 0);
    // a straight hit through the middle
    let r = Ray::new(point(0.0, 0.0, -5.0), vector(0.0, 0.0, 1.0));
    let xs = c.local_intersect(&r).unwrap();
    assert_eq!(xs, vec![fxi(4), fxi(6)]);

    // a closed truncated cylinder is hit through both caps
    let c = ray_tracer::shapes::cylinder::Cylinder::new(point(0.0, 0.0, 0.0), fxi(2), fxi(1), true);
    let r = Ray::new(point(0.0, 3.0, 0.0), vector(0.0, -1.0, 0.0));
    assert_eq!(c.local_intersect(&r).unwrap().len(), 2);
}

#[test]
fn cylinder_normals() {
    let c = ray_tracer::shapes::cylinder::Cylinder::new(
        point(0.0, 0.0, 0.0),
        Fixed::from_raw(i64::MAX),
        Fixed::from_raw(i64::MIN),
        false,
    );
    assert_eq!(c.local_normal_at(point(1.0, 0.0, 0.0)), vector(1.0, 0.0, 0.0));
    assert_eq!(c.local_normal_at(point(0.0, 5.0, -1.0)), vector(0.0, 0.0, -1.0));

    // cap normals point along the axis
    let c = ray_tracer::shapes::cylinder::Cylinder::new(point(0.0, 0.0, 0.0), fxi(2), fxi(1), true);
    assert_eq!(c.local_normal_at(point(0.0, 1.0, 0.0)), vector(0.0, -1.0, 0.0));
    assert_eq!(c.local_normal_at(point(0.5, 2.0, 0.0)), vector(0.0, 1.0, 0.0));
}

#[test]
fn cone_intersections() {
    let c = ray_tracer::shapes::cone::Cone::new(
        point(0.0, 0.0, 0.0),
        Fixed::from_raw(i64::MAX),
        Fixed::from_raw(i64::MIN),
        true,
    );
    let r = Ray::new(point(0.0, 0.0, -5.0), vector(0.0, 0.0, 1.0));
    let xs = c.local_intersect(&r).unwrap();
    assert_eq!(xs.len(), 2);
    assert_close(xs[0], fxi(5));
    assert_close(xs[1], fxi(5));

    // a ray parallel to one nappe yields the single linear root; the
    // unbounded extents, though marked closed, carry no cap planes
    let r = Ray::new(point(0.0, 0.0, -1.0), vector(0.0, 1.0, 1.0).normalise());
    let xs = c.local_intersect(&r).unwrap();
    assert_eq!(xs.len(), 1);
    assert_close(xs[0], fx(0.35355));
}

#[test]
fn cone_cap_intersections() {
    // a truncated closed cone between -0.5 and 0.5
    let c = ray_tracer::shapes::cone::Cone::new(point(0.0, 0.0, 0.0), fx(0.5), fx(-0.5), true);

    // a vertical ray misses both caps: its radial distance squared, 0.3125,
    // exceeds the squared cap height 0.25, and its side hits lie outside the
    // height bounds
    let r = Ray::new(point(0.5, 2.0, 0.25), vector(0.0, -1.0, 0.0));
    assert_eq!(c.local_intersect(&r).unwrap().len(), 0);

    // an axial ray from inside leaves through the side twice and both caps
    let r = Ray::new(point(0.0, 0.0, -0.25), vector(0.0, 1.0, 0.0));
    assert_eq!(c.local_intersect(&r).unwrap().len(), 4);

    // far outside the cone nothing is hit
    let r = Ray::new(point(0.0, 0.0, -5.0), vector(0.0, 1.0, 0.0));
    assert_eq!(c.local_intersect(&r).unwrap().len(), 0);
}

#[test]
fn sphere_glass_constructor() {
    let s = Sphere::new_glass_sphere();
    assert_eq!(s.shape.material.transparency, Fixed::one());
    assert_eq!(s.shape.material.refractive_index, fx(1.5));
}

#[test]
fn addition() {
    let t1 = vector(3.0, -2.0, 5.2).tuple;
    let t2 = point(-2.0, 3.0, 1.1).tuple;
    let t = t2.add(t1);
    assert_close(t.x, fx(1.0));
    assert_close(t.y, fx(1.0));
    assert_close(t.z, fx(6.3));
    assert_eq!(t.w, fxi(1));
}

#[test]
fn subtraction() {
    // point minus point yields a vector
    let p1 = point(8.0, 3.0, 5.0);
    let p2 = point(1.0, 2.0, 3.0);
    let v = p1.sub(p2);
    assert_eq!(v, vector(7.0, 1.0, 2.0));

    // point minus vector yields a point
    let p = point(8.0, 3.0, 5.0).sub_vector(vector(1.0, 2.0, 3.0));
    assert_eq!(p, point(7.0, 1.0, 2.0));
}

#[test]
fn negation() {
    let t1 = point(1.0, 2.0, 3.0).tuple;
    let t2 = t1.neg();
    assert_eq!(t2.x, fx(-1.0));
    assert_eq!(t2.y, fx(-2.0));
    assert_eq!(t2.z, fx(-3.0));
    assert_eq!(t2.w, fx(-1.0));
}

#[test]
fn is_tuple() {
    let p = point(1.0, 2.0, 3.0);
    assert_eq!(p.tuple.w, Fixed::one());
    let v = vector(1.0, 2.0, 3.0);
    assert_eq!(v.tuple.w, Fixed::zero());
}

#[test]
fn vector_operations() {
    // magnitude of an axis vector is exactly one
    assert_eq!(vector(0.0, 1.0, 0.0).magnitude(), Fixed::one());
    // dot product
    assert_eq!(vector(1.0, 2.0, 3.0).dot(&vector(2.0, 3.0, 4.0)), fxi(20));
    // cross product
    assert_eq!(
        vector(1.0, 2.0, 3.0).cross(&vector(2.0, 3.0, 4.0)),
        vector(-1.0, 2.0, -1.0)
    );
    // reflecting a vector off a flat surface
    let v = vector(1.0, -1.0, 0.0);
    let n = vector(0.0, 1.0, 0.0);
    assert_eq!(v.reflect(n), vector(1.0, 1.0, 0.0));
}

#[test]
fn color_arithmetic() {
    let c1 = color(0.75, 0.5, 0.25);
    let c2 = color(0.25, 0.25, 0.25);
    assert_eq!(c1.add(c2), color(1.0, 0.75, 0.5));
    assert_eq!(c1.sub(c2), color(0.5, 0.25, 0.0));
    assert_eq!(c1.scale(fxi(2)), color(1.5, 1.0, 0.5));
    assert_eq!(c1.mul(color(0.5, 0.5, 0.5)), color(0.375, 0.25, 0.125));
}

#[test]
fn indexing() {
    let m = Matrix4D::new([
        [fx(1.0), fx(2.0), fx(3.0), fx(4.0)],
        [fx(5.5), fx(6.5), fx(7.5), fx(8.5)],
        [fx(9.0), fx(10.0), fx(11.0), fx(12.0)],
        [fx(13.5), fx(14.5), fx(15.5), fx(16.5)],
    ]);
    assert_eq!(m.data[0][0], fx(1.0));
    assert_eq!(m.data[1][0], fx(5.5));
    assert_eq!(m.data[1][2], fx(7.5));
    assert_eq!(m.data[3][0], fx(13.5));
    assert_eq!(m.data[3][2], fx(15.5));
}

#[test]
fn transpose() {
    let m = Matrix3D::new([
        [fx(-3.0), fx(5.0), fx(0.0)],
        [fx(1.0), fx(-2.0), fx(-7.0)],
        [fx(0.0), fx(1.0), fx(-1.0)],
    ]);
    let m_t = m.transpose();
    assert_eq!(m_t.data[0][0], fx(-3.0));
    assert_eq!(m_t.data[1][0], fx(5.0));
    assert_eq!(m_t.data[0][1], fx(1.0));
    assert_eq!(m_t.data[1][1], fx(-2.0));
    assert_eq!(m_t.data[2][2], fx(-1.0));
}

#[test]
fn matrix2d_det() {
    let m = ray_tracer::matrix::matrix2d::Matrix2D::new([
        [fxi(1), fxi(5)],
        [fxi(-3), fxi(2)],
    ]);
    assert_eq!(m.det(), fxi(17));
}

#[test]
fn matrix3d_det() {
    let m = Matrix3D::new([
        [fxi(1), fxi(2), fxi(6)],
        [fxi(-5), fxi(8), fxi(-4)],
        [fxi(2), fxi(6), fxi(4)],
    ]);
    assert_eq!(m.cofactor(0, 0), fxi(56));
    assert_eq!(m.cofactor(0, 1), fxi(12));
    assert_eq!(m.cofactor(0, 2), fxi(-46));
    assert_eq!(m.det(), fxi(-196));
}

#[test]
fn matrix4d_det() {
    let m = Matrix4D::new([
        [fxi(-2), fxi(-8), fxi(3), fxi(5)],
        [fxi(-3), fxi(1), fxi(7), fxi(3)],
        [fxi(1), fxi(2), fxi(-9), fxi(6)],
        [fxi(-6), fxi(7), fxi(7), fxi(-9)],
    ]);
    assert_eq!(m.cofactor(0, 0), fxi(690));
    assert_eq!(m.cofactor(0, 1), fxi(447));
    assert_eq!(m.cofactor(0, 2), fxi(210));
    assert_eq!(m.cofactor(0, 3), fxi(51));
    assert_eq!(m.det(), fxi(-4071));
}

#[test]
fn test_normal_at() {
    let p = ray_tracer::shapes::plane::Plane::new(point(0.0, 0.0, 0.0));
    let n = vector(0.0, 1.0, 0.0);
    assert_eq!(p.local_normal_at(point(0.0, 0.0, 0.0)), n);
    assert_eq!(p.local_normal_at(point(10.0, 0.0, -10.0)), n);
    assert_eq!(p.local_normal_at(point(-5.0, 0.0, 150.0)), n);
}

#[test]
fn cone_normals() {
    let c = ray_tracer::shapes::cone::Cone::new(
        point(0.0, 0.0, 0.0),
        Fixed::from_raw(i64::MAX),
        Fixed::from_raw(i64::MIN),
        true,
    );
    // at the apex the radial direction vanishes
    assert_eq!(c.local_normal_at(point(0.0, 0.0, 0.0)), vector(0.0, 0.0, 0.0));

    // on the upper nappe the vertical part points down
    let k = 2.0f64.sqrt();
    let expect = vector(1.0, -k, 1.0).normalise();
    let n = c.local_normal_at(point(1.0, 1.0, 1.0));
    assert_close(n.tuple.x, expect.tuple.x);
    assert_close(n.tuple.y, expect.tuple.y);
    assert_close(n.tuple.z, expect.tuple.z);

    // on the lower nappe the vertical part points up
    let expect = vector(-1.0, 1.0, 0.0).normalise();
    let n = c.local_normal_at(point(-1.0, -1.0, 0.0));
    assert_close(n.tuple.x, expect.tuple.x);
    assert_close(n.tuple.y, expect.tuple.y);
    assert_close(n.tuple.z, expect.tuple.z);
}

#[test]
fn test_reflection_vector() {
    let k = 2.0f64.sqrt() / 2.0;
    let light = PointLight::new(point(-10.0, 10.0, -10.0), color(1.0, 1.0, 1.0));
    let w = World::new(
        vec![SceneObject::Plane(ray_tracer::shapes::plane::Plane::new(point(0.0, 0.0, 0.0)))],
        light,
    );
    let r = Ray::new(point(0.0, 1.0, -1.0), Vector::new(fx(0.0), fx(-k), fx(k)));
    let i = Intersection::new(fx(2.0f64.sqrt()), 0);
    let comps = r.prepare_computations(&w, &i, None);
    assert_close(comps.reflection_vector.tuple.x, fx(0.0));
    assert_close(comps.reflection_vector.tuple.y, fx(k));
    assert_close(comps.reflection_vector.tuple.z, fx(k));
}

#[test]
fn lighting_with_pattern() {
    let s = Sphere::new(point(0.0, 0.0, 0.0));
    let white = color(1.0, 1.0, 1.0);
    let black = color(0.0, 0.0, 0.0);
    let mut m = Material::default();
    m.pattern = Some(ColorPattern::new_stripe(white, black));
    m.ambient = fxi(1);
    m.diffuse = fxi(0);
    m.specular = fxi(0);
    let eye = vector(0.0, 0.0, -1.0);
    let n = vector(0.0, 0.0, -1.0);
    let light = PointLight::new(point(0.0, 0.0, -10.0), white);
    let c1 = m.lighting(&s.shape, &light, &point(0.9, 0.0, 0.0), &eye, &n, false);
    let c2 = m.lighting(&s.shape, &light, &point(1.1, 0.0, 0.0), &eye, &n, false);
    assert_eq!(c1, white);
    assert_eq!(c2, black);
}

#[test]
fn test_inifinite_recursion_w_mutually_reflective_surfaces() {
    // two fully reflective planes facing each other: the budget alone stops
    // the trace
    let light = PointLight::new(point(0.0, 0.0, 0.0), color(1.0, 1.0, 1.0));
    let mut lower = ray_tracer::shapes::plane::Plane::new(point(0.0, 0.0, 0.0));
    lower.shape.material.reflective = fxi(1);
    lower.shape.transform = translation(fx(0.0), fx(-1.0), fx(0.0));

    let mut upper = ray_tracer::shapes::plane::Plane::new(point(0.0, 0.0, 0.0));
    upper.shape.material.reflective = fxi(1);
    upper.shape.transform = translation(fx(0.0), fx(1.0), fx(0.0));

    let w = World::new(
        vec![SceneObject::Plane(lower), SceneObject::Plane(upper)],
        light,
    );
    let r = Ray::new(point(0.0, 0.0, 0.0), vector(0.0, 1.0, 0.0));
    let c = w.color_at(&r, None);
    assert!(c.is_ok());
}

#[test]
fn ray_for_pixel_rotated_camera() {
    let half_view = fxi(1);
    let mut c = Camera::new(201, 101, fx(std::f64::consts::PI / 2.0), half_view);
    let quarter = std::f64::consts::PI / 4.0;
    c.transform = ray_tracer::transformations::rotation_y(fx(quarter.cos()), fx(quarter.sin()))
        .mul(&translation(fx(0.0), fx(-2.0), fx(5.0)));
    let r = c.ray_for_pixel(100, 50);
    let k = 2.0f64.sqrt() / 2.0;
    assert_close(r.origin.tuple.x, fx(0.0));
    assert_close(r.origin.tuple.y, fx(2.0));
    assert_close(r.origin.tuple.z, fx(-5.0));
    assert_close(r.direction.tuple.x, fx(k));
    assert_close(r.direction.tuple.y, fx(0.0));
    assert_close(r.direction.tuple.z, fx(-k));
}

#[test]
fn shearing_test() {
    let p = point(2.0, 3.0, 4.0);
    let z = fx(0.0);
    let o = fx(1.0);
    assert_eq!(ray_tracer::transformations::shearing(o, z, z, z, z, z).mul_point(p), point(5.0, 3.0, 4.0));
    assert_eq!(ray_tracer::transformations::shearing(z, o, z, z, z, z).mul_point(p), point(6.0, 3.0, 4.0));
    assert_eq!(ray_tracer::transformations::shearing(z, z, o, z, z, z).mul_point(p), point(2.0, 5.0, 4.0));
    assert_eq!(ray_tracer::transformations::shearing(z, z, z, o, z, z).mul_point(p), point(2.0, 7.0, 4.0));
    assert_eq!(ray_tracer::transformations::shearing(z, z, z, z, o, z).mul_point(p), point(2.0, 3.0, 6.0));
    assert_eq!(ray_tracer::transformations::shearing(z, z, z, z, z, o).mul_point(p), point(2.0, 3.0, 7.0));
}

#[test]
fn initialisation() {
    let intensity = color(1.0, 1.0, 1.0);
    let position = point(1.0, 1.0, 1.0);
    let light = PointLight::new(position, intensity);
    assert_eq!(light.position, position);
    assert_eq!(light.intensity, intensity);
}

#[test]
fn sphere_shadow_scene() {
    // the example scene renders and lights the sphere's silhouette
    let c = ray_tracer::scenes::sphere_shadow_example().unwrap();
    assert_eq!(c.width, 1000);
    assert_eq!(c.height, 1000);
    // the center pixel sees the sphere
    let center = c.pixel_at(500, 500);
    assert!(center.red.raw > 0);
    // a corner pixel misses it and stays black
    assert_eq!(c.pixel_at(0, 0), color(0.0, 0.0, 0.0));
}
