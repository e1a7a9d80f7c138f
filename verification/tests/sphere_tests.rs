use ray_tracing_in_one_weekend::hittable::HitRecord;
use ray_tracing_in_one_weekend::interval::Interval;
use ray_tracing_in_one_weekend::material::{Lambertian, Material};
use ray_tracing_in_one_weekend::scalar::Scalar;
use ray_tracing_in_one_weekend::sphere::{Crossings, Sphere, Touch};
use ray_tracing_in_one_weekend::vec3::Vec3;

fn s(x: f64) -> Scalar {
    Scalar::from_bits(x.to_bits())
}

fn f(x: Scalar) -> f64 {
    f64::from_bits(x.to_bits())
}

fn v(a: [f64; 3]) -> Vec3 {
    Vec3::new(s(a[0]), s(a[1]), s(a[2]))
}

fn dot(a: [f64; 3], b: [f64; 3]) -> f64 {
    a[0] * b[0] + a[1] * b[1] + a[2] * b[2]
}

fn sub(a: [f64; 3], b: [f64; 3]) -> [f64; 3] {
    [a[0] - b[0], a[1] - b[1], a[2] - b[2]]
}

fn touch(center: [f64; 3], radius: f64, origin: [f64; 3], direction: [f64; 3], t: f64) -> Touch {
    let point = [
        origin[0] + t * direction[0],
        origin[1] + t * direction[1],
        origin[2] + t * direction[2],
    ];
    let outward = [
        (point[0] - center[0]) / radius,
        (point[1] - center[1]) / radius,
        (point[2] - center[2]) / radius,
    ];
    Touch {
        t: s(t),
        p: v(point),
        outward_normal: v(outward),
        facing: s(dot(direction, outward)),
    }
}

fn bare(t: f64) -> Touch {
    Touch {
        t: s(t),
        p: v([0.0, 0.0, -t]),
        outward_normal: v([0.0, 0.0, 1.0]),
        facing: s(-1.0),
    }
}

/// Solves the quadratic of a ray against a sphere.
fn solve(center: [f64; 3], radius: f64, origin: [f64; 3], direction: [f64; 3]) -> Crossings {
    let oc = sub(center, origin);
    let a = dot(direction, direction);
    let h = dot(direction, oc);
    let c = dot(oc, oc) - radius * radius;
    let discriminant = h * h - a * c;
    Crossings::new(
        s(discriminant),
        touch(center, radius, origin, direction, (h - discriminant.sqrt()) / a),
        touch(center, radius, origin, direction, (h + discriminant.sqrt()) / a),
    )
}

fn grey() -> Material {
    Material::Lambertian(Lambertian::new(v([0.5, 0.5, 0.5])))
}

fn ball() -> Sphere {
    Sphere::new(v([0.0, 0.0, -1.0]), s(0.5), grey())
}

fn found(c: &Crossings, lo: f64, hi: f64) -> Option<f64> {
    ball().hit(c, Interval::new(s(lo), s(hi))).map(|rec| f(rec.t))
}

#[test]
fn a_negative_radius_counts_as_zero() {
    assert_eq!(f(Sphere::new(Vec3::zero(), s(-2.0), grey()).radius), 0.0);
    assert_eq!(f(Sphere::new(Vec3::zero(), s(2.0), grey()).radius), 2.0);
    assert_eq!(f(Sphere::new(Vec3::zero(), s(0.0), grey()).radius), 0.0);
    let kept = Sphere::new(v([1.0, 2.0, 3.0]), s(0.5), grey());
    assert_eq!(kept.center, v([1.0, 2.0, 3.0]));
    assert_eq!(kept.mat, grey());
}

#[test]
fn crossings_put_the_solutions_in_order() {
    let c = Crossings::new(s(0.25), bare(1.5), bare(0.5));
    assert_eq!(c.near(), bare(0.5));
    assert_eq!(c.far(), bare(1.5));
    assert_eq!(f(c.discriminant()), 0.25);
    let d = Crossings::new(s(0.25), bare(0.5), bare(1.5));
    assert_eq!(d.near(), bare(0.5));
    assert_eq!(d.far(), bare(1.5));
}

#[test]
fn a_ray_down_the_axis_strikes_the_front_of_the_sphere() {
    let crossings = solve([0.0, 0.0, -1.0], 0.5, [0.0, 0.0, 0.0], [0.0, 0.0, -1.0]);
    let rec = ball()
        .hit(&crossings, Interval::new(s(0.001), s(f64::INFINITY)))
        .expect("the ray strikes the sphere");
    assert_eq!(f(rec.t), 0.5);
    assert_eq!(rec.normal, v([0.0, 0.0, 1.0]));
    assert!(rec.front_face);
    assert_eq!(rec.p, v([0.0, 0.0, -0.5]));
    assert_eq!(rec.mat, grey());
    let by_hand = HitRecord::new(
        v([0.0, 0.0, -0.5]),
        v([0.0, 0.0, 1.0]),
        s(0.5),
        s(-1.0),
        grey(),
    );
    assert_eq!(rec, by_hand);
}

#[test]
fn a_ray_from_inside_strikes_the_far_side_and_the_normal_is_turned() {
    let crossings = solve([0.0, 0.0, -1.0], 0.5, [0.0, 0.0, -1.0], [0.0, 0.0, -1.0]);
    assert_eq!(f(crossings.near().t), -0.5);
    assert_eq!(f(crossings.far().t), 0.5);
    let rec = ball()
        .hit(&crossings, Interval::new(s(0.001), s(f64::INFINITY)))
        .expect("the ray leaves the sphere");
    assert_eq!(f(rec.t), 0.5);
    assert_eq!(rec.p, v([0.0, 0.0, -1.5]));
    assert!(!rec.front_face);
    assert_eq!(rec.normal, v([-0.0, -0.0, 1.0]));
}

#[test]
fn a_ray_that_misses_strikes_nothing() {
    let crossings = solve([0.0, 0.0, -1.0], 0.5, [0.0, 0.0, 0.0], [0.0, 1.0, 0.0]);
    assert!(f(crossings.discriminant()) < 0.0);
    assert_eq!(ball().hit(&crossings, Interval::universe()), None);
    let made_up = Crossings::new(s(-1.0), bare(1.0), bare(2.0));
    assert_eq!(ball().hit(&made_up, Interval::universe()), None);
}

#[test]
fn the_range_decides_which_solution_is_found() {
    let c = Crossings::new(s(0.25), bare(0.5), bare(1.5));
    assert_eq!(found(&c, 0.0, 2.0), Some(0.5));
    assert_eq!(found(&c, 0.5, 2.0), Some(1.5));
    assert_eq!(found(&c, 1.0, 2.0), Some(1.5));
    assert_eq!(found(&c, 0.0, 0.5), None);
    assert_eq!(found(&c, 0.6, 1.5), None);
    assert_eq!(found(&c, 1.5, 9.0), None);
    assert_eq!(ball().hit(&c, Interval::empty()), None);
    assert_eq!(found(&c, 0.0, 1.0), Some(0.5));
    assert_eq!(found(&c, f64::NEG_INFINITY, f64::INFINITY), Some(0.5));
}

#[test]
fn a_ray_without_direction_strikes_nothing() {
    let crossings = solve([0.0, 0.0, -1.0], 0.5, [0.0, 0.0, 0.0], [0.0, 0.0, 0.0]);
    assert_eq!(ball().hit(&crossings, Interval::universe()), None);
}

#[test]
fn a_tangent_ray_strikes_once() {
    let crossings = solve([0.0, 0.0, -1.0], 0.5, [0.0, 0.5, 0.0], [0.0, 0.0, -1.0]);
    assert_eq!(f(crossings.discriminant()), 0.0);
    let rec = ball().hit(&crossings, Interval::new(s(0.001), s(f64::INFINITY)));
    assert_eq!(rec.map(|rec| f(rec.t)), Some(1.0));
}
