use ray_tracing_in_one_weekend::material::{Dielectric, Lambertian, Material, Metal};
use ray_tracing_in_one_weekend::scalar::Scalar;
use ray_tracing_in_one_weekend::scene::{small_sphere, Finish};
use ray_tracing_in_one_weekend::vec3::Vec3;

fn s(x: f64) -> Scalar {
    Scalar::from_bits(x.to_bits())
}

fn f(x: Scalar) -> f64 {
    f64::from_bits(x.to_bits())
}

fn v(x: f64, y: f64, z: f64) -> Vec3 {
    Vec3::new(s(x), s(y), s(z))
}

#[test]
fn finishes_are_numbered() {
    assert_eq!(Finish::from_index(0), Some(Finish::Diffuse));
    assert_eq!(Finish::from_index(1), Some(Finish::Metal));
    assert_eq!(Finish::from_index(2), Some(Finish::Glass));
    assert_eq!(Finish::from_index(3), None);
    assert_eq!(Finish::from_index(usize::MAX), None);
}

#[test]
fn random_finishes_come_by_their_weights() {
    let mut counts = [0usize; 3];
    for _ in 0..21_000 {
        match Finish::random() {
            Finish::Diffuse => counts[0] += 1,
            Finish::Metal => counts[1] += 1,
            Finish::Glass => counts[2] += 1,
        }
    }
    assert!(counts[0] > 15_000 && counts[0] < 19_000, "{:?}", counts);
    assert!(counts[1] > 2_000 && counts[1] < 4_000, "{:?}", counts);
    assert!(counts[2] > 500 && counts[2] < 1_500, "{:?}", counts);
}

#[test]
fn a_finish_makes_its_material() {
    let albedo = v(0.2, 0.4, 0.6);
    assert_eq!(
        Finish::Diffuse.material(albedo, s(0.3)),
        Material::Lambertian(Lambertian::new(albedo))
    );
    assert_eq!(
        Finish::Metal.material(albedo, s(0.3)),
        Material::Metal(Metal::new(albedo, s(0.3)))
    );
    assert_eq!(
        Finish::Metal.material(albedo, s(1.3)),
        Material::Metal(Metal::new(albedo, s(1.0)))
    );
    assert_eq!(
        Finish::Glass.material(albedo, s(0.3)),
        Material::Dielectric(Dielectric::new(s(1.5)))
    );
}

#[test]
fn a_small_sphere_keeps_clear_of_the_large_one() {
    let mat = Finish::Glass.material(Vec3::zero(), s(0.0));
    let center = v(3.0, 0.2, 1.0);
    let placed = small_sphere(center, s(1.2), mat).expect("there is room");
    assert_eq!(placed.center, center);
    assert_eq!(f(placed.radius), 0.2);
    assert_eq!(placed.mat, mat);
    assert!(small_sphere(center, s(0.9), mat).is_none());
    assert!(small_sphere(center, s(0.5), mat).is_none());
    assert!(small_sphere(center, s(0.9000000000000001), mat).is_some());
    assert!(small_sphere(center, s(f64::NAN), mat).is_none());
}
