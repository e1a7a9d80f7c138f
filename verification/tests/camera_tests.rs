use ray_tracing_in_one_weekend::camera::{
    Camera, CameraBuilder, Cursor, Geometry, Interaction, Radiance, RenderStep,
};
use ray_tracing_in_one_weekend::ray::Ray;
use ray_tracing_in_one_weekend::scalar::Scalar;
use ray_tracing_in_one_weekend::vec3::Vec3;

fn s(x: f64) -> Scalar {
    Scalar::from_bits(x.to_bits())
}

fn f(x: Scalar) -> f64 {
    f64::from_bits(x.to_bits())
}

fn v(x: f64, y: f64, z: f64) -> Vec3 {
    Vec3::new(s(x), s(y), s(z))
}

fn flat() -> Geometry {
    Geometry {
        center: v(0.0, 0.0, 0.0),
        pixel_00_loc: v(-1.0, 1.0, -1.0),
        pixel_delta_u: v(0.5, 0.0, 0.0),
        pixel_delta_v: v(0.0, -0.5, 0.0),
        defocus_disk_u: v(0.0, 0.0, 0.0),
        defocus_disk_v: v(0.0, 0.0, 0.0),
        samples_per_scale: s(1.0),
    }
}

fn camera(width: i32, rows: i32, samples: i32) -> Camera {
    CameraBuilder::default()
        .image_width(width)
        .samples_per_pixel(samples)
        .build(rows, flat())
}

fn run(camera: &Camera) -> Vec<RenderStep> {
    let mut steps = Vec::new();
    let mut cursor = camera.start();
    loop {
        let (step, next) = camera.step(cursor);
        if step == RenderStep::Done {
            assert_eq!(next, cursor);
            return steps;
        }
        steps.push(step);
        cursor = next;
        assert!(steps.len() < 100_000);
    }
}

#[test]
fn a_builder_starts_from_the_defaults() {
    let b = CameraBuilder::default();
    assert_eq!(f(b.aspect_ratio), 16.0 / 9.0);
    assert_eq!(b.image_width, 100);
    assert_eq!(b.samples_per_pixel, 100);
    assert_eq!(b.max_depth, 10);
    assert_eq!(f(b.vfov), 90.0);
    assert_eq!(b.look_from, v(0.0, 0.0, 0.0));
    assert_eq!(b.look_at, v(-0.0, -0.0, -1.0));
    assert_eq!(b.up, v(0.0, 1.0, 0.0));
    assert_eq!(f(b.defocus_angle), 0.0);
    assert_eq!(b.focus_dist, None);
    assert!(!b.gamma);
}

#[test]
fn each_setter_sets_its_value_and_no_other() {
    let b = CameraBuilder::default()
        .aspect_ratio(s(2.0))
        .image_width(1200)
        .samples_per_pixel(500)
        .max_depth(50)
        .vfov(s(20.0))
        .look_from(v(13.0, 2.0, 3.0))
        .look_at(v(0.0, 0.0, 0.0))
        .up(v(0.0, 0.0, 1.0))
        .defocus_angle(s(0.6))
        .focus_dist(s(10.0))
        .gamma(true);
    assert_eq!(f(b.aspect_ratio), 2.0);
    assert_eq!(b.image_width, 1200);
    assert_eq!(b.samples_per_pixel, 500);
    assert_eq!(b.max_depth, 50);
    assert_eq!(f(b.vfov), 20.0);
    assert_eq!(b.look_from, v(13.0, 2.0, 3.0));
    assert_eq!(b.look_at, v(0.0, 0.0, 0.0));
    assert_eq!(b.up, v(0.0, 0.0, 1.0));
    assert_eq!(f(b.defocus_angle), 0.6);
    assert_eq!(b.focus_dist, Some(s(10.0)));
    assert!(b.gamma);
    let one = CameraBuilder::default().max_depth(3);
    assert_eq!(one.max_depth, 3);
    assert_eq!(one.image_width, 100);
    assert_eq!(one.samples_per_pixel, 100);
    assert_eq!(f(one.vfov), 90.0);
}

#[test]
fn the_focus_distance_is_the_one_set_or_the_separation() {
    assert_eq!(f(CameraBuilder::default().focus_distance(s(3.5))), 3.5);
    assert_eq!(f(CameraBuilder::default().focus_dist(s(10.0)).focus_distance(s(3.5))), 10.0);
}

#[test]
fn build_derives_the_height_and_keeps_the_rest() {
    let builder = CameraBuilder::default().image_width(400).max_depth(7).gamma(true);
    let rows = (400.0 / f(builder.aspect_ratio)) as i32;
    let camera = builder.build(rows, flat());
    assert_eq!(camera.image_width, 400);
    assert_eq!(camera.image_height, 225);
    assert_eq!(camera.samples_per_pixel, 100);
    assert_eq!(camera.max_depth, 7);
    assert!(camera.gamma);
    assert_eq!(camera.geometry, flat());
}

#[test]
fn an_image_has_at_least_one_row() {
    assert_eq!(camera(1, 0, 1).image_height, 1);
    assert_eq!(camera(1, -7, 1).image_height, 1);
    assert_eq!(camera(1, 1, 1).image_height, 1);
    assert_eq!(camera(1, 2, 1).image_height, 2);
    let thin = CameraBuilder::default().image_width(10).aspect_ratio(s(100.0));
    let rows = (10.0 / 100.0) as i32;
    assert_eq!(thin.build(rows, flat()).image_height, 1);
}

#[test]
fn the_steps_run_through_the_image_row_by_row() {
    let steps = run(&camera(3, 2, 2));
    let mut expected = Vec::new();
    for y in 0..2 {
        for x in 0..3 {
            expected.push(RenderStep::Sample { x, y });
            expected.push(RenderStep::Sample { x, y });
            expected.push(RenderStep::Write { x, y });
        }
    }
    assert_eq!(steps, expected);
}

#[test]
fn every_pixel_is_written_once_after_all_its_samples() {
    let camera = camera(5, 4, 3);
    let steps = run(&camera);
    assert_eq!(steps.len(), 5 * 4 * (3 + 1));
    let written: Vec<(i32, i32)> = steps
        .iter()
        .filter_map(|step| match step {
            RenderStep::Write { x, y } => Some((*x, *y)),
            _ => None,
        })
        .collect();
    let raster: Vec<(i32, i32)> = (0..4).flat_map(|y| (0..5).map(move |x| (x, y))).collect();
    assert_eq!(written, raster);
}

#[test]
fn a_camera_without_samples_still_writes_every_pixel() {
    for samples in [0, -3] {
        let steps = run(&camera(2, 2, samples));
        assert_eq!(
            steps,
            vec![
                RenderStep::Write { x: 0, y: 0 },
                RenderStep::Write { x: 1, y: 0 },
                RenderStep::Write { x: 0, y: 1 },
                RenderStep::Write { x: 1, y: 1 },
            ]
        );
    }
}

#[test]
fn an_image_without_width_has_no_steps() {
    assert_eq!(run(&camera(0, 5, 3)), vec![]);
    assert_eq!(run(&camera(-4, 5, 3)), vec![]);
}

#[test]
fn a_cursor_off_the_image_has_nothing_to_do() {
    let camera = camera(3, 2, 2);
    for cursor in [
        Cursor { x: 3, y: 0, sample: 0 },
        Cursor { x: 0, y: 2, sample: 0 },
        Cursor { x: -1, y: 0, sample: 0 },
        Cursor { x: 0, y: -1, sample: 0 },
        Cursor { x: 0, y: 0, sample: 3 },
        Cursor { x: 0, y: 0, sample: -1 },
    ] {
        assert_eq!(camera.step(cursor), (RenderStep::Done, cursor));
    }
}

#[test]
fn a_ray_with_no_bounce_left_is_black_whatever_it_met() {
    let scattered = Interaction::Scattered {
        attenuation: v(0.8, 0.3, 0.3),
        scattered: Ray::new(v(0.0, 0.0, -0.5), v(0.0, 0.0, 1.0)),
    };
    for depth in [0, -1, -50, i32::MIN] {
        assert!(Camera::exhausted(depth));
        assert_eq!(Camera::ray_color(depth, Interaction::Miss), Radiance::Black);
        assert_eq!(Camera::ray_color(depth, Interaction::Absorbed), Radiance::Black);
        assert_eq!(Camera::ray_color(depth, scattered), Radiance::Black);
    }
}

#[test]
fn a_ray_with_bounces_left_goes_by_what_it_met() {
    let attenuation = v(0.8, 0.3, 0.3);
    let onward = Ray::new(v(0.0, 0.0, -0.5), v(0.0, 0.0, 1.0));
    for depth in [1, 2, 50, i32::MAX] {
        assert!(!Camera::exhausted(depth));
        assert_eq!(Camera::ray_color(depth, Interaction::Miss), Radiance::Background);
        assert_eq!(Camera::ray_color(depth, Interaction::Absorbed), Radiance::Black);
        assert_eq!(
            Camera::ray_color(depth, Interaction::Scattered { attenuation, scattered: onward }),
            Radiance::Attenuated { attenuation, scattered: onward, depth: depth - 1 }
        );
    }
}

#[test]
fn a_path_ends_when_its_bounces_are_spent() {
    let attenuation = v(0.5, 0.5, 0.5);
    let onward = Ray::new(v(0.0, 0.0, 0.0), v(0.0, 1.0, 0.0));
    let mut depth = 10;
    let mut bounces = 0;
    loop {
        match Camera::ray_color(depth, Interaction::Scattered { attenuation, scattered: onward }) {
            Radiance::Attenuated { depth: left, .. } => {
                depth = left;
                bounces += 1;
            }
            Radiance::Black => break,
            Radiance::Background => panic!("nothing was missed"),
        }
    }
    assert_eq!(bounces, 10);
}

#[test]
fn rays_start_at_the_centre_unless_the_lens_is_open() {
    let shut = CameraBuilder::default().build(56, flat());
    assert_eq!(shut.ray_origin(v(0.1, 0.2, 0.0)), v(0.0, 0.0, 0.0));
    let open = CameraBuilder::default().defocus_angle(s(0.6)).build(56, flat());
    assert_eq!(open.ray_origin(v(0.1, 0.2, 0.0)), v(0.1, 0.2, 0.0));
    let negative = CameraBuilder::default().defocus_angle(s(-1.0)).build(56, flat());
    assert_eq!(negative.ray_origin(v(0.1, 0.2, 0.0)), v(0.0, 0.0, 0.0));
}

#[test]
fn the_header_names_the_format_the_size_and_the_depth() {
    assert_eq!(String::from_utf8(camera(3, 2, 1).header()).unwrap(), "P3\n3 2\n255\n");
    assert_eq!(String::from_utf8(camera(1200, 675, 1).header()).unwrap(), "P3\n1200 675\n255\n");
    assert_eq!(String::from_utf8(camera(-4, 0, 1).header()).unwrap(), "P3\n-4 1\n255\n");
}

#[test]
fn render_writes_the_header_and_a_line_for_each_pixel() {
    let pixels = vec![v(1.0, 0.0, 0.0), v(0.0, 0.5, 0.0), v(0.0, 0.0, 0.25), v(0.5, 0.7, 1.0)];
    let text = camera(2, 2, 1).render(&pixels).expect("four pixels make the image");
    assert_eq!(
        String::from_utf8(text).unwrap(),
        "P3\n2 2\n255\n255 0 0\n0 128 0\n0 0 64\n128 179 255\n"
    );
}

#[test]
fn render_refuses_the_wrong_number_of_pixels() {
    let pixels = vec![v(1.0, 0.0, 0.0), v(0.0, 0.5, 0.0), v(0.0, 0.0, 0.25)];
    assert_eq!(camera(2, 2, 1).render(&pixels), None);
    assert_eq!(camera(2, 2, 1).render(&Vec::new()), None);
    assert_eq!(
        camera(3, 1, 1).render(&pixels).map(|t| String::from_utf8(t).unwrap()),
        Some("P3\n3 1\n255\n255 0 0\n0 128 0\n0 0 64\n".to_string())
    );
    assert_eq!(
        camera(0, 4, 1).render(&Vec::new()).map(|t| String::from_utf8(t).unwrap()),
        Some("P3\n0 4\n255\n".to_string())
    );
    assert_eq!(camera(-2, 4, 1).render(&pixels), None);
}

#[test]
fn a_camera_writes_roots_only_where_it_corrects_for_gamma() {
    let linear = v(0.25, 0.0, -0.5);
    let roots = v(0.5, 0.0, f64::NAN);
    let plain = CameraBuilder::default().build(56, flat());
    assert_eq!(plain.written(linear, roots), linear);
    let corrected = CameraBuilder::default().gamma(true).build(56, flat());
    assert_eq!(corrected.written(linear, roots), v(0.5, 0.0, 0.0));
    let mut line = Vec::new();
    ray_tracing_in_one_weekend::color::write_color(&mut line, corrected.written(linear, roots));
    assert_eq!(String::from_utf8(line).unwrap(), "128 0 0\n");
}

#[test]
fn a_ray_strikes_from_a_thousandth_on() {
    let range = Camera::ray_interval();
    assert_eq!(f(range.min), 0.001);
    assert_eq!(f(range.max), f64::INFINITY);
    assert!(!range.surrounds(s(0.001)));
    assert!(!range.surrounds(s(0.0)));
    assert!(range.surrounds(s(0.0010000000000000002)));
    assert!(range.surrounds(s(1e300)));
}

#[test]
fn the_sky_is_blended_from_white_and_blue() {
    let (below, above) = Camera::sky();
    assert_eq!(below, v(1.0, 1.0, 1.0));
    assert_eq!(above, v(0.5, 0.7, 1.0));
}
