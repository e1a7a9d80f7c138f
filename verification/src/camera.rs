//! The camera: what it is set up with, the order in which it takes its
//! samples, what becomes of a ray, and the image it writes.
use crate::color::{decimal, pixel_line, push_decimal, write_color, Color, NEWLINE, SPACE};
use crate::interval::Interval;
use crate::ray::{Point3, Ray};
use crate::scalar::{Scalar, INFINITY_BITS, ONE_BITS};
use crate::utils::{linear_to_gamma, spec_linear_to_gamma};
use crate::vec3::Vec3;
use vstd::prelude::*;

verus! {

/// The pattern of sixteen ninths, the aspect ratio of a camera that was
/// given none.
pub const WIDE_BITS: u64 = 0x3FFC_71C7_1C71_C71C;

/// The pattern of 90, the vertical field of view in degrees of a camera
/// that was given none.
pub const RIGHT_ANGLE_BITS: u64 = 0x4056_8000_0000_0000;

/// The pattern of 0.001, the parameter from which on a ray can strike a
/// surface.
pub const NEAREST_BITS: u64 = 0x3F50_624D_D2F1_A9FC;

/// The pattern of 0.5, the red of the sky overhead.
pub const HALF_BITS: u64 = 0x3FE0_0000_0000_0000;

/// The pattern of 0.7, the green of the sky overhead.
pub const SEVEN_TENTHS_BITS: u64 = 0x3FE6_6666_6666_6666;

/// What a camera is set up with. Each method sets one value and hands the
/// builder on; [`CameraBuilder::build`] makes the camera.
#[derive(Clone, Copy, Debug)]
pub struct CameraBuilder {
    /// Width of the image over its height.
    pub aspect_ratio: Scalar,
    /// Width of the image in pixels.
    pub image_width: i32,
    /// Rays traced through each pixel.
    pub samples_per_pixel: i32,
    /// Bounces after which a ray is given up.
    pub max_depth: i32,
    /// Vertical field of view, in degrees.
    pub vfov: Scalar,
    /// Where the camera stands.
    pub look_from: Point3,
    /// What the camera looks at.
    pub look_at: Point3,
    /// The direction that is up in the image.
    pub up: Vec3,
    /// The angle of the cone of rays through one point in focus, in
    /// degrees. With an angle of zero or less everything is in focus.
    pub defocus_angle: Scalar,
    /// The distance to the plane in focus. Without one it is the distance
    /// from `look_from` to `look_at`.
    pub focus_dist: Option<Scalar>,
    /// Whether the channels are written as their square roots.
    pub gamma: bool,
}

/// What the caller derives from a builder by arithmetic, for the camera to
/// keep.
#[derive(Clone, Copy, Debug, PartialEq, Eq, Structural)]
pub struct Geometry {
    /// Where the rays start.
    pub center: Point3,
    /// The middle of the pixel in the upper left corner.
    pub pixel_00_loc: Point3,
    /// The step from a pixel to the next one in its row.
    pub pixel_delta_u: Vec3,
    /// The step from a pixel to the one below it.
    pub pixel_delta_v: Vec3,
    /// The horizontal radius of the lens.
    pub defocus_disk_u: Vec3,
    /// The vertical radius of the lens.
    pub defocus_disk_v: Vec3,
    /// One over the number of samples of a pixel.
    pub samples_per_scale: Scalar,
}

/// A camera. Nothing changes it once it is built.
#[derive(Clone, Copy, Debug)]
pub struct Camera {
    pub image_width: i32,
    pub image_height: i32,
    pub samples_per_pixel: i32,
    pub max_depth: i32,
    pub defocus_angle: Scalar,
    pub gamma: bool,
    pub geometry: Geometry,
}

/// What a ray has met.
#[derive(Clone, Copy, Debug, PartialEq, Eq, Structural)]
pub enum Interaction {
    /// No surface: the ray leaves the scene.
    Miss,
    /// A surface that has absorbed it.
    Absorbed,
    /// A surface that has scattered it.
    Scattered { attenuation: Color, scattered: Ray },
}

/// The light that comes back along a ray.
#[derive(Clone, Copy, Debug, PartialEq, Eq, Structural)]
pub enum Radiance {
    /// None.
    Black,
    /// That of the sky in the direction of the ray.
    Background,
    /// That which comes back along `scattered`, traced with `depth`
    /// bounces left, dimmed channel by channel by `attenuation`.
    Attenuated { attenuation: Color, scattered: Ray, depth: i32 },
}

/// Where the camera is in its work: `sample` rays have been traced through
/// the pixel in column `x` of row `y`, and every pixel before it in its
/// row or in a row above is written.
#[derive(Clone, Copy, Debug, PartialEq, Eq, Structural)]
pub struct Cursor {
    pub x: i32,
    pub y: i32,
    pub sample: i32,
}

/// What the camera does next.
#[derive(Clone, Copy, Debug, PartialEq, Eq, Structural)]
pub enum RenderStep {
    /// Trace one more ray through the pixel.
    Sample { x: i32, y: i32 },
    /// Write the pixel: the mean of the rays traced through it.
    Write { x: i32, y: i32 },
    /// Nothing: the image is complete.
    Done,
}

impl CameraBuilder {
    /// The builder of a camera that was given nothing.
    pub open spec fn spec_default() -> CameraBuilder {
        CameraBuilder {
            aspect_ratio: Scalar { bits: WIDE_BITS },
            image_width: 100,
            samples_per_pixel: 100,
            max_depth: 10,
            vfov: Scalar { bits: RIGHT_ANGLE_BITS },
            look_from: Vec3::of_bits(0, 0, 0),
            look_at: Vec3::of_bits(0, 0, ONE_BITS).spec_neg(),
            up: Vec3::of_bits(0, ONE_BITS, 0),
            defocus_angle: Scalar { bits: 0 },
            focus_dist: None,
            gamma: false,
        }
    }

    /// Sets the width of the image over its height.
    pub fn aspect_ratio(self, aspect_ratio: Scalar) -> (r: CameraBuilder)
        ensures
            r == (CameraBuilder { aspect_ratio, ..self }),
    {
        CameraBuilder { aspect_ratio, ..self }
    }

    /// Sets the width of the image in pixels.
    pub fn image_width(self, image_width: i32) -> (r: CameraBuilder)
        ensures
            r == (CameraBuilder { image_width, ..self }),
    {
        CameraBuilder { image_width, ..self }
    }

    /// Sets the number of rays traced through each pixel.
    pub fn samples_per_pixel(self, samples_per_pixel: i32) -> (r: CameraBuilder)
        ensures
            r == (CameraBuilder { samples_per_pixel, ..self }),
    {
        CameraBuilder { samples_per_pixel, ..self }
    }

    /// Sets the number of bounces after which a ray is given up.
    pub fn max_depth(self, max_depth: i32) -> (r: CameraBuilder)
        ensures
            r == (CameraBuilder { max_depth, ..self }),
    {
        CameraBuilder { max_depth, ..self }
    }

    /// Sets the vertical field of view, in degrees.
    pub fn vfov(self, vfov: Scalar) -> (r: CameraBuilder)
        ensures
            r == (CameraBuilder { vfov, ..self }),
    {
        CameraBuilder { vfov, ..self }
    }

    /// Sets where the camera stands.
    pub fn look_from(self, look_from: Point3) -> (r: CameraBuilder)
        ensures
            r == (CameraBuilder { look_from, ..self }),
    {
        CameraBuilder { look_from, ..self }
    }

    /// Sets what the camera looks at.
    pub fn look_at(self, look_at: Point3) -> (r: CameraBuilder)
        ensures
            r == (CameraBuilder { look_at, ..self }),
    {
        CameraBuilder { look_at, ..self }
    }

    /// Sets the direction that is up in the image.
    pub fn up(self, up: Vec3) -> (r: CameraBuilder)
        ensures
            r == (CameraBuilder { up, ..self }),
    {
        CameraBuilder { up, ..self }
    }

    /// Sets the angle of the cone of rays through one point in focus.
    pub fn defocus_angle(self, defocus_angle: Scalar) -> (r: CameraBuilder)
        ensures
            r == (CameraBuilder { defocus_angle, ..self }),
    {
        CameraBuilder { defocus_angle, ..self }
    }

    /// Sets the distance to the plane in focus.
    pub fn focus_dist(self, focus_dist: Scalar) -> (r: CameraBuilder)
        ensures
            r == (CameraBuilder { focus_dist: Some(focus_dist), ..self }),
    {
        CameraBuilder { focus_dist: Some(focus_dist), ..self }
    }

    /// Sets whether the channels are written as their square roots.
    pub fn gamma(self, gamma: bool) -> (r: CameraBuilder)
        ensures
            r == (CameraBuilder { gamma, ..self }),
    {
        CameraBuilder { gamma, ..self }
    }

    /// The distance to the plane in focus: the one that was set, or else
    /// `separation`, the distance from `look_from` to `look_at`.
    pub fn focus_distance(&self, separation: Scalar) -> (r: Scalar)
        ensures
            r == match self.focus_dist {
                Some(set) => set,
                None => separation,
            },
    {
        match self.focus_dist {
            Some(set) => set,
            None => separation,
        }
    }

    /// The height of the image in pixels. `rows` is the width of the image
    /// divided by the aspect ratio, cut to a whole number: the image has
    /// that many rows, and one row where that is less than one.
    pub open spec fn spec_image_height(rows: i32) -> i32 {
        if rows < 1 {
            1
        } else {
            rows
        }
    }

    /// The height of the image in pixels, given the width of the image
    /// divided by the aspect ratio and cut to a whole number.
    #[verifier::when_used_as_spec(spec_image_height)]
    pub fn image_height(rows: i32) -> (r: i32)
        ensures
            r == CameraBuilder::spec_image_height(rows),
    {
        if rows < 1 {
            1
        } else {
            rows
        }
    }

    /// The camera, given the width of the image divided by the aspect
    /// ratio and cut to a whole number, and the geometry that the caller
    /// has derived.
    pub fn build(self, rows: i32, geometry: Geometry) -> (r: Camera)
        ensures
            r.image_width == self.image_width,
            r.image_height == CameraBuilder::spec_image_height(rows),
            r.samples_per_pixel == self.samples_per_pixel,
            r.max_depth == self.max_depth,
            r.defocus_angle == self.defocus_angle,
            r.gamma == self.gamma,
            r.geometry == geometry,
    {
        Camera {
            image_width: self.image_width,
            image_height: CameraBuilder::image_height(rows),
            samples_per_pixel: self.samples_per_pixel,
            max_depth: self.max_depth,
            defocus_angle: self.defocus_angle,
            gamma: self.gamma,
            geometry,
        }
    }
}

impl Default for CameraBuilder {
    /// An image 100 pixels wide in the ratio 16 to 9, 100 rays through each
    /// pixel and 10 bounces for each ray; a camera at the origin that looks
    /// down the negative third axis with the second axis up and a field of
    /// view of 90 degrees; everything in focus, and the channels written as
    /// they are.
    fn default() -> (r: CameraBuilder)
        ensures
            r == CameraBuilder::spec_default(),
    {
        CameraBuilder {
            aspect_ratio: Scalar::from_bits(WIDE_BITS),
            image_width: 100,
            samples_per_pixel: 100,
            max_depth: 10,
            vfov: Scalar::from_bits(RIGHT_ANGLE_BITS),
            look_from: Vec3::zero(),
            look_at: Vec3::unit_z().neg(),
            up: Vec3::unit_y(),
            defocus_angle: Scalar::zero(),
            focus_dist: None,
            gamma: false,
        }
    }
}

/// The first lines of an image of the given size: the mark of the format,
/// the width and the height, and the highest level of a channel.
pub open spec fn header_text(width: int, height: int) -> Seq<u8> {
    seq![80u8, 51u8, NEWLINE] + decimal(width) + seq![SPACE] + decimal(height) + seq![
        NEWLINE,
        50u8,
        53u8,
        53u8,
        NEWLINE,
    ]
}

/// The lines of the first `n` of the given pixels, one behind the other.
pub open spec fn pixel_lines(pixels: Seq<Color>, n: int) -> Seq<u8>
    decreases n,
{
    if n <= 0 {
        Seq::empty()
    } else {
        pixel_lines(pixels, n - 1) + pixel_line(pixels[n - 1])
    }
}

impl Camera {
    /// The number of rays traced through a pixel: none where the number
    /// that was set is negative.
    pub open spec fn samples(self) -> int {
        if self.samples_per_pixel > 0 {
            self.samples_per_pixel as int
        } else {
            0
        }
    }

    /// The number of pixels of the image.
    pub open spec fn pixel_count(self) -> int {
        if self.image_width > 0 && self.image_height > 0 {
            self.image_width * self.image_height
        } else {
            0
        }
    }

    /// The cursor is at a pixel of the image.
    pub open spec fn on_image(self, cursor: Cursor) -> bool {
        &&& 0 <= cursor.x < self.image_width
        &&& 0 <= cursor.y < self.image_height
        &&& 0 <= cursor.sample <= self.samples()
    }

    /// The number of steps that lie behind a cursor. The pixels are
    /// counted row by row from the top, and in a row from the left; each
    /// takes one step for every ray and one for being written.
    pub open spec fn position(self, cursor: Cursor) -> int {
        (cursor.y * self.image_width + cursor.x) * (self.samples() + 1) + cursor.sample
    }

    /// The step at a cursor and the cursor after it.
    pub open spec fn spec_step(self, cursor: Cursor) -> (RenderStep, Cursor) {
        if !self.on_image(cursor) {
            (RenderStep::Done, cursor)
        } else if cursor.sample < self.samples() {
            (
                RenderStep::Sample { x: cursor.x, y: cursor.y },
                Cursor { x: cursor.x, y: cursor.y, sample: (cursor.sample + 1) as i32 },
            )
        } else if cursor.x + 1 < self.image_width {
            (
                RenderStep::Write { x: cursor.x, y: cursor.y },
                Cursor { x: (cursor.x + 1) as i32, y: cursor.y, sample: 0 },
            )
        } else {
            (
                RenderStep::Write { x: cursor.x, y: cursor.y },
                Cursor { x: 0, y: (cursor.y + 1) as i32, sample: 0 },
            )
        }
    }

    /// The cursor before the first step.
    pub fn start(&self) -> (r: Cursor)
        ensures
            r == (Cursor { x: 0, y: 0, sample: 0 }),
    {
        Cursor { x: 0, y: 0, sample: 0 }
    }

    /// What to do at a cursor, and the cursor to go on with. From
    /// [`Camera::start`] the steps run through the rows from the top and
    /// through each row from the left; at each pixel they ask for its rays
    /// one by one and then for the pixel to be written. A cursor that is
    /// not at a pixel of the image has nothing left to do.
    pub fn step(&self, cursor: Cursor) -> (r: (RenderStep, Cursor))
        ensures
            r == self.spec_step(cursor),
    {
        let samples: i32 = if self.samples_per_pixel > 0 {
            self.samples_per_pixel
        } else {
            0
        };
        if cursor.x < 0 || cursor.x >= self.image_width || cursor.y < 0 || cursor.y
            >= self.image_height || cursor.sample < 0 || cursor.sample > samples {
            return (RenderStep::Done, cursor);
        }
        if cursor.sample < samples {
            (
                RenderStep::Sample { x: cursor.x, y: cursor.y },
                Cursor { x: cursor.x, y: cursor.y, sample: cursor.sample + 1 },
            )
        } else if cursor.x + 1 < self.image_width {
            (
                RenderStep::Write { x: cursor.x, y: cursor.y },
                Cursor { x: cursor.x + 1, y: cursor.y, sample: 0 },
            )
        } else {
            (
                RenderStep::Write { x: cursor.x, y: cursor.y },
                Cursor { x: 0, y: cursor.y + 1, sample: 0 },
            )
        }
    }

    /// Each step leads one position on, and the steps end where every
    /// pixel of the image lies behind: so from the start they pass every
    /// position once, in rising order, which is the order of the pixels in
    /// the written image.
    pub proof fn steps_in_raster_order(self, cursor: Cursor)
        requires
            self.on_image(cursor),
        ensures
            self.position(Cursor { x: 0, y: 0, sample: 0 }) == 0,
            0 <= self.position(cursor) < self.pixel_count() * (self.samples() + 1),
            self.position(self.spec_step(cursor).1) == self.position(cursor) + 1,
            self.on_image(self.spec_step(cursor).1) || (self.spec_step(cursor).1 == Cursor {
                x: 0,
                y: self.image_height,
                sample: 0,
            } && self.position(self.spec_step(cursor).1) == self.pixel_count() * (self.samples()
                + 1)),
    {
        let w = self.image_width as int;
        let h = self.image_height as int;
        let p = self.samples() + 1;
        let x = cursor.x as int;
        let y = cursor.y as int;
        let s = cursor.sample as int;
        let pixel = y * w + x;
        assert(0 <= pixel < w * h) by (nonlinear_arith)
            requires
                0 <= x < w,
                0 <= y < h,
                pixel == y * w + x,
        ;
        assert(0 <= pixel * p + s < (w * h) * p) by (nonlinear_arith)
            requires
                0 <= pixel < w * h,
                0 <= s < p,
        ;
        assert((pixel + 1) * p == pixel * p + p) by (nonlinear_arith);
        assert((y + 1) * w + 0 == y * w + w) by (nonlinear_arith);
        assert(h * w == w * h) by (nonlinear_arith);
        assert((0 * w + 0) * p + 0 == 0) by (nonlinear_arith);
    }

    /// The light that comes back along a ray with `depth` bounces left that
    /// has met `met`: none where no bounce is left, whatever the ray has
    /// met; else that of the sky for a ray that has left the scene, none
    /// for one that was absorbed, and for one that was scattered what the
    /// scattered ray brings back with one bounce fewer, dimmed by the
    /// surface.
    pub open spec fn spec_ray_color(depth: i32, met: Interaction) -> Radiance {
        if depth <= 0 {
            Radiance::Black
        } else {
            match met {
                Interaction::Miss => Radiance::Background,
                Interaction::Absorbed => Radiance::Black,
                Interaction::Scattered { attenuation, scattered } => Radiance::Attenuated {
                    attenuation,
                    scattered,
                    depth: (depth - 1) as i32,
                },
            }
        }
    }

    /// The surfaces that dim the light of a path, the first one first. The
    /// path starts with `depth` bounces left, and `events` tells what its
    /// rays meet, one after the other: each scattering adds a surface and
    /// leads on to the next ray, until a ray leaves the scene, is absorbed
    /// or has no bounce left.
    pub open spec fn dimmed_by(depth: i32, events: Seq<Interaction>) -> Seq<Color>
        decreases events.len(),
    {
        if events.len() == 0 {
            Seq::empty()
        } else {
            match Camera::spec_ray_color(depth, events[0]) {
                Radiance::Attenuated { attenuation, scattered, depth } => seq![attenuation]
                    + Camera::dimmed_by(depth, events.skip(1)),
                _ => Seq::empty(),
            }
        }
    }

    /// The range of the parameter in which a ray can strike a surface:
    /// from 0.001 on, without end. A ray that leaves a surface starts on
    /// it, and rounding may put its origin just beneath: the gap keeps the
    /// ray from striking the surface that it leaves.
    pub fn ray_interval() -> (r: Interval)
        ensures
            r.min == (Scalar { bits: NEAREST_BITS }),
            r.max == (Scalar { bits: INFINITY_BITS }),
    {
        Interval::new(Scalar::from_bits(NEAREST_BITS), Scalar::infinity())
    }

    /// The colours that the sky is blended from: white, which it has
    /// where a ray points straight down, and the blue that it has where a
    /// ray points straight up.
    pub fn sky() -> (r: (Color, Color))
        ensures
            r.0 == Vec3::of_bits(ONE_BITS, ONE_BITS, ONE_BITS),
            r.1 == Vec3::of_bits(HALF_BITS, SEVEN_TENTHS_BITS, ONE_BITS),
    {
        (
            Vec3::one(),
            Vec3::new(
                Scalar::from_bits(HALF_BITS),
                Scalar::from_bits(SEVEN_TENTHS_BITS),
                Scalar::one(),
            ),
        )
    }

    /// Whether a ray with `depth` bounces left is given up before it is
    /// traced at all.
    pub fn exhausted(depth: i32) -> (r: bool)
        ensures
            r == (depth <= 0),
    {
        depth <= 0
    }

    /// The light that comes back along a ray with `depth` bounces left,
    /// given what the ray has met.
    #[verifier::when_used_as_spec(spec_ray_color)]
    pub fn ray_color(depth: i32, met: Interaction) -> (r: Radiance)
        ensures
            r == Camera::spec_ray_color(depth, met),
            depth <= 0 ==> r == Radiance::Black,
    {
        if depth <= 0 {
            return Radiance::Black;
        }
        match met {
            Interaction::Miss => Radiance::Background,
            Interaction::Absorbed => Radiance::Black,
            Interaction::Scattered { attenuation, scattered } => Radiance::Attenuated {
                attenuation,
                scattered,
                depth: depth - 1,
            },
        }
    }

    /// A path is dimmed by no more surfaces than it has bounces: whatever
    /// its rays meet, the tracing of a path ends.
    pub proof fn bounces_are_bounded(depth: i32, events: Seq<Interaction>)
        ensures
            Camera::dimmed_by(depth, events).len() <= if depth > 0 {
                depth as int
            } else {
                0
            },
        decreases events.len(),
    {
        if events.len() > 0 {
            if let Radiance::Attenuated { attenuation, scattered, depth: left } =
                Camera::spec_ray_color(depth, events[0]) {
                Camera::bounces_are_bounded(left, events.skip(1));
            }
        }
    }

    /// The colour that is written for a pixel. `linear` is the mean of the
    /// light that has come through the pixel and `roots` holds the square
    /// roots of its channels. A camera that corrects for gamma writes the
    /// root of each channel that is zero or more, and zero for any other;
    /// a camera that does not writes `linear`.
    pub fn written(&self, linear: Color, roots: Color) -> (r: Color)
        ensures
            r == if self.gamma {
                Vec3 {
                    x: spec_linear_to_gamma(linear.x, roots.x),
                    y: spec_linear_to_gamma(linear.y, roots.y),
                    z: spec_linear_to_gamma(linear.z, roots.z),
                }
            } else {
                linear
            },
    {
        if self.gamma {
            Vec3::new(
                linear_to_gamma(linear.x, roots.x),
                linear_to_gamma(linear.y, roots.y),
                linear_to_gamma(linear.z, roots.z),
            )
        } else {
            linear
        }
    }

    /// Where a ray through the lens starts: at the middle of the lens
    /// where everything is in focus, and else at `on_lens`, the caller's
    /// sample of the lens.
    pub fn ray_origin(&self, on_lens: Point3) -> (r: Point3)
        ensures
            r == if self.defocus_angle.spec_le(Scalar { bits: 0 }) {
                self.geometry.center
            } else {
                on_lens
            },
    {
        if self.defocus_angle.le(Scalar::zero()) {
            self.geometry.center
        } else {
            on_lens
        }
    }

    /// The first lines of the image.
    pub fn header(&self) -> (r: Vec<u8>)
        ensures
            r@ == header_text(self.image_width as int, self.image_height as int),
    {
        let mut out: Vec<u8> = Vec::new();
        out.push(80u8);
        out.push(51u8);
        out.push(NEWLINE);
        push_decimal(&mut out, self.image_width);
        out.push(SPACE);
        push_decimal(&mut out, self.image_height);
        out.push(NEWLINE);
        out.push(50u8);
        out.push(53u8);
        out.push(53u8);
        out.push(NEWLINE);
        proof {
            assert(out@ =~= header_text(self.image_width as int, self.image_height as int));
        }
        out
    }

    /// The image as text: its first lines, and then one line for each
    /// pixel, row by row from the top and in each row from the left.
    /// `pixels` holds the colours in that order. There is no image where
    /// their number is not that of the pixels of the image.
    pub fn render(&self, pixels: &Vec<Color>) -> (r: Option<Vec<u8>>)
        ensures
            r is Some <==> pixels@.len() == self.pixel_count(),
            r matches Some(text) ==> text@ == header_text(
                self.image_width as int,
                self.image_height as int,
            ) + pixel_lines(pixels@, pixels@.len() as int),
    {
        let count: u64 = if self.image_width > 0 && self.image_height > 0 {
            assert(self.image_width * self.image_height <= 0x4000_0000_0000_0000)
                by (nonlinear_arith)
                requires
                    0 < self.image_width <= 0x7FFF_FFFF,
                    0 < self.image_height <= 0x7FFF_FFFF,
            ;
            (self.image_width as u64) * (self.image_height as u64)
        } else {
            0
        };
        if pixels.len() as u64 != count {
            return None;
        }
        let mut out = self.header();
        let ghost head = out@;
        let mut i: usize = 0;
        while i < pixels.len()
            invariant
                i <= pixels@.len(),
                out@ == head + pixel_lines(pixels@, i as int),
            decreases pixels@.len() - i,
        {
            write_color(&mut out, pixels[i]);
            proof {
                assert(out@ =~= head + pixel_lines(pixels@, i + 1));
            }
            i += 1;
        }
        Some(out)
    }
}

} // verus!
