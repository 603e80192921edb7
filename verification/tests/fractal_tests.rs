use fractal_explorer::fractal::{julia_point, julia_set, DEFAULT_ITERATION_LIMIT};
use fractal_explorer::mode::Mode;

type Point = (f64, f64);

fn mag2(z: &Point) -> f64 {
    z.0 * z.0 + z.1 * z.1
}

fn square_plus(z: Point, c: Point) -> Point {
    (z.0 * z.0 - z.1 * z.1 + c.0, z.0 * z.1 + z.1 * z.0 + c.1)
}

fn escape_count(z: Point, c: Point, iteration_limit: Option<u32>, radius_squared: f64) -> u32 {
    julia_point(z, iteration_limit, |p: &Point| mag2(p) < radius_squared, |p: Point| {
        square_plus(p, c)
    })
}

fn intensity(z: Point, c: Point, iteration_limit: Option<u32>) -> f64 {
    let limit = iteration_limit.unwrap_or(DEFAULT_ITERATION_LIMIT);
    escape_count(z, c, iteration_limit, 100.0) as f64 / limit as f64
}

#[test]
fn test_julia_point() {
    let z_initial = (0.0, 0.0);
    let offset = (0.0, 0.0);

    assert_eq!(intensity(z_initial, offset, None), 1.0);
}

#[test]
fn test_julia_set_image() {
    let size_pixel: u32 = 512;
    let range_half = 1.55;

    fn julia_function(z: Point) -> f64 {
        intensity(z, (-0.75, 0.0), Some(25))
    }

    fn color_function(intensity: f64) -> [u8; 3] {
        if intensity >= 1.0 {
            return [0, 0, 0];
        }
        let color_start: [u8; 3] = [255, 0, 0];
        let color_end: [u8; 3] = [255, 255, 0];
        [
            (color_end[0] as f64 * intensity + color_start[0] as f64 * (1.0 - intensity)) as u8,
            (color_end[1] as f64 * intensity + color_start[1] as f64 * (1.0 - intensity)) as u8,
            (color_end[2] as f64 * intensity + color_start[2] as f64 * (1.0 - intensity)) as u8,
        ]
    }

    let range = ((-range_half, range_half), (-range_half, range_half));
    let center = (0.0, 0.0);
    let pixel_size = (
        (range.0 .1 - range.0 .0) / size_pixel as f64,
        (range.1 .1 - range.1 .0) / size_pixel as f64,
    );
    let shade = |x: u32, y: u32| {
        let z = (
            range.0 .0 + x as f64 * pixel_size.0 - center.0,
            range.1 .0 + y as f64 * pixel_size.1 - center.1,
        );
        color_function(julia_function(z))
    };

    let image = julia_set((size_pixel, size_pixel), shade);
    assert_eq!(image.width(), 512);
    assert_eq!(image.height(), 512);
    assert_eq!(image.get_pixel(256, 256), Some([0, 0, 0]));
    assert_eq!(image.get_pixel(0, 0), Some(shade(0, 0)));
    assert_eq!(image.get_pixel(511, 17), Some(shade(511, 17)));
    let raw = image.into_raw();
    assert_eq!(raw.len(), 512 * 512 * 3);
    assert!(image::RgbImage::from_raw(size_pixel, size_pixel, raw).is_some());
}

#[test]
fn origin_never_escapes_with_parameter_zero() {
    assert_eq!(escape_count((0.0, 0.0), (0.0, 0.0), Some(100), 100.0), 100);
    assert_eq!(escape_count((0.0, 0.0), (0.0, 0.0), None, 100.0), 255);
    assert_eq!(escape_count((0.0, 0.0), (0.0, 0.0), None, 10.0), 255);
    assert_eq!(intensity((0.0, 0.0), (0.0, 0.0), Some(255)), 1.0);
}

#[test]
fn boundary_parameter_stays_within_the_limit() {
    let count = escape_count((0.0, 0.0), (-0.75, 0.0), Some(25), 100.0);
    assert!(count <= 25);
    assert_eq!(count, 25);
}

#[test]
fn escape_is_counted_in_steps() {
    // 2 -> 4 -> 16: the third point is the first whose squared magnitude is
    // not below 100.
    assert_eq!(escape_count((2.0, 0.0), (0.0, 0.0), Some(50), 100.0), 2);
    // 1 + i -> 2i -> -4 -> 16
    assert_eq!(escape_count((1.0, 1.0), (0.0, 0.0), Some(50), 100.0), 3);
    // with parameter 1: 0 -> 1 -> 2 -> 5 -> 26
    assert_eq!(escape_count((0.0, 0.0), (1.0, 0.0), Some(50), 100.0), 4);
    assert_eq!(intensity((0.0, 0.0), (1.0, 0.0), Some(50)), 4.0 / 50.0);
}

#[test]
fn the_square_is_the_complex_square() {
    // i squared is -1: the recurrence from i with parameter zero stays on the
    // unit circle and never escapes. A component-wise product would not.
    assert_eq!(escape_count((0.0, 1.0), (0.0, 0.0), Some(40), 100.0), 40);
    // (1 + 2i) squared is -3 + 4i, of squared magnitude 25; squared again it
    // is -7 - 24i, of squared magnitude 625.
    assert_eq!(escape_count((1.0, 2.0), (0.0, 0.0), Some(40), 100.0), 2);
    assert_eq!(escape_count((1.0, 2.0), (0.0, 0.0), Some(40), 20.0), 1);
}

#[test]
fn a_start_outside_the_radius_counts_nothing() {
    assert_eq!(escape_count((10.0, 0.0), (0.0, 0.0), Some(50), 100.0), 0);
    assert_eq!(escape_count((20.0, 20.0), (-0.75, 0.0), None, 100.0), 0);
}

#[test]
fn the_limit_caps_the_count() {
    assert_eq!(escape_count((0.0, 0.0), (0.0, 0.0), Some(0), 100.0), 0);
    assert_eq!(escape_count((0.0, 0.0), (0.0, 0.0), Some(1), 100.0), 1);
    assert_eq!(escape_count((0.0, 0.0), (1.0, 0.0), Some(3), 100.0), 3);
    assert_eq!(DEFAULT_ITERATION_LIMIT, 255);
}

#[test]
fn the_loop_counts_steps_of_any_recurrence() {
    let count = julia_point(7u32, Some(100), |p: &u32| *p < 10, |p: u32| p + 1);
    assert_eq!(count, 3);
    let count = julia_point(0u64, None, |_: &u64| true, |p: u64| p + 2);
    assert_eq!(count, 255);
}

#[test]
fn sweep_colours_every_pixel_by_its_column_and_row() {
    let shade = |x: u32, y: u32| [x as u8, y as u8, (10 * x + y) as u8];
    let image = julia_set((4, 3), shade);
    assert_eq!(image.width(), 4);
    assert_eq!(image.height(), 3);
    for y in 0..3 {
        for x in 0..4 {
            assert_eq!(image.get_pixel(x, y), Some(shade(x, y)));
        }
    }
    let raw = image.into_raw();
    assert_eq!(raw.len(), 36);
    // row-major: the pixel in column 1 of row 2 starts at (2 * 4 + 1) * 3
    assert_eq!(&raw[27..30], &[1, 2, 12]);
}

#[test]
fn sweep_of_an_empty_raster() {
    let image = julia_set((0, 5), |_: u32, _: u32| [1, 2, 3]);
    assert_eq!(image.width(), 0);
    assert_eq!(image.height(), 5);
    assert!(image.into_raw().is_empty());
}

#[test]
fn sweep_with_the_grayscale_of_the_escape_count() {
    let shade = |x: u32, _: u32| {
        let value = (intensity((x as f64, 0.0), (0.0, 0.0), Some(10)) * 255 as f64) as u8;
        [value, value, value]
    };
    let image = julia_set((3, 1), shade);
    // column 0 starts at the origin and never escapes; column 1 starts at 1
    // and stays there; column 2 starts at 2 and leaves after two steps.
    assert_eq!(image.get_pixel(0, 0), Some([255, 255, 255]));
    assert_eq!(image.get_pixel(1, 0), Some([255, 255, 255]));
    assert_eq!(image.get_pixel(2, 0), Some([51, 51, 51]));
}

#[test]
fn mandelbrot_counts_from_the_origin_with_the_point_as_parameter() {
    let origin = (0.0, 0.0);
    let fixed = (-0.75, 0.0);
    let count = |mode: Mode, point: Point| {
        let (z, c) = mode.operands(point, fixed, origin);
        escape_count(z, c, Some(50), 100.0)
    };
    // the origin lies in the Mandelbrot set, the point 1 does not:
    // 0 -> 1 -> 2 -> 5 -> 26
    assert_eq!(count(Mode::Mandelbrot, (0.0, 0.0)), 50);
    assert_eq!(count(Mode::Mandelbrot, (1.0, 0.0)), 4);
    // the Julia set of -0.75 holds the origin and not the point 3:
    // 3 -> 8.25 -> 67.3125
    assert_eq!(count(Mode::Julia, (0.0, 0.0)), 50);
    assert_eq!(count(Mode::Julia, (3.0, 0.0)), 2);
}
