//! The escape-time loop and the sweep that fills a raster.
//!
//! Both are written over the caller's arithmetic: the loop is handed the
//! recurrence and the escape test, the sweep the function that colours a
//! pixel.

use vstd::prelude::*;

use crate::raster::{fits_in_memory, with_pixel_sets_one_pixel, Raster};

verus! {

/// The iteration limit used when the caller names none.
pub const DEFAULT_ITERATION_LIMIT: u32 = 255;

/// The iteration limit that an optional limit stands for.
pub open spec fn limit_of(iteration_limit: Option<u32>) -> u32 {
    match iteration_limit {
        Some(limit) => limit,
        None => DEFAULT_ITERATION_LIMIT,
    }
}

/// Whether point `i` of `orbit` passes the test `bounded` and the next point
/// is the step from it.
pub open spec fn advances<Z, B: Fn(&Z) -> bool, S: Fn(Z) -> Z>(
    orbit: Seq<Z>,
    i: int,
    bounded: B,
    step: S,
) -> bool {
    &&& bounded.ensures((&orbit[i],), true)
    &&& step.ensures((orbit[i],), orbit[i + 1])
}

/// Whether `orbit` is a run of the recurrence `step` from `start` that stays
/// within bounds before its last point: each point but the last passes the
/// test `bounded`, and each point but the first is the step from the one
/// before.
pub open spec fn bounded_orbit<Z, B: Fn(&Z) -> bool, S: Fn(Z) -> Z>(
    orbit: Seq<Z>,
    start: Z,
    bounded: B,
    step: S,
) -> bool {
    &&& orbit.len() > 0
    &&& orbit[0] == start
    &&& forall|i: int| 0 <= i < orbit.len() - 1 ==> #[trigger] advances(orbit, i, bounded, step)
}

/// Whether `orbit` is a run from `start` that gives the count `count` under
/// the limit `limit`: it stays within bounds before its last point, has
/// `count` steps, no more than the limit, and ends out of bounds if it ends
/// before the limit.
pub open spec fn counted_run<Z, B: Fn(&Z) -> bool, S: Fn(Z) -> Z>(
    orbit: Seq<Z>,
    start: Z,
    count: nat,
    limit: nat,
    bounded: B,
    step: S,
) -> bool {
    &&& bounded_orbit(orbit, start, bounded, step)
    &&& orbit.len() == count + 1
    &&& count <= limit
    &&& count < limit ==> bounded.ensures((&orbit[count as int],), false)
}

/// The number of steps that the recurrence `next` takes from `z` before a
/// point fails the test `within` or `limit` steps are done.
pub open spec fn escape_steps<Z>(
    within: spec_fn(Z) -> bool,
    next: spec_fn(Z) -> Z,
    z: Z,
    limit: nat,
) -> nat
    decreases limit,
{
    if limit == 0 || !within(z) {
        0
    } else {
        1 + escape_steps(within, next, next(z), (limit - 1) as nat)
    }
}

/// Counts the steps of the recurrence `step` from `z` until a point fails the
/// test `bounded` or `iteration_limit` steps are done; without a limit,
/// 255 steps.
///
/// The start must be fit for the test, every point that passes the test fit
/// for a step, and every point that a step gives fit for the test.
///
/// The count is the length of the run: every point before the last is within
/// bounds, and if the count is below the limit the last point is not. A
/// start whose run never leaves the bounds therefore gives the limit itself.
pub fn julia_point<Z, B: Fn(&Z) -> bool, S: Fn(Z) -> Z>(
    z: Z,
    iteration_limit: Option<u32>,
    bounded: B,
    step: S,
) -> (iteration: u32)
    requires
        bounded.requires((&z,)),
        forall|p: Z| #[trigger] bounded.ensures((&p,), true) ==> step.requires((p,)),
        forall|p: Z, q: Z| #[trigger] step.ensures((p,), q) ==> bounded.requires((&q,)),
    ensures
        iteration <= limit_of(iteration_limit),
        exists|orbit: Seq<Z>| #[trigger]
            counted_run(
                orbit,
                z,
                iteration as nat,
                limit_of(iteration_limit) as nat,
                bounded,
                step,
            ),
        (forall|p: Z, inside: bool| #[trigger] bounded.ensures((&p,), inside) ==> inside)
            ==> iteration == limit_of(iteration_limit),
{
    let limit: u32 = match iteration_limit {
        Some(given) => given,
        None => DEFAULT_ITERATION_LIMIT,
    };
    let ghost start = z;
    let ghost mut orbit: Seq<Z> = seq![z];
    let mut z = z;
    let mut iteration: u32 = 0;
    let mut inside: bool = bounded(&z);
    while inside && iteration < limit
        invariant
            forall|p: Z| #[trigger] bounded.ensures((&p,), true) ==> step.requires((p,)),
            forall|p: Z, q: Z| #[trigger] step.ensures((p,), q) ==> bounded.requires((&q,)),
            iteration <= limit,
            orbit.len() == iteration + 1,
            orbit[iteration as int] == z,
            bounded.ensures((&z,), inside),
            bounded_orbit(orbit, start, bounded, step),
        decreases limit - iteration,
    {
        iteration += 1;
        z = step(z);
        proof {
            let longer = orbit.push(z);
            assert forall|i: int| 0 <= i < longer.len() - 1 implies #[trigger] advances(
                longer,
                i,
                bounded,
                step,
            ) by {
                if i < orbit.len() - 1 {
                    assert(advances(orbit, i, bounded, step));
                }
            }
            orbit = longer;
        }
        inside = bounded(&z);
    }
    assert(counted_run(
        orbit,
        start,
        iteration as nat,
        limit_of(iteration_limit) as nat,
        bounded,
        step,
    ));
    iteration
}

/// Fills a raster of the given width and height: every pixel gets the colour
/// that `shade` gives for its column and row.
///
/// The size must be one that fits in memory, and `shade` must accept every
/// pixel of the raster.
pub fn julia_set<F: Fn(u32, u32) -> [u8; 3]>(
    image_size_in_pixel: (u32, u32),
    shade: F,
) -> (image: Raster)
    requires
        fits_in_memory(image_size_in_pixel.0, image_size_in_pixel.1),
        forall|x: u32, y: u32|
            x < image_size_in_pixel.0 && y < image_size_in_pixel.1 ==> #[trigger] shade.requires(
                (x, y),
            ),
    ensures
        image.spec_width() == image_size_in_pixel.0,
        image.spec_height() == image_size_in_pixel.1,
        image.wf(),
        forall|x: u32, y: u32|
            x < image_size_in_pixel.0 && y < image_size_in_pixel.1 ==> shade.ensures(
                (x, y),
                #[trigger] image.pixel(x, y),
            ),
{
    let width: u32 = image_size_in_pixel.0;
    let height: u32 = image_size_in_pixel.1;
    let mut image = Raster::new(width, height);
    let mut x: u32 = 0;
    while x < width
        invariant
            x <= width,
            image.spec_width() == width,
            image.spec_height() == height,
            image.wf(),
            forall|u: u32, v: u32|
                u < width && v < height ==> #[trigger] shade.requires((u, v)),
            forall|u: u32, v: u32|
                u < x && v < height ==> shade.ensures((u, v), #[trigger] image.pixel(u, v)),
        decreases width - x,
    {
        let mut y: u32 = 0;
        while y < height
            invariant
                x < width,
                y <= height,
                image.spec_width() == width,
                image.spec_height() == height,
                image.wf(),
                forall|u: u32, v: u32|
                    u < width && v < height ==> #[trigger] shade.requires((u, v)),
                forall|u: u32, v: u32|
                    (u < x && v < height) || (u == x && v < y) ==> shade.ensures(
                        (u, v),
                        #[trigger] image.pixel(u, v),
                    ),
            decreases height - y,
        {
            let rgb = shade(x, y);
            let ghost before = image;
            image.put_pixel(x, y, rgb);
            proof {
                with_pixel_sets_one_pixel(before@, width, height, x, y, rgb);
                assert forall|u: u32, v: u32|
                    (u < x && v < height) || (u == x && v < y + 1) implies shade.ensures(
                    (u, v),
                    #[trigger] image.pixel(u, v),
                ) by {
                    if (u, v) != (x, y) {
                        assert(image.pixel(u, v) == before.pixel(u, v));
                    }
                }
            }
            y += 1;
        }
        x += 1;
    }
    image
}

/// A recurrence has one count: where the test and the step are functions of
/// their argument, every run that gives the count `count` under the limit
/// `limit` has as many steps as `escape_steps` says.
pub proof fn run_has_escape_steps<Z, B: Fn(&Z) -> bool, S: Fn(Z) -> Z>(
    orbit: Seq<Z>,
    z: Z,
    count: nat,
    limit: nat,
    bounded: B,
    step: S,
    within: spec_fn(Z) -> bool,
    next: spec_fn(Z) -> Z,
)
    requires
        counted_run(orbit, z, count, limit, bounded, step),
        forall|p: Z, inside: bool| #[trigger]
            bounded.ensures((&p,), inside) ==> inside == within(p),
        forall|p: Z, q: Z| #[trigger] step.ensures((p,), q) ==> q == next(p),
    ensures
        count == escape_steps(within, next, z, limit),
    decreases limit,
{
    if orbit.len() == 1 {
        if limit > 0 {
            assert(bounded.ensures((&orbit[0],), false));
        }
    } else {
        assert(advances(orbit, 0, bounded, step));
        let rest = orbit.subrange(1, orbit.len() as int);
        assert forall|i: int| 0 <= i < rest.len() - 1 implies #[trigger] advances(
            rest,
            i,
            bounded,
            step,
        ) by {
            assert(advances(orbit, i + 1, bounded, step));
        }
        run_has_escape_steps(
            rest,
            next(z),
            (count - 1) as nat,
            (limit - 1) as nat,
            bounded,
            step,
            within,
            next,
        );
    }
}

/// A start whose recurrence never leaves the bounds takes all the steps that
/// the limit allows.
pub proof fn bounded_recurrence_reaches_the_limit<Z>(
    within: spec_fn(Z) -> bool,
    next: spec_fn(Z) -> Z,
    z: Z,
    limit: nat,
)
    requires
        forall|p: Z| #[trigger] within(p),
    ensures
        escape_steps(within, next, z, limit) == limit,
    decreases limit,
{
    if limit > 0 {
        bounded_recurrence_reaches_the_limit(within, next, next(z), (limit - 1) as nat);
    }
}

/// A start that fails the test takes no step, and neither does any start
/// under the limit zero.
pub proof fn no_step_outside_the_bounds<Z>(
    within: spec_fn(Z) -> bool,
    next: spec_fn(Z) -> Z,
    z: Z,
    limit: nat,
)
    ensures
        escape_steps(within, next, z, limit) <= limit,
        !within(z) ==> escape_steps(within, next, z, limit) == 0,
        escape_steps(within, next, z, 0) == 0,
    decreases limit,
{
    if limit > 0 && within(z) {
        no_step_outside_the_bounds(within, next, next(z), (limit - 1) as nat);
    }
}

} // verus!
