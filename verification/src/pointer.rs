//! Pointer positions and scrolling: from frame pixels to the desktop.
use vstd::prelude::*;

use crate::protocol::{failure, CuError, CuErrorView, ErrorCode, Point, Viewport};

verus! {

/// How the last captured frame lies on the desktop.
#[derive(Debug, Clone, Copy, PartialEq, Eq, Structural)]
pub struct CoordinateTransform {
    /// Dimensions of the captured frame.
    pub frame: Viewport,
    /// Where the frame's first pixel lies on the desktop.
    pub origin: Point,
    /// Dimensions of the captured part of the desktop.
    pub size: Viewport,
}

impl CoordinateTransform {
    /// The transform of a frame that shows a whole X11 screen.
    pub fn of_screen(frame: Viewport, screen: Viewport) -> (transform: Self)
        ensures
            transform == (CoordinateTransform {
                frame,
                origin: Point { x: 0, y: 0 },
                size: screen,
            }),
    {
        CoordinateTransform { frame, origin: Point { x: 0, y: 0 }, size: screen }
    }
}

/// A quotient rounded towards zero.
pub open spec fn quotient(dividend: int, divisor: int) -> int {
    if dividend < 0 {
        -((-dividend) / divisor)
    } else {
        dividend / divisor
    }
}

/// A coordinate on the desktop.
pub open spec fn mapped(origin: i32, value: i32, size: u32, frame: u32) -> int {
    origin + quotient(value * size, frame as int)
}

fn map_coordinate(origin: i32, value: i32, size: u32, frame: u32) -> (coordinate: i64)
    requires
        frame > 0,
    ensures
        coordinate == mapped(origin, value, size, frame),
{
    let magnitude: u64 = if value < 0 {
        (-(value as i64)) as u64
    } else {
        value as u64
    };
    assert(magnitude * size <= 0x8000_0000 * 0xffff_ffff) by (nonlinear_arith)
        requires
            0 <= magnitude <= 0x8000_0000,
            0 <= size <= 0xffff_ffff,
    ;
    let product: u64 = magnitude * size as u64;
    let scaled: u64 = product / frame as u64;
    assert(0 <= scaled <= product) by (nonlinear_arith)
        requires
            scaled == product / (frame as u64),
            frame > 0,
    ;
    proof {
        if value < 0 {
            assert(value * size == -(magnitude * size)) by (nonlinear_arith)
                requires
                    magnitude == -value,
            ;
            assert(magnitude * size >= 0);
            if size == 0 {
                assert(value * size == 0) by (nonlinear_arith)
                    requires
                        size == 0,
                ;
                assert(0int / (frame as int) == 0) by (nonlinear_arith)
                    requires
                        frame > 0,
                ;
            } else {
                assert(value * size < 0) by (nonlinear_arith)
                    requires
                        value < 0,
                        size > 0,
                ;
            }
        }
    }
    if value < 0 {
        origin as i64 - scaled as i64
    } else {
        origin as i64 + scaled as i64
    }
}

/// The desktop position of a frame pixel, or why there is none.
pub open spec fn mapped_point(
    transform: Option<CoordinateTransform>,
    point: Point,
    viewport: Viewport,
) -> Result<(int, int), CuErrorView> {
    match transform {
        None => Err(
            failure(
                ErrorCode::StaleFrame,
                "capture a frame before injecting pointer input"@,
            ),
        ),
        Some(transform) => if transform.frame != viewport {
            Err(
                failure(
                    ErrorCode::StaleFrame,
                    "the action viewport does not match the last captured frame"@,
                ),
            )
        } else {
            let x = mapped(
                transform.origin.x,
                point.x,
                transform.size.width,
                transform.frame.width,
            );
            let y = mapped(
                transform.origin.y,
                point.y,
                transform.size.height,
                transform.frame.height,
            );
            if !(i32::MIN <= x <= i32::MAX) {
                Err(failure(ErrorCode::OutOfBounds, "mapped x coordinate overflowed"@))
            } else if !(i32::MIN <= y <= i32::MAX) {
                Err(failure(ErrorCode::OutOfBounds, "mapped y coordinate overflowed"@))
            } else {
                Ok((x, y))
            }
        },
    }
}

/// The view of a mapped point.
pub open spec fn point_view(result: Result<Point, CuError>) -> Result<(int, int), CuErrorView> {
    match result {
        Ok(point) => Ok((point.x as int, point.y as int)),
        Err(error) => Err(error@),
    }
}

/// The desktop position of a pixel of the last captured frame.
pub fn map_point(transform: Option<CoordinateTransform>, point: Point, viewport: Viewport) -> (result:
    Result<Point, CuError>)
    requires
        transform matches Some(transform) ==> transform.frame == viewport ==> viewport.width > 0
            && viewport.height > 0,
    ensures
        point_view(result) == mapped_point(transform, point, viewport),
{
    let transform = match transform {
        Some(transform) => transform,
        None => {
            return Err(
                CuError::new(
                    ErrorCode::StaleFrame,
                    "capture a frame before injecting pointer input",
                ),
            );
        },
    };
    if transform.frame != viewport {
        return Err(
            CuError::new(
                ErrorCode::StaleFrame,
                "the action viewport does not match the last captured frame",
            ),
        );
    }
    let x: i64 = map_coordinate(
        transform.origin.x,
        point.x,
        transform.size.width,
        transform.frame.width,
    );
    let y: i64 = map_coordinate(
        transform.origin.y,
        point.y,
        transform.size.height,
        transform.frame.height,
    );
    if x < i32::MIN as i64 || x > i32::MAX as i64 {
        return Err(CuError::new(ErrorCode::OutOfBounds, "mapped x coordinate overflowed"));
    }
    if y < i32::MIN as i64 || y > i32::MAX as i64 {
        return Err(CuError::new(ErrorCode::OutOfBounds, "mapped y coordinate overflowed"));
    }
    Ok(Point { x: x as i32, y: y as i32 })
}

/// A pixel of the frame maps to a pixel of the captured part of the desktop.
pub proof fn mapped_pixels_stay_on_the_desktop(
    transform: CoordinateTransform,
    point: Point,
    viewport: Viewport,
    x: int,
    y: int,
)
    requires
        crate::validate::point_in(point, viewport),
        mapped_point(Some(transform), point, viewport) == Ok::<(int, int), CuErrorView>((x, y)),
        transform.size.width > 0,
        transform.size.height > 0,
    ensures
        transform.origin.x <= x < transform.origin.x + transform.size.width,
        transform.origin.y <= y < transform.origin.y + transform.size.height,
{
    scaled_below(point.x as int, transform.size.width as int, viewport.width as int);
    scaled_below(point.y as int, transform.size.height as int, viewport.height as int);
}

/// A pixel of the frame maps to the pixel of the desktop at which the frame shows it: the first
/// one that it covers, in each direction.
pub proof fn mapped_pixels_are_the_ones_shown(
    transform: CoordinateTransform,
    point: Point,
    viewport: Viewport,
    x: int,
    y: int,
)
    requires
        0 <= point.x < viewport.width,
        0 <= point.y < viewport.height,
        mapped_point(Some(transform), point, viewport) == Ok::<(int, int), CuErrorView>((x, y)),
    ensures
        transform.frame == viewport,
        (x - transform.origin.x) * viewport.width <= point.x * transform.size.width,
        point.x * transform.size.width < (x - transform.origin.x + 1) * viewport.width,
        (y - transform.origin.y) * viewport.height <= point.y * transform.size.height,
        point.y * transform.size.height < (y - transform.origin.y + 1) * viewport.height,
{
    quotient_brackets(point.x as int, transform.size.width as int, viewport.width as int);
    quotient_brackets(point.y as int, transform.size.height as int, viewport.height as int);
}

proof fn quotient_brackets(value: int, size: int, frame: int)
    requires
        0 <= value,
        0 <= size,
        0 < frame,
    ensures
        value * size >= 0,
        quotient(value * size, frame) * frame <= value * size,
        value * size < (quotient(value * size, frame) + 1) * frame,
{
    let product = value * size;
    assert(product >= 0) by (nonlinear_arith)
        requires
            product == value * size,
            value >= 0,
            size >= 0,
    ;
    let part = product / frame;
    assert(part * frame <= product < (part + 1) * frame) by (nonlinear_arith)
        requires
            part == product / frame,
            frame > 0,
    ;
}

/// A pixel of the frame has a place on the desktop unless no frame was captured, the captured frame
/// is another one, or the desktop reaches beyond the range of coordinates.
pub proof fn pixels_of_the_captured_frame_are_mapped(
    transform: Option<CoordinateTransform>,
    point: Point,
    viewport: Viewport,
)
    requires
        0 <= point.x < viewport.width,
        0 <= point.y < viewport.height,
    ensures
        mapped_point(transform, point, viewport) matches Err(error) ==> {
            ||| error.code is StaleFrame && (transform is None || transform->0.frame != viewport)
            ||| error.code is OutOfBounds && transform is Some && (transform->0.origin.x
                + transform->0.size.width > i32::MAX || transform->0.origin.y
                + transform->0.size.height > i32::MAX)
        },
        transform is None || transform->0.frame != viewport ==> (mapped_point(
            transform,
            point,
            viewport,
        ) matches Err(error) && error.code is StaleFrame),
{
    if let Some(transform) = transform {
        if transform.size.width > 0 {
            scaled_below(point.x as int, transform.size.width as int, viewport.width as int);
        } else {
            quotient_brackets(point.x as int, 0, viewport.width as int);
            assert(quotient(0, viewport.width as int) == 0) by (nonlinear_arith)
                requires
                    viewport.width > 0,
            ;
        }
        if transform.size.height > 0 {
            scaled_below(point.y as int, transform.size.height as int, viewport.height as int);
        } else {
            quotient_brackets(point.y as int, 0, viewport.height as int);
            assert(quotient(0, viewport.height as int) == 0) by (nonlinear_arith)
                requires
                    viewport.height > 0,
            ;
        }
    }
}

/// Pixels further right or further down map no further left or up, and to other places where the
/// desktop is at least as large as the frame. A frame of the desktop's own size maps each pixel to
/// itself, from the origin on.
pub proof fn mapping_keeps_the_order(
    transform: CoordinateTransform,
    first: Point,
    second: Point,
    viewport: Viewport,
    at: (int, int),
    other: (int, int),
)
    requires
        0 <= first.x < viewport.width,
        0 <= first.y < viewport.height,
        0 <= second.x < viewport.width,
        0 <= second.y < viewport.height,
        mapped_point(Some(transform), first, viewport) == Ok::<(int, int), CuErrorView>(at),
        mapped_point(Some(transform), second, viewport) == Ok::<(int, int), CuErrorView>(other),
    ensures
        first.x <= second.x ==> at.0 <= other.0,
        first.y <= second.y ==> at.1 <= other.1,
        first.x < second.x && transform.size.width >= viewport.width ==> at.0 < other.0,
        first.y < second.y && transform.size.height >= viewport.height ==> at.1 < other.1,
        transform.size == viewport ==> at.0 == transform.origin.x + first.x && at.1
            == transform.origin.y + first.y,
{
    quotients_are_ordered(
        first.x as int,
        second.x as int,
        transform.size.width as int,
        viewport.width as int,
    );
    quotients_are_ordered(
        first.y as int,
        second.y as int,
        transform.size.height as int,
        viewport.height as int,
    );
}

proof fn quotients_are_ordered(first: int, second: int, size: int, frame: int)
    requires
        0 <= first,
        0 <= second,
        0 <= size,
        0 < frame,
    ensures
        first <= second ==> quotient(first * size, frame) <= quotient(second * size, frame),
        first < second && size >= frame ==> quotient(first * size, frame) < quotient(
            second * size,
            frame,
        ),
        size == frame ==> quotient(first * size, frame) == first,
{
    quotient_brackets(first, size, frame);
    quotient_brackets(second, size, frame);
    let low = quotient(first * size, frame);
    let high = quotient(second * size, frame);
    if first <= second {
        assert(low <= high) by (nonlinear_arith)
            requires
                low * frame <= first * size,
                second * size < (high + 1) * frame,
                first <= second,
                size >= 0,
                frame > 0,
        ;
    }
    if first < second && size >= frame {
        assert(low < high) by (nonlinear_arith)
            requires
                low * frame <= first * size,
                second * size < (high + 1) * frame,
                first + 1 <= second,
                size >= frame,
                frame > 0,
        ;
    }
    if size == frame {
        assert(low == first) by (nonlinear_arith)
            requires
                low * frame <= first * frame < (low + 1) * frame,
                frame > 0,
        ;
    }
}

proof fn scaled_below(value: int, size: int, frame: int)
    requires
        0 <= value < frame,
        0 < size,
    ensures
        0 <= value * size / frame < size,
        value * size >= 0,
{
    assert(0 <= value * size) by (nonlinear_arith)
        requires
            0 <= value,
            0 < size,
    ;
    assert(value * size < frame * size) by (nonlinear_arith)
        requires
            value < frame,
            0 < size,
    ;
    assert(0 <= value * size / frame < size) by (nonlinear_arith)
        requires
            0 <= value * size < frame * size,
            0 < frame,
            0 < size,
    ;
}

/// Whether a coordinate can be sent to an X11 server.
pub open spec fn on_the_wire(coordinate: i32) -> bool {
    -32_768 <= coordinate < 32_768
}

/// The wire coordinates of an X11 pointer position.
pub fn x11_position(point: Point) -> (result: Result<(i16, i16), CuError>)
    ensures
        match result {
            Ok((x, y)) => x == point.x && y == point.y,
            Err(error) => if !(i16::MIN <= point.x <= i16::MAX) {
                error@ == failure(ErrorCode::OutOfBounds, "X11 x coordinate does not fit i16"@)
            } else {
                !(i16::MIN <= point.y <= i16::MAX) && error@ == failure(
                    ErrorCode::OutOfBounds,
                    "X11 y coordinate does not fit i16"@,
                )
            },
        },
        result is Ok <==> on_the_wire(point.x) && on_the_wire(point.y),
{
    if point.x < i16::MIN as i32 || point.x > i16::MAX as i32 {
        return Err(CuError::new(ErrorCode::OutOfBounds, "X11 x coordinate does not fit i16"));
    }
    if point.y < i16::MIN as i32 || point.y > i16::MAX as i32 {
        return Err(CuError::new(ErrorCode::OutOfBounds, "X11 y coordinate does not fit i16"));
    }
    Ok((point.x as i16, point.y as i16))
}

/// The wheel ticks of a scroll distance: one for each started 120 units, in its direction.
pub open spec fn ticks_of(delta: int) -> int {
    if delta >= 0 {
        (delta + 119) / 120
    } else {
        -((-delta + 119) / 120)
    }
}

/// The wheel ticks of a scroll distance.
pub fn wheel_ticks(delta: i32) -> (ticks: i32)
    ensures
        ticks == ticks_of(delta as int),
{
    let wide: i64 = delta as i64;
    if wide >= 0 {
        ((wide + 119) / 120) as i32
    } else {
        let magnitude: i64 = (119 - wide) / 120;
        -(magnitude as i32)
    }
}

/// A scroll distance turns the wheel exactly where it is not zero, in its own direction, and
/// opposite distances turn it equally far.
pub proof fn wheel_follows_the_distance(delta: int)
    ensures
        ticks_of(delta) == 0 <==> delta == 0,
        ticks_of(delta) > 0 <==> delta > 0,
        ticks_of(-delta) == -ticks_of(delta),
{
}

/// A scroll distance turns the wheel by the least number of ticks of 120 units that reach it.
pub proof fn wheel_reaches_the_distance(delta: int)
    ensures
        delta >= 0 ==> 120 * (ticks_of(delta) - 1) < delta <= 120 * ticks_of(delta),
        delta <= 0 ==> 120 * ticks_of(delta) <= delta < 120 * (ticks_of(delta) + 1),
{
}

/// Every pixel of a screen can be sent to an X11 server, whose screens are at most 32768 pixels wide and
/// high; a coordinate and its opposite both can, but for the lowest one.
pub proof fn screen_pixels_go_on_the_wire(coordinate: i32)
    ensures
        0 <= coordinate < 32_768 ==> on_the_wire(coordinate),
        coordinate >= 32_768 ==> !on_the_wire(coordinate),
        coordinate < -32_768 ==> !on_the_wire(coordinate),
        -32_768 < coordinate <= 0 ==> on_the_wire(coordinate) && on_the_wire((-coordinate) as i32),
{
}

} // verus!
