use cu::pointer::{map_point, wheel_ticks, x11_position, CoordinateTransform};
use cu::protocol::{ErrorCode, Point, Viewport};

#[test]
fn lib_scroll_pixels_are_converted_to_nonzero_wheel_ticks() {
    assert_eq!(wheel_ticks(0), 0);
    assert_eq!(wheel_ticks(1), 1);
    assert_eq!(wheel_ticks(120), 1);
    assert_eq!(wheel_ticks(121), 2);
    assert_eq!(wheel_ticks(-600), -5);
}

#[test]
fn wheel_ticks_reach_the_ends_of_their_range() {
    assert_eq!(wheel_ticks(i32::MAX), 17_895_698);
    assert_eq!(wheel_ticks(i32::MIN), -17_895_698);
    assert_eq!(wheel_ticks(-1), -1);
}

#[test]
fn maps_frame_coordinates_to_output_logical_coordinates() {
    let viewport = Viewport { width: 1600, height: 900 };
    let transform = CoordinateTransform {
        frame: viewport,
        origin: Point { x: 100, y: 50 },
        size: Viewport { width: 2560, height: 1440 },
    };

    let mapped = map_point(Some(transform), Point { x: 800, y: 450 }, viewport).unwrap();

    assert_eq!((mapped.x, mapped.y), (1380, 770));
}

#[test]
fn maps_downscaled_frame_coordinates_to_the_x11_screen() {
    let viewport = Viewport { width: 640, height: 400 };
    let transform =
        CoordinateTransform::of_screen(viewport, Viewport { width: 1280, height: 800 });

    let mapped = map_point(Some(transform), Point { x: 320, y: 200 }, viewport).unwrap();

    assert_eq!((mapped.x, mapped.y), (640, 400));
}

#[test]
fn points_need_the_last_captured_frame() {
    let viewport = Viewport { width: 640, height: 400 };
    let missing = map_point(None, Point { x: 0, y: 0 }, viewport).unwrap_err();
    assert_eq!(missing.code, ErrorCode::StaleFrame);
    assert_eq!(missing.message, "capture a frame before injecting pointer input");

    let transform = CoordinateTransform::of_screen(viewport, viewport);
    let other = Viewport { width: 641, height: 400 };
    let stale = map_point(Some(transform), Point { x: 0, y: 0 }, other).unwrap_err();
    assert_eq!(stale.code, ErrorCode::StaleFrame);
    assert_eq!(
        stale.message,
        "the action viewport does not match the last captured frame"
    );
}

#[test]
fn mapping_rounds_towards_zero_and_refuses_what_does_not_fit() {
    let frame = Viewport { width: 3, height: 3 };
    let transform = CoordinateTransform {
        frame,
        origin: Point { x: 0, y: 0 },
        size: Viewport { width: 10, height: 10 },
    };
    let mapped = map_point(Some(transform), Point { x: 1, y: -1 }, frame).unwrap();
    assert_eq!((mapped.x, mapped.y), (3, -3));

    let wide = CoordinateTransform {
        frame,
        origin: Point { x: i32::MAX, y: 0 },
        size: Viewport { width: 10, height: 10 },
    };
    let error = map_point(Some(wide), Point { x: 1, y: 0 }, frame).unwrap_err();
    assert_eq!(error.code, ErrorCode::OutOfBounds);
    assert_eq!(error.message, "mapped x coordinate overflowed");

    let tall = CoordinateTransform {
        frame,
        origin: Point { x: 0, y: i32::MAX },
        size: Viewport { width: 10, height: 10 },
    };
    let error = map_point(Some(tall), Point { x: 0, y: 1 }, frame).unwrap_err();
    assert_eq!(error.message, "mapped y coordinate overflowed");
}

#[test]
fn every_pixel_of_a_frame_maps_to_the_screen() {
    let frame = Viewport { width: 7, height: 5 };
    let screen = Viewport { width: 20, height: 11 };
    let transform = CoordinateTransform::of_screen(frame, screen);
    for x in 0..7 {
        for y in 0..5 {
            let mapped = map_point(Some(transform), Point { x, y }, frame).unwrap();
            assert!((0..20).contains(&mapped.x) && (0..11).contains(&mapped.y));
        }
    }
}

#[test]
fn x11_positions_are_sixteen_bits_wide() {
    assert_eq!(x11_position(Point { x: 32_767, y: -32_768 }).unwrap(), (32_767, -32_768));
    assert_eq!(
        x11_position(Point { x: 32_768, y: 0 }).unwrap_err().message,
        "X11 x coordinate does not fit i16"
    );
    assert_eq!(
        x11_position(Point { x: 0, y: -32_769 }).unwrap_err().message,
        "X11 y coordinate does not fit i16"
    );
}

#[test]
fn an_empty_frame_is_as_stale_as_any_other() {
    let transform = CoordinateTransform {
        frame: Viewport { width: 0, height: 0 },
        origin: Point { x: 0, y: 0 },
        size: Viewport { width: 640, height: 400 },
    };
    let viewport = Viewport { width: 640, height: 400 };
    let stale = map_point(Some(transform), Point { x: 1, y: 1 }, viewport).unwrap_err();
    assert_eq!(stale.code, ErrorCode::StaleFrame);
}
