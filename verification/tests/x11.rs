use cu::frame::CaptureLimits;
use cu::keys::Key;
use cu::protocol::{Action, ErrorCode, MouseButton};
use cu::x11::{
    action_uses_keyboard, capture_root, capture_samples, check_display, checked_text_symbol,
    find_device, find_visual, map_button, modifier_keycodes, pack_samples, parse_symbol,
    scroll_clicks, stuck_modifiers, symbol_for_text, symbol_of, validate, RootImage, Visual,
};
use cu::pointer::wheel_ticks;
use xkeysym::{key, Keysym};

#[test]
fn maps_named_and_unicode_keys() {
    assert_eq!(parse_symbol("Ctrl").unwrap(), key::Control_L);
    assert_eq!(parse_symbol("C").unwrap(), key::c);
    assert_eq!(parse_symbol("你").unwrap(), Keysym::from_char('你').raw());
    assert!(parse_symbol("not-a-key").is_err());
}

#[test]
fn scroll_pixels_are_converted_to_nonzero_wheel_ticks() {
    assert_eq!(wheel_ticks(0), 0);
    assert_eq!(wheel_ticks(1), 1);
    assert_eq!(wheel_ticks(120), 1);
    assert_eq!(wheel_ticks(121), 2);
    assert_eq!(wheel_ticks(-600), -5);
}

#[test]
fn every_named_key_has_its_symbol() {
    for (named, symbol) in [
        (Key::Alt, key::Alt_L),
        (Key::Backspace, key::BackSpace),
        (Key::Control, key::Control_L),
        (Key::Delete, key::Delete),
        (Key::DownArrow, key::Down),
        (Key::End, key::End),
        (Key::Return, key::Return),
        (Key::Escape, key::Escape),
        (Key::Home, key::Home),
        (Key::LeftArrow, key::Left),
        (Key::Meta, key::Super_L),
        (Key::PageDown, key::Page_Down),
        (Key::PageUp, key::Page_Up),
        (Key::RightArrow, key::Right),
        (Key::Shift, key::Shift_L),
        (Key::Space, key::space),
        (Key::Tab, key::Tab),
        (Key::UpArrow, key::Up),
        (Key::Function(1), key::F1),
        (Key::Function(12), key::F12),
        (Key::Function(20), key::F20),
        (Key::Character('z'), 42),
    ] {
        assert_eq!(symbol_of(named, 42), symbol, "{named:?}");
    }
}

#[test]
fn text_symbols_come_from_the_characters() {
    for c in ' '..='~' {
        assert_eq!(symbol_for_text(c).unwrap(), c as u32);
    }
    assert_eq!(symbol_for_text('\n').unwrap(), key::Linefeed);
    assert_eq!(symbol_for_text('\t').unwrap(), key::Tab);
    assert_eq!(symbol_for_text('é').unwrap(), key::eacute);
    assert_eq!(checked_text_symbol(0), None);
    assert_eq!(checked_text_symbol(7), Some(7));
}

#[test]
fn characters_without_a_symbol_are_refused() {
    let refused = (0..=0x9f_u32)
        .filter_map(char::from_u32)
        .find(|c| Keysym::from_char(*c).raw() == 0);
    if let Some(c) = refused {
        let error = symbol_for_text(c).unwrap_err();
        assert_eq!(error.code, ErrorCode::UnsupportedInput);
        assert_eq!(error.message, format!("X11 cannot map character {c:?} to a keysym"));
        assert!(validate(&Action::Type { text: format!("a{c}") }).is_err());
    }
}

#[test]
fn displays_have_a_name() {
    assert!(check_display(":99").is_ok());
    assert_eq!(
        check_display(" \t").unwrap_err().message,
        "X11 display must not be empty"
    );
}

#[test]
fn only_some_actions_use_the_keyboard() {
    let keys = vec!["ctrl".to_owned()];
    assert!(action_uses_keyboard(&Action::Type { text: "a".to_owned() }));
    assert!(action_uses_keyboard(&Action::Keypress { keys: keys.clone() }));
    assert!(action_uses_keyboard(&Action::Move { x: 0, y: 0, keys }));
    assert!(!action_uses_keyboard(&Action::Move { x: 0, y: 0, keys: Vec::new() }));
}

#[test]
fn buttons_have_their_x11_numbers() {
    assert_eq!(map_button(MouseButton::Left), 1);
    assert_eq!(map_button(MouseButton::Wheel), 2);
    assert_eq!(map_button(MouseButton::Right), 3);
    assert_eq!(map_button(MouseButton::Back), 8);
    assert_eq!(map_button(MouseButton::Forward), 9);
    assert_eq!(scroll_clicks(-3, 4, 5), (4, 3));
    assert_eq!(scroll_clicks(2, 4, 5), (5, 2));
    assert_eq!(scroll_clicks(i32::MIN, 4, 5), (4, 1 << 31));
}

#[test]
fn stuck_modifiers_are_the_pressed_ones() {
    let mut pressed = vec![0; 32];
    pressed[4] = 0b0010_0000;
    pressed[6] = 0b0000_0100;
    assert_eq!(stuck_modifiers(&pressed, &vec![37, 38, 50, 62]), [37, 50]);
    assert_eq!(modifier_keycodes(&vec![0, 50, 62, 50, 0, 37]), [50, 62, 37]);
}

#[test]
fn devices_are_found_by_their_use() {
    let devices = vec![(1, 3), (0, 2), (0, 4)];
    assert_eq!(find_device(&devices, 0, "pointer").unwrap(), 2);
    assert_eq!(
        find_device(&devices, 9, "keyboard").unwrap_err().message,
        "X11 exposes no core keyboard device"
    );
    let listed = vec![visual(5, 4), visual(7, 4), visual(7, 0)];
    assert_eq!(find_visual(&listed, 7), Some(visual(7, 4)));
    assert_eq!(find_visual(&listed, 6), None);
}

#[test]
fn samples_keep_their_high_bytes() {
    assert_eq!(
        pack_samples(&vec![(0x1234, 0xffff, 0x00ff), (0, 0x8000, 0x0100)]),
        [0x12, 0xff, 0x00, 0x00, 0x80, 0x01]
    );
}

#[test]
fn captures_are_scaled_down_to_the_limits() {
    let samples = vec![(0x4000, 0x8000, 0xc000); 8 * 4];
    let native = capture_samples(&samples, 8, 4, CaptureLimits::default(), ":99", 1);
    assert_eq!((native.width, native.height), (8, 4));
    assert_eq!(native.pixels.len(), 96);
    assert_eq!(native.target, "x11::99:screen:1");

    let limits = CaptureLimits { max_width: Some(4), max_height: None };
    let half = capture_samples(&samples, 8, 4, limits, ":99", 0);
    assert_eq!((half.width, half.height), (4, 2));
    assert_eq!(half.pixels.len(), 24);
    assert_eq!(&half.pixels[..3], [0x40, 0x80, 0xc0]);
}

/// A visual with eight bits for each of red, green and blue.
fn visual(id: u32, class: u8) -> Visual {
    Visual { id, class, red_mask: 0xff_0000, green_mask: 0xff00, blue_mask: 0xff }
}

/// Two rows of two pixels of 32 bits.
fn root_image(data: Vec<u8>) -> RootImage {
    RootImage {
        width: 2,
        height: 2,
        scanline_pad: 32,
        depth: 24,
        bits_per_pixel: 32,
        msb_first: false,
        data,
    }
}

fn root_bytes() -> Vec<u8> {
    vec![3, 2, 1, 0, 6, 5, 4, 0, 9, 8, 7, 0, 12, 11, 10, 0]
}

#[test]
fn root_windows_are_decoded_by_their_visual() {
    let limits = CaptureLimits::default();
    let visuals = vec![visual(0x20, 4), visual(0x21, 5)];
    let frame = capture_root(&root_image(root_bytes()), &visuals, 0x20, 0, limits, ":9", 0).unwrap();
    assert_eq!((frame.width, frame.height), (2, 2));
    assert_eq!(frame.pixels, [1, 2, 3, 4, 5, 6, 7, 8, 9, 10, 11, 12]);
    assert_eq!(frame.target, "x11::9:screen:0");

    let swapped = RootImage { msb_first: true, ..root_image(root_bytes()) };
    let frame = capture_root(&swapped, &visuals, 0, 0x21, limits, ":9", 0).unwrap();
    assert_eq!(frame.pixels, [2, 1, 0, 5, 4, 0, 8, 7, 0, 11, 10, 0]);

    let packed = RootImage {
        width: 1,
        bits_per_pixel: 16,
        depth: 16,
        ..root_image(vec![0x00, 0xf8, 9, 9, 0xe0, 0x07, 9, 9])
    };
    let high = Visual { id: 1, class: 4, red_mask: 0xf800, green_mask: 0x7e0, blue_mask: 0x1f };
    let frame = capture_root(&packed, &vec![high], 1, 0, limits, ":9", 0).unwrap();
    assert_eq!(frame.pixels, [255, 0, 0, 0, 255, 0]);
}

#[test]
fn root_windows_need_a_known_visual_with_colors_and_all_their_bytes() {
    let capture = |image: RootImage, visuals: Vec<Visual>| {
        let error = capture_root(&image, &visuals, 0, 0x2a, CaptureLimits::default(), ":9", 0)
            .unwrap_err();
        assert_eq!(error.code, ErrorCode::CaptureFailed);
        error.message
    };
    assert_eq!(
        capture(root_image(root_bytes()), vec![visual(0x21, 4)]),
        "X11 root visual 0x2a is unavailable"
    );
    let invalid = "A value could not be parsed into an enumeration";
    let gray = capture(root_image(root_bytes()), vec![visual(0x2a, 1)]);
    assert_eq!(gray, format!("unsupported X11 root visual: {invalid}"));
    for red_mask in [0, 0b101, 0x1_ffff] {
        let odd = Visual { red_mask, ..visual(0x2a, 4) };
        let message = capture(root_image(root_bytes()), vec![odd]);
        assert_eq!(message, format!("unsupported X11 root visual: {invalid}"));
    }
    assert_eq!(
        capture(root_image(vec![0; 15]), vec![visual(0x2a, 4)]),
        "Insufficient data was provided"
    );
    let padded = RootImage { scanline_pad: 7, ..root_image(root_bytes()) };
    assert_eq!(capture(padded, vec![visual(0x2a, 4)]), invalid);
    let sized = RootImage { bits_per_pixel: 7, ..root_image(root_bytes()) };
    assert_eq!(capture(sized, vec![visual(0x2a, 4)]), invalid);
}
