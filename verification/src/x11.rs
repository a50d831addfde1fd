//! Decisions of the X11 backend: keyboard symbols, pointer positions, captured samples.
use vstd::arithmetic::power2::pow2;
use vstd::prelude::*;

use crate::frame::{
    rescaled, resize_rgb, scalable, CaptureLimits, CapturedFrame, FrameView,
};
use crate::keymap::contains_keycode;
use crate::keys::{
    debug_char, debug_text, key_named, normalized, parse_key, quoted_char, trim, trimmed,
    unsupported, Key,
};
use crate::protocol::{
    failure, texts, Action, ActionView, CuError, CuErrorView, ErrorCode, MouseButton, Viewport,
};
use crate::text::{decimal, hexadecimal, push_decimal, push_hexadecimal};
use crate::validate::refusal;

verus! {

/// The keyboard symbol that stands for none.
pub const NO_SYMBOL: u32 = 0;

/// Refuse an empty display name.
pub fn check_display(display: &str) -> (result: Result<(), CuError>)
    ensures
        trimmed(display@).len() > 0 ==> result is Ok,
        trimmed(display@).len() == 0 ==> (result matches Err(error) && error@ == failure(
            ErrorCode::InvalidAction,
            "X11 display must not be empty"@,
        )),
{
    if trim(display).as_str().is_empty() {
        return Err(CuError::new(ErrorCode::InvalidAction, "X11 display must not be empty"));
    }
    Ok(())
}

/// The keyboard symbol that types a character.
pub uninterp spec fn char_keysym(c: char) -> u32;

/// Calls `xkeysym::Keysym::from_char`, which looks the character up in a table.
///
/// Trusted: the symbol depends on the character alone, and is named `char_keysym`; printable
/// ASCII characters are their own symbols.
#[verifier::external_body]
fn keysym_from_char(c: char) -> (symbol: u32)
    ensures
        symbol == char_keysym(c),
        '\u{20}' <= c <= '\u{7e}' ==> symbol == c as u32,
{
    xkeysym::Keysym::from_char(c).raw()
}

/// The keyboard symbol of a key, given the symbol that types its character.
pub open spec fn key_symbol(key: Key, typed: u32) -> u32 {
    match key {
        Key::Alt => 0xffe9,
        Key::Backspace => 0xff08,
        Key::Control => 0xffe3,
        Key::Delete => 0xffff,
        Key::DownArrow => 0xff54,
        Key::End => 0xff57,
        Key::Return => 0xff0d,
        Key::Escape => 0xff1b,
        Key::Function(number) => (0xffbd + number) as u32,
        Key::Home => 0xff50,
        Key::LeftArrow => 0xff51,
        Key::Meta => 0xffeb,
        Key::PageDown => 0xff56,
        Key::PageUp => 0xff55,
        Key::RightArrow => 0xff53,
        Key::Shift => 0xffe1,
        Key::Space => 0x20,
        Key::Tab => 0xff09,
        Key::UpArrow => 0xff52,
        Key::Character(_) => typed,
    }
}

/// The keyboard symbol of a key, given the symbol that types its character.
pub fn symbol_of(key: Key, typed: u32) -> (symbol: u32)
    ensures
        symbol == key_symbol(key, typed),
{
    match key {
        Key::Alt => 0xffe9,
        Key::Backspace => 0xff08,
        Key::Control => 0xffe3,
        Key::Delete => 0xffff,
        Key::DownArrow => 0xff54,
        Key::End => 0xff57,
        Key::Return => 0xff0d,
        Key::Escape => 0xff1b,
        Key::Function(number) => 0xffbd + number as u32,
        Key::Home => 0xff50,
        Key::LeftArrow => 0xff51,
        Key::Meta => 0xffeb,
        Key::PageDown => 0xff56,
        Key::PageUp => 0xff55,
        Key::RightArrow => 0xff53,
        Key::Shift => 0xffe1,
        Key::Space => 0x20,
        Key::Tab => 0xff09,
        Key::UpArrow => 0xff52,
        Key::Character(_) => typed,
    }
}

/// The keyboard symbol that a name stands for, or why it stands for none.
pub open spec fn named_symbol(name: Seq<char>) -> Result<u32, CuErrorView> {
    match key_named(normalized(name)) {
        Some(Key::Character(c)) => Ok(char_keysym(c)),
        Some(key) => Ok(key_symbol(key, NO_SYMBOL)),
        None => Err(unsupported(debug_text(name))),
    }
}

/// The view of a parsed symbol.
pub open spec fn symbol_view(result: Result<u32, CuError>) -> Result<u32, CuErrorView> {
    match result {
        Ok(symbol) => Ok(symbol),
        Err(error) => Err(error@),
    }
}

/// The keyboard symbol that a name stands for.
pub fn parse_symbol(name: &str) -> (result: Result<u32, CuError>)
    ensures
        symbol_view(result) == named_symbol(name@),
{
    match parse_key(name) {
        Ok(Key::Character(c)) => {
            let typed = keysym_from_char(c);
            Ok(symbol_of(Key::Character(c), typed))
        },
        Ok(key) => Ok(symbol_of(key, NO_SYMBOL)),
        Err(error) => Err(error),
    }
}

/// The failure of a character without a keyboard symbol, given the quoted character.
pub open spec fn unmappable(quoted_character: Seq<char>) -> CuErrorView {
    failure(
        ErrorCode::UnsupportedInput,
        "X11 cannot map character "@ + quoted_character + " to a keysym"@,
    )
}

fn unmappable_error(quoted_character: &str) -> (error: CuError)
    ensures
        error@ == unmappable(quoted_character@),
{
    let mut message = "X11 cannot map character ".to_owned();
    message.append(quoted_character);
    message.append(" to a keysym");
    CuError::new(ErrorCode::UnsupportedInput, &message)
}

/// The keyboard symbol that types a character, or why none does.
pub open spec fn text_symbol(c: char) -> Result<u32, CuErrorView> {
    if char_keysym(c) == NO_SYMBOL {
        Err(unmappable(debug_char(c)))
    } else {
        Ok(char_keysym(c))
    }
}

/// The keyboard symbol that types a character.
pub fn symbol_for_text(c: char) -> (result: Result<u32, CuError>)
    ensures
        symbol_view(result) == text_symbol(c),
{
    let symbol = keysym_from_char(c);
    match checked_text_symbol(symbol) {
        Some(symbol) => Ok(symbol),
        None => Err(unmappable_error(&quoted_char(c))),
    }
}

/// A symbol that types something; nothing for the symbol that stands for none.
pub fn checked_text_symbol(symbol: u32) -> (result: Option<u32>)
    ensures
        result == (if symbol == NO_SYMBOL {
            None
        } else {
            Some(symbol)
        }),
{
    if symbol == NO_SYMBOL {
        None
    } else {
        Some(symbol)
    }
}

/// The refusal of the first key name that stands for no key.
pub open spec fn names_failure(names: Seq<Seq<char>>) -> Option<CuErrorView>
    decreases names.len(),
{
    if names.len() == 0 {
        None
    } else {
        match names_failure(names.drop_last()) {
            Some(error) => Some(error),
            None => match named_symbol(names.last()) {
                Ok(_) => None,
                Err(error) => Some(error),
            },
        }
    }
}

/// The refusal of the first character that no symbol types.
pub open spec fn characters_failure(text: Seq<char>) -> Option<CuErrorView>
    decreases text.len(),
{
    if text.len() == 0 {
        None
    } else {
        match characters_failure(text.drop_last()) {
            Some(error) => Some(error),
            None => match text_symbol(text.last()) {
                Ok(_) => None,
                Err(error) => Some(error),
            },
        }
    }
}

/// The key names of an action.
pub open spec fn key_names(action: ActionView) -> Seq<Seq<char>> {
    match action {
        ActionView::Move { keys, .. } => keys,
        ActionView::Click { keys, .. } => keys,
        ActionView::DoubleClick { keys, .. } => keys,
        ActionView::Drag { keys, .. } => keys,
        ActionView::Scroll { keys, .. } => keys,
        ActionView::Keypress { keys } => keys,
        ActionView::Type { .. } => Seq::empty(),
    }
}

/// Why the backend cannot execute an action, if it cannot.
pub open spec fn unsupported_action(action: ActionView) -> Option<CuErrorView> {
    match action {
        ActionView::Type { text } => characters_failure(text),
        _ => names_failure(key_names(action)),
    }
}

pub(crate) proof fn names_failure_of_prefix(names: Seq<Seq<char>>, n: int)
    requires
        0 <= n <= names.len(),
        names_failure(names.take(n)) is Some,
    ensures
        names_failure(names) == names_failure(names.take(n)),
    decreases names.len() - n,
{
    if n == names.len() {
        assert(names.take(n) =~= names);
    } else {
        assert(names.take(n + 1).drop_last() =~= names.take(n));
        names_failure_of_prefix(names, n + 1);
    }
}

proof fn characters_failure_of_prefix(text: Seq<char>, n: int)
    requires
        0 <= n <= text.len(),
        characters_failure(text.take(n)) is Some,
    ensures
        characters_failure(text) == characters_failure(text.take(n)),
    decreases text.len() - n,
{
    if n == text.len() {
        assert(text.take(n) =~= text);
    } else {
        assert(text.take(n + 1).drop_last() =~= text.take(n));
        characters_failure_of_prefix(text, n + 1);
    }
}

fn validate_names(names: &Vec<String>) -> (result: Result<(), CuError>)
    ensures
        refusal(result) == names_failure(texts(names@)),
{
    let ghost all = texts(names@);
    let mut n: usize = 0;
    while n < names.len()
        invariant
            n <= names.len(),
            all == texts(names@),
            names_failure(all.take(n as int)) is None,
        decreases names.len() - n,
    {
        assert(all.take(n + 1).drop_last() =~= all.take(n as int));
        assert(all.take(n + 1).last() == names@[n as int]@);
        match parse_symbol(&names[n]) {
            Ok(_) => {},
            Err(error) => {
                proof {
                    names_failure_of_prefix(all, n + 1);
                }
                return Err(error);
            },
        }
        n += 1;
    }
    assert(all.take(n as int) =~= all);
    Ok(())
}

fn validate_characters(text: &str) -> (result: Result<(), CuError>)
    ensures
        refusal(result) == characters_failure(text@),
{
    let chars = crate::text::chars_of(text);
    let mut n: usize = 0;
    while n < chars.len()
        invariant
            n <= chars.len(),
            chars@ == text@,
            characters_failure(text@.take(n as int)) is None,
        decreases chars.len() - n,
    {
        assert(text@.take(n + 1).drop_last() =~= text@.take(n as int));
        assert(text@.take(n + 1).last() == chars@[n as int]);
        match symbol_for_text(chars[n]) {
            Ok(_) => {},
            Err(error) => {
                proof {
                    characters_failure_of_prefix(text@, n + 1);
                }
                return Err(error);
            },
        }
        n += 1;
    }
    assert(text@.take(n as int) =~= text@);
    Ok(())
}

/// Refuse an action that names an unknown key or types a character without a symbol.
pub fn validate(action: &Action) -> (result: Result<(), CuError>)
    ensures
        refusal(result) == unsupported_action(action@),
{
    match action {
        Action::Move { keys, .. } => validate_names(keys),
        Action::Click { keys, .. } => validate_names(keys),
        Action::DoubleClick { keys, .. } => validate_names(keys),
        Action::Drag { keys, .. } => validate_names(keys),
        Action::Scroll { keys, .. } => validate_names(keys),
        Action::Keypress { keys } => validate_names(keys),
        Action::Type { text } => validate_characters(text),
    }
}

/// Whether executing an action needs the keyboard in its neutral state.
pub fn action_uses_keyboard(action: &Action) -> (uses: bool)
    ensures
        uses == (action@ is Type || action@ is Keypress || key_names(action@).len() > 0),
{
    match action {
        Action::Move { keys, .. } => keys.len() > 0,
        Action::Click { keys, .. } => keys.len() > 0,
        Action::DoubleClick { keys, .. } => keys.len() > 0,
        Action::Drag { keys, .. } => keys.len() > 0,
        Action::Scroll { keys, .. } => keys.len() > 0,
        Action::Type { .. } => true,
        Action::Keypress { .. } => true,
    }
}

/// The number of a mouse button on the wire.
pub open spec fn button_number(button: MouseButton) -> u8 {
    match button {
        MouseButton::Left => 1,
        MouseButton::Wheel => 2,
        MouseButton::Right => 3,
        MouseButton::Back => 8,
        MouseButton::Forward => 9,
    }
}

/// The number of a mouse button on the wire.
pub fn map_button(button: MouseButton) -> (number: u8)
    ensures
        number == button_number(button),
{
    match button {
        MouseButton::Left => 1,
        MouseButton::Wheel => 2,
        MouseButton::Right => 3,
        MouseButton::Back => 8,
        MouseButton::Forward => 9,
    }
}

/// The button to click for a scroll, and how often: the negative one up or left.
pub fn scroll_clicks(ticks: i32, negative_button: u8, positive_button: u8) -> (clicks: (u8, u32))
    ensures
        clicks.0 == (if ticks < 0 {
            negative_button
        } else {
            positive_button
        }),
        clicks.1 == (if ticks < 0 {
            -ticks
        } else {
            ticks as int
        }),
{
    if ticks < 0 {
        (negative_button, (-(ticks as i64)) as u32)
    } else {
        (positive_button, ticks as u32)
    }
}

/// Whether a bit of the server's map of pressed keys is set.
pub open spec fn pressed_bit(pressed: Seq<u8>, keycode: u8) -> bool {
    pressed[(keycode / 8) as int] & (1u8 << (keycode % 8)) != 0
}

/// The modifier keys that the server reports as pressed, in the given order.
pub open spec fn pressed_modifiers(pressed: Seq<u8>, modifiers: Seq<u8>) -> Seq<u8> {
    modifiers.filter(|keycode: u8| pressed_bit(pressed, keycode))
}

/// The modifier keys that have to be released before keyboard input.
pub fn stuck_modifiers(pressed: &Vec<u8>, modifiers: &Vec<u8>) -> (stuck: Vec<u8>)
    requires
        pressed.len() == 32,
    ensures
        stuck@ == pressed_modifiers(pressed@, modifiers@),
{
    let mut stuck: Vec<u8> = Vec::new();
    let mut n: usize = 0;
    assert(modifiers@.take(0) =~= Seq::empty());
    assert(pressed_modifiers(pressed@, modifiers@.take(0)) =~= Seq::empty()) by {
        reveal(Seq::filter);
    }
    while n < modifiers.len()
        invariant
            n <= modifiers.len(),
            pressed.len() == 32,
            stuck@ == pressed_modifiers(pressed@, modifiers@.take(n as int)),
        decreases modifiers.len() - n,
    {
        let keycode = modifiers[n];
        let byte: usize = (keycode / 8) as usize;
        proof {
            reveal(Seq::filter);
            assert(modifiers@.take(n + 1).drop_last() =~= modifiers@.take(n as int));
            assert(modifiers@.take(n + 1).last() == keycode);
        }
        if pressed[byte] & (1u8 << (keycode % 8)) != 0 {
            stuck.push(keycode);
        }
        n += 1;
    }
    assert(modifiers@.take(n as int) =~= modifiers@);
    stuck
}

/// The keys that serve as modifiers, each once and in the order of the server's list, which fills
/// unused places with zero.
pub open spec fn listed_modifiers(keycodes: Seq<u8>) -> Seq<u8>
    decreases keycodes.len(),
{
    if keycodes.len() == 0 {
        Seq::empty()
    } else {
        let earlier = listed_modifiers(keycodes.drop_last());
        if keycodes.last() != 0 && !earlier.contains(keycodes.last()) {
            earlier.push(keycodes.last())
        } else {
            earlier
        }
    }
}

/// The keys that serve as modifiers, each once: the server fills unused places with zero.
pub fn modifier_keycodes(keycodes: &Vec<u8>) -> (modifiers: Vec<u8>)
    ensures
        modifiers@ == listed_modifiers(keycodes@),
        modifiers@.no_duplicates(),
        forall|keycode: u8| #[trigger]
            modifiers@.contains(keycode) <==> keycode != 0 && keycodes@.contains(keycode),
{
    let mut modifiers: Vec<u8> = Vec::new();
    let mut n: usize = 0;
    while n < keycodes.len()
        invariant
            n <= keycodes.len(),
            modifiers@ == listed_modifiers(keycodes@.take(n as int)),
            modifiers@.no_duplicates(),
            forall|i: int| 0 <= i < n && keycodes[i] != 0 ==> modifiers@.contains(keycodes[i]),
            forall|i: int|
                0 <= i < modifiers.len() ==> #[trigger] modifiers[i] != 0 && keycodes@.contains(
                    modifiers[i],
                ),
        decreases keycodes.len() - n,
    {
        let keycode = keycodes[n];
        let ghost before = modifiers@;
        assert(keycodes@.take(n + 1).drop_last() =~= keycodes@.take(n as int));
        if keycode != 0 && !contains_keycode(&modifiers, keycode) {
            modifiers.push(keycode);
            assert(modifiers@.last() == keycode);
            assert forall|i: int| 0 <= i <= n && keycodes[i] != 0 implies modifiers@.contains(
                keycodes[i],
            ) by {
                if i < n {
                    let at = choose|at: int| 0 <= at < before.len() && before[at] == keycodes[i];
                    assert(modifiers@[at] == keycodes[i]);
                }
            }
        }
        n += 1;
    }
    assert(keycodes@.take(n as int) =~= keycodes@);
    modifiers
}

/// Whether a device of the given use is listed, at which place first.
pub open spec fn first_device(devices: Seq<(u8, u8)>, usage: u8) -> Option<u8>
    decreases devices.len(),
{
    if devices.len() == 0 {
        None
    } else if devices[0].0 == usage {
        Some(devices[0].1)
    } else {
        first_device(devices.drop_first(), usage)
    }
}

/// The first device of the given use. Each device is its use and its identifier.
pub fn find_device(devices: &Vec<(u8, u8)>, usage: u8, kind: &str) -> (result: Result<u8, CuError>)
    ensures
        match first_device(devices@, usage) {
            Some(id) => result == Ok::<u8, CuError>(id),
            None => result matches Err(error) && error@ == failure(
                ErrorCode::UnsupportedInput,
                "X11 exposes no core "@ + kind@ + " device"@,
            ),
        },
{
    let mut n: usize = 0;
    assert(devices@.skip(0) =~= devices@);
    while n < devices.len()
        invariant
            n <= devices.len(),
            first_device(devices@, usage) == first_device(devices@.skip(n as int), usage),
        decreases devices.len() - n,
    {
        assert(devices@.skip(n as int)[0] == devices@[n as int]);
        assert(devices@.skip(n as int).drop_first() =~= devices@.skip(n + 1));
        if devices[n].0 == usage {
            return Ok(devices[n].1);
        }
        n += 1;
    }
    let mut message = "X11 exposes no core ".to_owned();
    message.append(kind);
    message.append(" device");
    Err(CuError::new(ErrorCode::UnsupportedInput, &message))
}

/// The high bytes of red, green and blue samples, pixel after pixel.
pub open spec fn high_bytes(samples: Seq<(u16, u16, u16)>) -> Seq<u8> {
    Seq::new(
        samples.len() * 3,
        |i: int|
            {
                let sample = samples[i / 3];
                (if i % 3 == 0 {
                    sample.0
                } else if i % 3 == 1 {
                    sample.1
                } else {
                    sample.2
                } / 256) as u8
            },
    )
}

/// Pack red, green and blue samples into bytes.
pub fn pack_samples(samples: &Vec<(u16, u16, u16)>) -> (pixels: Vec<u8>)
    ensures
        pixels@ == high_bytes(samples@),
{
    let mut pixels: Vec<u8> = Vec::new();
    let mut n: usize = 0;
    while n < samples.len()
        invariant
            n <= samples.len(),
            pixels@ == high_bytes(samples@).take(n * 3),
        decreases samples.len() - n,
    {
        let (red, green, blue) = samples[n];
        pixels.push((red / 256) as u8);
        pixels.push((green / 256) as u8);
        pixels.push((blue / 256) as u8);
        n += 1;
        assert(pixels@ =~= high_bytes(samples@).take(n * 3));
    }
    assert(pixels@ =~= high_bytes(samples@));
    pixels
}

/// A way in which a screen encodes colors in pixel values.
#[derive(Debug, Clone, Copy, PartialEq, Eq, Structural)]
pub struct Visual {
    pub id: u32,
    pub class: u8,
    pub red_mask: u32,
    pub green_mask: u32,
    pub blue_mask: u32,
}

/// The first visual with an identifier.
pub open spec fn first_visual(visuals: Seq<Visual>, id: u32) -> Option<Visual>
    decreases visuals.len(),
{
    if visuals.len() == 0 {
        None
    } else if visuals[0].id == id {
        Some(visuals[0])
    } else {
        first_visual(visuals.drop_first(), id)
    }
}

/// The first visual with an identifier.
pub fn find_visual(visuals: &Vec<Visual>, id: u32) -> (found: Option<Visual>)
    ensures
        found == first_visual(visuals@, id),
{
    let mut n: usize = 0;
    assert(visuals@.skip(0) =~= visuals@);
    while n < visuals.len()
        invariant
            n <= visuals.len(),
            first_visual(visuals@, id) == first_visual(visuals@.skip(n as int), id),
        decreases visuals.len() - n,
    {
        assert(visuals@.skip(n as int)[0] == visuals@[n as int]);
        assert(visuals@.skip(n as int).drop_first() =~= visuals@.skip(n + 1));
        if visuals[n].id == id {
            return Some(visuals[n]);
        }
        n += 1;
    }
    None
}

/// Class of visuals whose pixel values hold the color.
pub const TRUE_COLOR: u8 = 4;

/// Class of visuals whose pixel values hold the places of each color component.
pub const DIRECT_COLOR: u8 = 5;

/// Whether the bits of a mask are consecutive, at least one and at most sixteen.
pub open spec fn is_component(mask: u32) -> bool {
    exists|width: nat, shift: nat|
        1 <= width <= 16 && shift + width <= 32 && mask == #[trigger] pow2(shift) * (
        #[trigger] pow2(width) - 1)
}

/// Whether the color can be read from the pixel values of a visual.
pub open spec fn decodable(visual: Visual) -> bool {
    &&& visual.class == TRUE_COLOR || visual.class == DIRECT_COLOR
    &&& is_component(visual.red_mask)
    &&& is_component(visual.green_mask)
    &&& is_component(visual.blue_mask)
}

/// The red, green and blue samples of a pixel value, or why its visual cannot be decoded.
pub uninterp spec fn visual_samples(
    class: u8,
    red_mask: u32,
    green_mask: u32,
    blue_mask: u32,
    pixel: u32,
) -> Result<(u16, u16, u16), Seq<char>>;

/// The view of samples or a diagnostic.
pub open spec fn samples_view(result: Result<(u16, u16, u16), String>) -> Result<
    (u16, u16, u16),
    Seq<char>,
> {
    match result {
        Ok(samples) => Ok(samples),
        Err(message) => Err(message@),
    }
}

impl Visual {
    /// The samples of a pixel value, or why it cannot be decoded.
    pub open spec fn samples(self, pixel: u32) -> Result<(u16, u16, u16), Seq<char>> {
        visual_samples(self.class, self.red_mask, self.green_mask, self.blue_mask, pixel)
    }
}

/// Calls `x11rb::image::PixelLayout::from_visual_type` and, on the layout, `decode`.
///
/// Trusted: there are samples exactly where the class is one whose pixel values hold the color and
/// each mask is that of a component. They, or the diagnostic, depend on the class, the masks and
/// the pixel value alone, and are named `visual_samples`. The fields of the outside type that are
/// left zero are not read.
#[verifier::external_body]
fn decode_pixel(visual: Visual, pixel: u32) -> (result: Result<(u16, u16, u16), String>)
    ensures
        samples_view(result) == visual_samples(
            visual.class,
            visual.red_mask,
            visual.green_mask,
            visual.blue_mask,
            pixel,
        ),
        result is Ok <==> decodable(visual),
{
    let visual = x11rb::protocol::xproto::Visualtype {
        visual_id: visual.id,
        class: x11rb::protocol::xproto::VisualClass::from(visual.class),
        bits_per_rgb_value: 0,
        colormap_entries: 0,
        red_mask: visual.red_mask,
        green_mask: visual.green_mask,
        blue_mask: visual.blue_mask,
    };
    match x11rb::image::PixelLayout::from_visual_type(visual) {
        Ok(layout) => Ok(layout.decode(pixel)),
        Err(error) => Err(error.to_string()),
    }
}

/// The image of a root window as the server sent it.
#[derive(Debug)]
pub struct RootImage {
    pub width: u16,
    pub height: u16,
    /// Number of bits to a multiple of which each row is padded.
    pub scanline_pad: u8,
    pub depth: u8,
    pub bits_per_pixel: u8,
    /// Whether the most significant byte of a pixel value comes first.
    pub msb_first: bool,
    pub data: Vec<u8>,
}

/// A root window's image with its bytes as a sequence.
pub struct RootImageView {
    pub width: u16,
    pub height: u16,
    pub scanline_pad: u8,
    pub depth: u8,
    pub bits_per_pixel: u8,
    pub msb_first: bool,
    pub data: Seq<u8>,
}

impl View for RootImage {
    type V = RootImageView;

    open spec fn view(&self) -> RootImageView {
        RootImageView {
            width: self.width,
            height: self.height,
            scanline_pad: self.scanline_pad,
            depth: self.depth,
            bits_per_pixel: self.bits_per_pixel,
            msb_first: self.msb_first,
            data: self.data@,
        }
    }
}

/// The value of the pixel `(x, y)` of an image, or why the image cannot be read.
pub uninterp spec fn image_pixel(
    data: Seq<u8>,
    width: u16,
    height: u16,
    scanline_pad: u8,
    depth: u8,
    bits_per_pixel: u8,
    msb_first: bool,
    x: u16,
    y: u16,
) -> Result<u32, Seq<char>>;

/// The view of a pixel value or a diagnostic.
pub open spec fn pixel_view(result: Result<u32, String>) -> Result<u32, Seq<char>> {
    match result {
        Ok(pixel) => Ok(pixel),
        Err(message) => Err(message@),
    }
}

impl RootImageView {
    /// The number of bytes of a row: its bits, rounded up to the padding.
    pub open spec fn row_bytes(self) -> int {
        let bits = self.width * self.bits_per_pixel;
        (bits + self.scanline_pad - 1) / (self.scanline_pad as int) * self.scanline_pad / 8
    }

    /// Whether rows and pixel values have sizes that images can have, and the bytes of every row
    /// are there.
    pub open spec fn readable(self) -> bool {
        &&& self.scanline_pad == 8 || self.scanline_pad == 16 || self.scanline_pad == 32
        &&& self.bits_per_pixel == 1 || self.bits_per_pixel == 4 || self.bits_per_pixel == 8
            || self.bits_per_pixel == 16 || self.bits_per_pixel == 24 || self.bits_per_pixel == 32
        &&& self.data.len() >= self.height * self.row_bytes()
    }

    /// The value of a pixel, or why the image cannot be read.
    pub open spec fn pixel(self, x: u16, y: u16) -> Result<u32, Seq<char>> {
        image_pixel(
            self.data,
            self.width,
            self.height,
            self.scanline_pad,
            self.depth,
            self.bits_per_pixel,
            self.msb_first,
            x,
            y,
        )
    }

    /// The samples of all pixels under a visual, row after row.
    pub open spec fn samples(self, visual: Visual) -> Seq<(u16, u16, u16)> {
        Seq::new(
            (self.width * self.height) as nat,
            |i: int|
                {
                    let x = (i % (self.width as int)) as u16;
                    let y = (i / (self.width as int)) as u16;
                    visual.samples(self.pixel(x, y)->Ok_0)->Ok_0
                },
        )
    }
}

/// Calls `x11rb::image::Image::new` and, on the image, `get_pixel`.
///
/// Trusted: there is a value exactly where the image is readable. It, or the diagnostic, depends on
/// the image's fields and the place alone, and is named `image_pixel`.
#[verifier::external_body]
fn pixel_at(image: &RootImage, x: u16, y: u16) -> (result: Result<u32, String>)
    requires
        x < image.width,
        y < image.height,
        scalable(image.width as u32, image.height as u32),
    ensures
        pixel_view(result) == image_pixel(
            image.data@,
            image.width,
            image.height,
            image.scanline_pad,
            image.depth,
            image.bits_per_pixel,
            image.msb_first,
            x,
            y,
        ),
        result is Ok <==> image@.readable(),
{
    let text = |error: x11rb::errors::ParseError| error.to_string();
    let pad = image.scanline_pad.try_into().map_err(text)?;
    let bits = image.bits_per_pixel.try_into().map_err(text)?;
    let order = match image.msb_first {
        true => x11rb::image::ImageOrder::MsbFirst,
        false => x11rb::image::ImageOrder::LsbFirst,
    };
    let data = std::borrow::Cow::Borrowed(image.data.as_slice());
    let (width, height, depth) = (image.width, image.height, image.depth);
    match x11rb::image::Image::new(width, height, pad, depth, bits, order, data) {
        Ok(native) => Ok(native.get_pixel(x, y)),
        Err(error) => Err(error.to_string()),
    }
}

/// The name of an X11 screen as a capture target.
pub open spec fn screen_target(display: Seq<char>, screen: nat) -> Seq<char> {
    "x11:"@ + display + ":screen:"@ + decimal(screen)
}

fn target_name(display: &str, screen: usize) -> (name: String)
    ensures
        name@ == screen_target(display@, screen as nat),
{
    let mut name = "x11:".to_owned();
    name.append(display);
    name.append(":screen:");
    push_decimal(&mut name, screen as u64);
    name
}

/// Whether a frame shows samples: packed into bytes, and scaled down to the limits.
pub open spec fn shows_samples(
    samples: Seq<(u16, u16, u16)>,
    width: u16,
    height: u16,
    limits: CaptureLimits,
    frame: FrameView,
) -> bool {
    let fitted = limits.fitted(width as u32, height as u32);
    &&& frame.viewport() == fitted
    &&& frame.valid()
    &&& if fitted == (Viewport { width: width as u32, height: height as u32 }) {
        frame.pixels == high_bytes(samples)
    } else {
        rescaled(
            high_bytes(samples),
            width as u32,
            height as u32,
            fitted.width,
            fitted.height,
            frame.pixels,
        )
    }
}

/// The frame of a root window's samples.
pub fn capture_samples(
    samples: &Vec<(u16, u16, u16)>,
    width: u16,
    height: u16,
    limits: CaptureLimits,
    display: &str,
    screen: usize,
) -> (frame: CapturedFrame)
    requires
        limits.usable(),
        samples.len() == width * height,
        width > 0,
        height > 0,
        scalable(width as u32, height as u32),
    ensures
        shows_samples(samples@, width, height, limits, frame@),
        frame@.target == screen_target(display@, screen as nat),
{
    let pixels = pack_samples(samples);
    let fitted = limits.fit(width as u32, height as u32);
    proof {
        crate::frame::fitted_frames_respect_limits(limits, width as u32, height as u32);
        assert(pixels.len() == width * height * 3);
    }
    let native = fitted.width == width as u32 && fitted.height == height as u32;
    let pixels = if native {
        pixels
    } else {
        resize_rgb(pixels, width as u32, height as u32, fitted)
    };
    CapturedFrame {
        pixels,
        width: fitted.width,
        height: fitted.height,
        target: target_name(display, screen),
    }
}

/// The identifier of the visual that a capture is in: the reported one, or the root window's where
/// none was reported.
pub open spec fn capture_visual(reported_visual: u32, root_visual: u32) -> u32 {
    if reported_visual == 0 {
        root_visual
    } else {
        reported_visual
    }
}

/// Why a root window cannot be captured, if it cannot: its image cannot be read, or its visual is
/// unknown or has no colors that can be decoded.
pub open spec fn capture_fault(
    image: RootImageView,
    visuals: Seq<Visual>,
    visual_id: u32,
) -> Option<CuErrorView> {
    if !image.readable() {
        Some(failure(ErrorCode::CaptureFailed, image.pixel(0, 0)->Err_0))
    } else {
        match first_visual(visuals, visual_id) {
            None => Some(
                failure(
                    ErrorCode::CaptureFailed,
                    "X11 root visual 0x"@ + hexadecimal(visual_id as nat) + " is unavailable"@,
                ),
            ),
            Some(visual) => if decodable(visual) {
                None
            } else {
                Some(
                    failure(
                        ErrorCode::CaptureFailed,
                        "unsupported X11 root visual: "@ + visual.samples(0)->Err_0,
                    ),
                )
            },
        }
    }
}

fn read_samples(image: &RootImage, visual: Visual) -> (samples: Vec<(u16, u16, u16)>)
    requires
        image.width > 0,
        scalable(image.width as u32, image.height as u32),
        image@.readable(),
        decodable(visual),
    ensures
        samples@ == image@.samples(visual),
{
    let width: usize = image.width as usize;
    assert(image.width * image.height <= 65535 * 65535) by (nonlinear_arith)
        requires
            image.width <= 65535,
            image.height <= 65535,
    ;
    let count: usize = width * image.height as usize;
    let mut samples: Vec<(u16, u16, u16)> = Vec::new();
    let mut n: usize = 0;
    while n < count
        invariant
            n <= count,
            width == image.width,
            width > 0,
            count == image.width * image.height,
            scalable(image.width as u32, image.height as u32),
            image@.readable(),
            decodable(visual),
            samples@ == image@.samples(visual).take(n as int),
        decreases count - n,
    {
        assert(n / width < image.height) by (nonlinear_arith)
            requires
                n < width * image.height,
                width > 0,
        ;
        let x: u16 = (n % width) as u16;
        let y: u16 = (n / width) as u16;
        let pixel: u32 = match pixel_at(image, x, y) {
            Ok(pixel) => pixel,
            Err(_) => 0,
        };
        let sample = match decode_pixel(visual, pixel) {
            Ok(sample) => sample,
            Err(_) => (0, 0, 0),
        };
        assert(sample == image@.samples(visual)[n as int]);
        samples.push(sample);
        n += 1;
        assert(samples@ =~= image@.samples(visual).take(n as int));
    }
    assert(samples@ =~= image@.samples(visual));
    samples
}

/// The frame of a captured root window: each pixel of its image decoded by its visual, packed into
/// bytes, and scaled down to the limits.
pub fn capture_root(
    image: &RootImage,
    visuals: &Vec<Visual>,
    reported_visual: u32,
    root_visual: u32,
    limits: CaptureLimits,
    display: &str,
    screen: usize,
) -> (result: Result<CapturedFrame, CuError>)
    requires
        limits.usable(),
        image.width > 0,
        image.height > 0,
        scalable(image.width as u32, image.height as u32),
    ensures
        ({
            let visual_id = capture_visual(reported_visual, root_visual);
            match result {
                Ok(frame) => {
                    &&& capture_fault(image@, visuals@, visual_id) is None
                    &&& first_visual(visuals@, visual_id) matches Some(visual) && shows_samples(
                        image@.samples(visual),
                        image.width,
                        image.height,
                        limits,
                        frame@,
                    )
                    &&& frame@.target == screen_target(display@, screen as nat)
                },
                Err(error) => capture_fault(image@, visuals@, visual_id) == Some(error@),
            }
        }),
{
    if let Err(message) = pixel_at(image, 0, 0) {
        return Err(CuError::new(ErrorCode::CaptureFailed, &message));
    }
    let visual_id: u32 = if reported_visual == 0 {
        root_visual
    } else {
        reported_visual
    };
    let visual = match find_visual(visuals, visual_id) {
        Some(visual) => visual,
        None => {
            let mut message = "X11 root visual 0x".to_owned();
            push_hexadecimal(&mut message, visual_id as u64);
            message.append(" is unavailable");
            return Err(CuError::new(ErrorCode::CaptureFailed, &message));
        },
    };
    if let Err(detail) = decode_pixel(visual, 0) {
        let mut message = "unsupported X11 root visual: ".to_owned();
        message.append(&detail);
        return Err(CuError::new(ErrorCode::CaptureFailed, &message));
    }
    let samples = read_samples(image, visual);
    Ok(capture_samples(&samples, image.width, image.height, limits, display, screen))
}

} // verus!
