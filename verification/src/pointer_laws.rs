//! What the pointer is made to do for an action, and on which display.
use vstd::prelude::*;

use crate::backend::{
    lowered, nonblank, resolved, BackendChoice, BackendError, EnvironmentView, ResolvedView,
};
use crate::keys::{key_named, normalized, trimmed};
use crate::niri::{output_target, selected_output, supported_keys, wayland_steps, WaylandStep};
use crate::pointer::{wheel_follows_the_distance, wheel_reaches_the_distance};
use crate::protocol::{ActionView, CuErrorView, MouseButton, Point};
use crate::text::decimal;
use crate::text_laws::decimals_tell_their_number;
use crate::x11::{
    char_keysym, characters_failure, first_device, first_visual, high_bytes, listed_modifiers,
    names_failure, pressed_modifiers, screen_target, Visual,
};
use crate::x11_session::{click_events, pointer_steps, wheel_step, PointerStep};

verus! {

/// Whether a wheel is turned by as many notches of 120 units as cover a distance, and by the button
/// of its direction.
pub open spec fn turns_wheel(
    step: PointerStep,
    distance: i32,
    backward: u8,
    forward: u8,
) -> bool {
    step matches PointerStep::Wheel { button, count } && {
        &&& distance < 0 ==> button == backward && 120 * (count - 1) < -distance <= 120 * count
        &&& distance > 0 ==> button == forward && 120 * (count - 1) < distance <= 120 * count
        &&& distance == 0 ==> count == 0
    }
}

proof fn wheel_steps_turn_the_wheel(distance: i32, backward: u8, forward: u8)
    ensures
        turns_wheel(wheel_step(distance, backward, forward), distance, backward, forward),
{
    wheel_follows_the_distance(distance as int);
    wheel_reaches_the_distance(distance as int);
}

/// On X11 the pointer first goes to the pixel that an action names. A click then uses the button
/// that is asked for, by its number, and holds it as long as is asked for; a double click is two
/// clicks of the first button on the same pixel, 60 milliseconds apart; a drag starts at the first
/// point of its path; scrolling turns the wheel by buttons 6 and 7 across and by 4 and 5 along.
/// Text and keys move no pointer.
pub proof fn x11_pointers_follow_the_action(action: ActionView)
    ensures
        action matches ActionView::Move { x, y, .. } ==> pointer_steps(action) == seq![
            PointerStep::Move { point: Point { x, y } },
        ],
        action matches ActionView::Click { x, y, button, duration_ms, .. } ==> {
            let steps = pointer_steps(action);
            &&& steps.len() == 2
            &&& steps[0] == (PointerStep::Move { point: Point { x, y } })
            &&& steps[1] matches PointerStep::Click { button: number, hold_ms } && hold_ms
                == duration_ms && (number == 1 <==> button is Left) && (number == 2 <==> button
                is Wheel) && (number == 3 <==> button is Right) && (number == 8 <==> button is Back)
                && (number == 9 <==> button is Forward)
        },
        action matches ActionView::DoubleClick { x, y, .. } ==> pointer_steps(action) == seq![
            PointerStep::Move { point: Point { x, y } },
            PointerStep::Click { button: 1, hold_ms: 0 },
            PointerStep::Pause { ms: 60 },
            PointerStep::Move { point: Point { x, y } },
            PointerStep::Click { button: 1, hold_ms: 0 },
        ],
        action matches ActionView::Drag { path, .. } ==> pointer_steps(action) == seq![
            PointerStep::Move { point: path[0] },
            PointerStep::Drag,
        ],
        action matches ActionView::Scroll { x, y, scroll_x, scroll_y, .. } ==> {
            let steps = pointer_steps(action);
            &&& steps.len() == 3
            &&& steps[0] == (PointerStep::Move { point: Point { x, y } })
            &&& turns_wheel(steps[1], scroll_x, 6, 7)
            &&& turns_wheel(steps[2], scroll_y, 4, 5)
        },
        action is Type || action is Keypress ==> pointer_steps(action).len() == 0,
{
    if let ActionView::Scroll { scroll_x, scroll_y, .. } = action {
        wheel_steps_turn_the_wheel(scroll_x, 6, 7);
        wheel_steps_turn_the_wheel(scroll_y, 4, 5);
    }
}

/// Whether a number of notches of 120 units covers a distance in its direction.
pub open spec fn covers_distance(ticks: i32, distance: i32) -> bool {
    &&& distance < 0 ==> ticks < 0 && 120 * ticks <= distance < 120 * (ticks + 1)
    &&& distance > 0 ==> ticks > 0 && 120 * (ticks - 1) < distance <= 120 * ticks
    &&& distance == 0 ==> ticks == 0
}

/// On Wayland the pointer does for an action what it does on X11: the same pixels, buttons, times
/// and notches, but a wheel that is not to be turned is left alone.
pub proof fn wayland_pointers_follow_the_action(action: ActionView)
    ensures
        action matches ActionView::Move { x, y, .. } ==> wayland_steps(action) == seq![
            WaylandStep::Move { point: Point { x, y } },
        ],
        action matches ActionView::Click { x, y, button, duration_ms, .. } ==> wayland_steps(action)
            == seq![
            WaylandStep::Move { point: Point { x, y } },
            WaylandStep::Click { button, hold_ms: duration_ms },
        ],
        action matches ActionView::DoubleClick { x, y, .. } ==> wayland_steps(action) == seq![
            WaylandStep::Move { point: Point { x, y } },
            WaylandStep::Click { button: MouseButton::Left, hold_ms: 0 },
            WaylandStep::Pause { ms: 60 },
            WaylandStep::Move { point: Point { x, y } },
            WaylandStep::Click { button: MouseButton::Left, hold_ms: 0 },
        ],
        action matches ActionView::Drag { path, .. } ==> wayland_steps(action) == seq![
            WaylandStep::Move { point: path[0] },
            WaylandStep::Drag,
        ],
        action matches ActionView::Scroll { x, y, scroll_x, scroll_y, .. } ==> {
            let steps = wayland_steps(action);
            let across: int = if scroll_x == 0 {
                0
            } else {
                1
            };
            let along: int = if scroll_y == 0 {
                0
            } else {
                1
            };
            &&& steps.len() == 1 + across + along
            &&& steps[0] == (WaylandStep::Move { point: Point { x, y } })
            &&& scroll_x != 0 ==> (steps[1] matches WaylandStep::ScrollHorizontal { ticks }
                && covers_distance(ticks, scroll_x))
            &&& scroll_y != 0 ==> (steps[1 + across] matches WaylandStep::ScrollVertical { ticks }
                && covers_distance(ticks, scroll_y))
        },
        action is Type || action is Keypress ==> wayland_steps(action).len() == 0,
{
    if let ActionView::Scroll { scroll_x, scroll_y, .. } = action {
        wheel_follows_the_distance(scroll_x as int);
        wheel_reaches_the_distance(scroll_x as int);
        wheel_follows_the_distance(scroll_y as int);
        wheel_reaches_the_distance(scroll_y as int);
    }
}

/// A wheel button that is clicked a number of times goes down and up in turn, down first, that
/// often.
pub proof fn wheel_buttons_go_down_and_up(count: nat)
    ensures
        click_events(count).len() == 2 * count,
        forall|i: int|
            #![trigger click_events(count)[2 * i]]
            0 <= i < count ==> click_events(count)[2 * i] && !click_events(count)[2 * i + 1],
{
}

/// An X11 display is driven exactly where one is asked for or found and nothing speaks for
/// Wayland; the display that is named comes before the one of the environment. Wayland is driven
/// exactly where its display is known, no X11 display is named, and it is asked for or the session
/// is not an X11 one.
pub proof fn displays_are_driven_as_asked(
    choice: BackendChoice,
    display: Option<Seq<char>>,
    output: Option<Seq<char>>,
    environment: EnvironmentView,
    named: Seq<char>,
)
    ensures
        resolved(choice, display, output, environment) == Ok::<ResolvedView, BackendError>(
            ResolvedView::Wayland,
        ) <==> {
            &&& display is None
            &&& environment.wayland_display is Some
            &&& choice is Wayland || choice is Auto && (output is Some || environment.session_type
                != Some("x11"@))
        },
        resolved(choice, display, output, environment) == Ok::<ResolvedView, BackendError>(
            ResolvedView::X11 { display: named },
        ) <==> {
            &&& output is None
            &&& display == Some(named) || display is None && environment.x11_display == Some(named)
            &&& choice is X11 || choice is Auto && (display is Some || environment.session_type
                == Some("x11"@) || environment.session_type != Some("wayland"@)
                && environment.wayland_display is None)
        },
        resolved(choice, display, output, environment) matches Err(error) ==> match error {
            BackendError::TwoTargets => display is Some && output is Some,
            BackendError::DisplayNeedsX11 => choice is Wayland && display is Some && output is None,
            BackendError::OutputNeedsWayland => choice is X11 && output is Some && display is None,
            BackendError::NoWaylandDisplay => environment.wayland_display is None && !(choice is X11),
            BackendError::NoX11Display => display is None && environment.x11_display is None && !(
            choice is Wayland),
            BackendError::NoSession => choice is Auto && environment.wayland_display is None
                && environment.x11_display is None,
        },
{
    reveal_strlit("wayland");
    reveal_strlit("x11");
    assert("wayland"@.len() != "x11"@.len());
}

/// The only active output is the one that is driven; none, or more than one, or another one than
/// was asked for is refused.
pub proof fn the_only_output_is_driven(
    outputs: Seq<Seq<char>>,
    requested: Option<Seq<char>>,
    output: Seq<char>,
)
    ensures
        selected_output(outputs, requested) == Ok::<Seq<char>, CuErrorView>(output) <==> outputs
            == seq![output] && (requested is None || requested == Some(output)),
        selected_output(outputs, requested) matches Err(error) ==> (error.code is UnsupportedInput
            <==> outputs.len() > 1) && (error.code is TargetGone <==> outputs.len() <= 1),
{
    if outputs.len() == 1 {
        assert(outputs =~= seq![outputs[0]]);
    }
}

/// The keys to hold are those that the names stand for, one for each, in order. They are refused
/// where some name stands for no key.
pub proof fn every_name_is_held(names: Seq<Seq<char>>)
    ensures
        supported_keys(names) is Ok <==> forall|i: int|
            0 <= i < names.len() ==> key_named(normalized(#[trigger] names[i])) is Some,
        supported_keys(names) matches Ok(keys) ==> keys.len() == names.len() && forall|i: int|
            0 <= i < names.len() ==> key_named(normalized(#[trigger] names[i])) == Some(keys[i]),
        supported_keys(names) matches Err(error) ==> error.code is UnsupportedInput,
    decreases names.len(),
{
    if names.len() > 0 {
        let shorter = names.drop_last();
        let last = names.len() - 1;
        every_name_is_held(shorter);
        assert(names.last() == names[last]);
        assert forall|i: int| 0 <= i < shorter.len() implies #[trigger] names[i] == shorter[i] by {
        }
        assert forall|i: int| 0 <= i < shorter.len() implies #[trigger] shorter[i] == names[i] by {
        }
        if supported_keys(names) is Ok {
            assert forall|i: int| 0 <= i < names.len() implies key_named(
                normalized(#[trigger] names[i]),
            ) is Some by {
                if i < last {
                    assert(names[i] == shorter[i]);
                }
            }
        } else if supported_keys(shorter) is Ok {
            assert(key_named(normalized(names[last])) is None);
        } else {
            let i = choose|i: int|
                0 <= i < shorter.len() && key_named(normalized(#[trigger] shorter[i])) is None;
            assert(key_named(normalized(names[i])) is None);
        }
    }
}

/// X11 refuses names exactly where one of them stands for no key, and text exactly where it has no
/// symbol for one of its characters.
pub proof fn x11_takes_known_keys_and_characters(names: Seq<Seq<char>>, text: Seq<char>)
    ensures
        names_failure(names) is None <==> forall|i: int|
            0 <= i < names.len() ==> key_named(normalized(#[trigger] names[i])) is Some,
        names_failure(names) matches Some(error) ==> error.code is UnsupportedInput,
        characters_failure(text) is None <==> forall|i: int|
            0 <= i < text.len() ==> char_keysym(#[trigger] text[i]) != 0,
        characters_failure(text) matches Some(error) ==> error.code is UnsupportedInput,
    decreases names.len() + text.len(),
{
    if names.len() > 0 {
        let shorter = names.drop_last();
        let last = names.len() - 1;
        x11_takes_known_keys_and_characters(shorter, text);
        assert(names.last() == names[last]);
        if names_failure(names) is None {
            assert forall|i: int| 0 <= i < names.len() implies key_named(
                normalized(#[trigger] names[i]),
            ) is Some by {
                if i < last {
                    assert(names[i] == shorter[i]);
                }
            }
        } else if names_failure(shorter) is None {
            assert(key_named(normalized(names[last])) is None);
        } else {
            let i = choose|i: int|
                0 <= i < shorter.len() && key_named(normalized(#[trigger] shorter[i])) is None;
            assert(key_named(normalized(names[i])) is None);
        }
    }
    if text.len() > 0 {
        let shorter = text.drop_last();
        let last = text.len() - 1;
        x11_takes_known_keys_and_characters(names, shorter);
        assert(text.last() == text[last]);
        if characters_failure(text) is None {
            assert forall|i: int| 0 <= i < text.len() implies char_keysym(#[trigger] text[i]) != 0 by {
                if i < last {
                    assert(text[i] == shorter[i]);
                }
            }
        } else if characters_failure(shorter) is None {
            assert(char_keysym(text[last]) == 0);
        } else {
            let i = choose|i: int|
                0 <= i < shorter.len() && char_keysym(#[trigger] shorter[i]) == 0;
            assert(char_keysym(text[i]) == 0);
        }
    }
}

/// The device of a use is the first one in the list that has it, and the visual of an identifier
/// the first one that bears it.
pub proof fn the_first_match_is_found(
    devices: Seq<(u8, u8)>,
    usage: u8,
    visuals: Seq<Visual>,
    id: u32,
)
    ensures
        first_device(devices, usage) is None <==> forall|i: int|
            0 <= i < devices.len() ==> (#[trigger] devices[i]).0 != usage,
        first_device(devices, usage) matches Some(device) ==> exists|i: int|
            0 <= i < devices.len() && #[trigger] devices[i] == (usage, device) && forall|j: int|
                0 <= j < i ==> (#[trigger] devices[j]).0 != usage,
        first_visual(visuals, id) is None <==> forall|i: int|
            0 <= i < visuals.len() ==> (#[trigger] visuals[i]).id != id,
        first_visual(visuals, id) matches Some(visual) ==> exists|i: int|
            0 <= i < visuals.len() && #[trigger] visuals[i] == visual && visual.id == id
                && forall|j: int| 0 <= j < i ==> (#[trigger] visuals[j]).id != id,
    decreases devices.len() + visuals.len(),
{
    if devices.len() > 0 {
        let rest = devices.drop_first();
        the_first_match_is_found(rest, usage, visuals, id);
        if devices[0].0 == usage {
            assert(devices[0] == (usage, devices[0].1));
        } else {
            match first_device(rest, usage) {
                None => {
                    assert forall|i: int| 0 <= i < devices.len() implies (#[trigger] devices[i]).0
                        != usage by {
                        if i > 0 {
                            assert(rest[i - 1] == devices[i]);
                        }
                    }
                },
                Some(device) => {
                    let i = choose|i: int|
                        0 <= i < rest.len() && #[trigger] rest[i] == (usage, device) && forall|
                            j: int,
                        |
                            0 <= j < i ==> (#[trigger] rest[j]).0 != usage;
                    assert(devices[i + 1] == (usage, device));
                    assert forall|j: int| 0 <= j < i + 1 implies (#[trigger] devices[j]).0
                        != usage by {
                        if j > 0 {
                            assert(rest[j - 1] == devices[j]);
                        }
                    }
                },
            }
        }
    }
    if visuals.len() > 0 {
        let rest = visuals.drop_first();
        the_first_match_is_found(devices, usage, rest, id);
        if visuals[0].id == id {
            assert(visuals[0] == visuals[0]);
        } else {
            match first_visual(rest, id) {
                None => {
                    assert forall|i: int| 0 <= i < visuals.len() implies (#[trigger] visuals[i]).id
                        != id by {
                        if i > 0 {
                            assert(rest[i - 1] == visuals[i]);
                        }
                    }
                },
                Some(visual) => {
                    let i = choose|i: int|
                        0 <= i < rest.len() && #[trigger] rest[i] == visual && visual.id == id
                            && forall|j: int| 0 <= j < i ==> (#[trigger] rest[j]).id != id;
                    assert(visuals[i + 1] == visual);
                    assert forall|j: int| 0 <= j < i + 1 implies (#[trigger] visuals[j]).id
                        != id by {
                        if j > 0 {
                            assert(rest[j - 1] == visuals[j]);
                        }
                    }
                },
            }
        }
    }
}

/// A captured pixel has three bytes, red, green and blue: the upper eight bits of its samples.
pub proof fn samples_keep_their_upper_bits(samples: Seq<(u16, u16, u16)>, i: int)
    requires
        0 <= i < samples.len(),
    ensures
        high_bytes(samples).len() == 3 * samples.len(),
        samples[i].0 - 256 < 256 * high_bytes(samples)[3 * i] <= samples[i].0,
        samples[i].1 - 256 < 256 * high_bytes(samples)[3 * i + 1] <= samples[i].1,
        samples[i].2 - 256 < 256 * high_bytes(samples)[3 * i + 2] <= samples[i].2,
{
}

/// A modifier is stuck exactly where it is a modifier and its bit is set among the pressed keys,
/// eight keys to a byte with the lowest one first.
pub proof fn stuck_modifiers_are_down(pressed: Seq<u8>, modifiers: Seq<u8>, keycode: u8)
    requires
        pressed.len() == 32,
    ensures
        pressed_modifiers(pressed, modifiers).contains(keycode) <==> modifiers.contains(keycode) && (
        pressed[keycode as int / 8] >> (keycode % 8)) % 2 == 1,
{
    let byte = pressed[keycode as int / 8];
    let shift: u8 = keycode % 8;
    assert((byte & (1u8 << shift) != 0) <==> (byte >> shift) % 2 == 1) by (bit_vector)
        requires
            shift < 8,
    ;
    filters_keep_what_passes(
        modifiers,
        |key: u8| crate::x11::pressed_bit(pressed, key),
        keycode,
    );
}

proof fn filters_keep_what_passes(values: Seq<u8>, passes: spec_fn(u8) -> bool, value: u8)
    ensures
        values.filter(passes).contains(value) <==> values.contains(value) && passes(value),
    decreases values.len(),
{
    reveal(Seq::filter);
    if values.len() > 0 {
        let shorter = values.drop_last();
        let earlier = shorter.filter(passes);
        let kept = values.filter(passes);
        let last = values.len() - 1;
        filters_keep_what_passes(shorter, passes, value);
        if values.contains(value) && value != values[last] {
            let i = choose|i: int| 0 <= i < values.len() && values[i] == value;
            assert(shorter[i] == value);
        }
        if shorter.contains(value) {
            let i = choose|i: int| 0 <= i < shorter.len() && shorter[i] == value;
            assert(values[i] == value);
        }
        if earlier.contains(value) {
            let i = choose|i: int| 0 <= i < earlier.len() && earlier[i] == value;
            assert(kept[i] == value);
        }
        if passes(values[last]) {
            assert(kept == earlier.push(values[last]));
            assert(kept[earlier.len() as int] == values[last]);
        }
        if kept.contains(value) && !earlier.contains(value) {
            let i = choose|i: int| 0 <= i < kept.len() && kept[i] == value;
            if i < earlier.len() {
                assert(earlier[i] == value);
            }
        }
    }
}

/// Each keycode of the modifier map is a modifier once, in the order of the map; zero is none.
pub proof fn modifiers_are_listed_once(keycodes: Seq<u8>)
    ensures
        listed_modifiers(keycodes).no_duplicates(),
        forall|keycode: u8| #[trigger]
            listed_modifiers(keycodes).contains(keycode) <==> keycode != 0 && keycodes.contains(
                keycode,
            ),
    decreases keycodes.len(),
{
    if keycodes.len() > 0 {
        let shorter = keycodes.drop_last();
        let earlier = listed_modifiers(shorter);
        let all = listed_modifiers(keycodes);
        modifiers_are_listed_once(shorter);
        assert(keycodes =~= shorter.push(keycodes.last()));
        assert forall|keycode: u8| #[trigger]
            all.contains(keycode) <==> keycode != 0 && keycodes.contains(keycode) by {
            assert(keycodes.contains(keycode) <==> shorter.contains(keycode) || keycode
                == keycodes.last()) by {
                if shorter.contains(keycode) {
                    let i = choose|i: int| 0 <= i < shorter.len() && shorter[i] == keycode;
                    assert(keycodes[i] == keycode);
                }
                if keycodes.contains(keycode) && keycode != keycodes.last() {
                    let i = choose|i: int| 0 <= i < keycodes.len() && keycodes[i] == keycode;
                    assert(shorter[i] == keycode);
                }
                assert(keycodes[keycodes.len() - 1] == keycodes.last());
            }
            if earlier.contains(keycode) {
                let i = choose|i: int| 0 <= i < earlier.len() && earlier[i] == keycode;
                assert(all[i] == keycode);
            }
            if all.contains(keycode) && !earlier.contains(keycode) {
                let i = choose|i: int| 0 <= i < all.len() && all[i] == keycode;
                if i < earlier.len() {
                    assert(earlier[i] == keycode);
                }
            }
            if all.len() > earlier.len() {
                assert(all[earlier.len() as int] == keycodes.last());
            }
        }
    }
}

/// X11 takes an action exactly where it knows every key that the action holds or presses, and has
/// a symbol for every character that it types; Wayland takes every text.
pub proof fn actions_need_known_keys(action: ActionView)
    ensures
        action matches ActionView::Move { keys, .. } ==> held_keys_known(action, keys),
        action matches ActionView::Click { keys, .. } ==> held_keys_known(action, keys),
        action matches ActionView::DoubleClick { keys, .. } ==> held_keys_known(action, keys),
        action matches ActionView::Drag { keys, .. } ==> held_keys_known(action, keys),
        action matches ActionView::Scroll { keys, .. } ==> held_keys_known(action, keys),
        action matches ActionView::Keypress { keys } ==> held_keys_known(action, keys),
        action matches ActionView::Type { text } ==> crate::niri::unsupported_action(action) is None
            && (crate::x11::unsupported_action(action) is None <==> forall|i: int|
            0 <= i < text.len() ==> char_keysym(#[trigger] text[i]) != 0),
{
    let names = crate::x11::key_names(action);
    every_name_is_held(names);
    x11_takes_known_keys_and_characters(
        names,
        match action {
            ActionView::Type { text } => text,
            _ => Seq::empty(),
        },
    );
}

/// Whether both display systems take an action exactly where each of its keys has a known name.
pub open spec fn held_keys_known(action: ActionView, keys: Seq<Seq<char>>) -> bool {
    let known = forall|i: int|
        0 <= i < keys.len() ==> key_named(normalized(#[trigger] keys[i])) is Some;
    (crate::x11::unsupported_action(action) is None <==> known) && (
    crate::niri::unsupported_action(action) is None <==> known)
}

/// Blank settings of the environment count as absent, the kind of a session is compared without
/// regard to the case of its letters, and all else is taken as it is.
pub proof fn blank_settings_are_absent(value: Option<Seq<char>>)
    ensures
        nonblank(value) is Some <==> value is Some && trimmed(value->0).len() > 0,
        nonblank(value) matches Some(text) ==> value == Some(text),
        value matches Some(text) ==> lowered(text).len() == text.len() && forall|i: int|
            0 <= i < text.len() ==> #[trigger] lowered(text)[i] == (if 'A' <= text[i] <= 'Z' {
                (text[i] as int + 32) as char
            } else {
                text[i]
            }),
{
}

/// The socket of a Wayland display is its name where that is absolute, and else lies in the runtime
/// directory, which has to be absolute itself.
pub proof fn wayland_sockets_are_absolute(environment: EnvironmentView)
    ensures
        environment.wayland_socket() matches Some(path) ==> path.len() > 0 && path[0] == '/',
        environment.wayland_display matches Some(display) ==> (display.len() > 0 && display[0]
            == '/' ==> environment.wayland_socket() == Some(display)),
        environment.wayland_display is None ==> environment.wayland_socket() is None,
        (environment.wayland_display matches Some(display) && (environment.runtime_dir
            matches Some(directory) && !(display.len() > 0 && display[0] == '/') && directory.len()
            > 0 && directory[0] == '/' && directory.last() != '/')) ==> environment.wayland_socket()
            == Some(environment.runtime_dir->0.push('/') + environment.wayland_display->0),
{
    reveal_strlit("/");
    if let (Some(display), Some(directory)) = (environment.wayland_display, environment.runtime_dir) {
        crate::store_laws::paths_are_joined_by_one_slash(directory, display);
    }
}

/// A further modifier comes behind those before it, if it is down; a further keycode of the
/// modifier map comes behind those before it, if it is not zero and was not there.
pub proof fn modifiers_keep_their_order(pressed: Seq<u8>, modifiers: Seq<u8>, keycode: u8)
    requires
        pressed.len() == 32,
    ensures
        pressed_modifiers(pressed, modifiers.push(keycode)) == (if (pressed[keycode as int / 8] >> (
        keycode % 8)) % 2 == 1 {
            pressed_modifiers(pressed, modifiers).push(keycode)
        } else {
            pressed_modifiers(pressed, modifiers)
        }),
        listed_modifiers(modifiers.push(keycode)) == (if keycode != 0 && !modifiers.contains(
            keycode,
        ) {
            listed_modifiers(modifiers).push(keycode)
        } else {
            listed_modifiers(modifiers)
        }),
        pressed_modifiers(pressed, Seq::empty()).len() == 0,
        listed_modifiers(Seq::empty()).len() == 0,
{
    reveal(Seq::filter);
    let longer = modifiers.push(keycode);
    assert(longer.drop_last() =~= modifiers);
    assert(longer.last() == keycode);
    let byte = pressed[keycode as int / 8];
    let shift: u8 = keycode % 8;
    assert((byte & (1u8 << shift) != 0) <==> (byte >> shift) % 2 == 1) by (bit_vector)
        requires
            shift < 8,
    ;
    modifiers_are_listed_once(modifiers);
    assert(listed_modifiers(modifiers).contains(keycode) <==> keycode != 0 && modifiers.contains(
        keycode,
    ));
}

/// What a frame shows is named by its display and screen on X11, and by its output on Wayland:
/// different ones have different names, and no name is one of both kinds.
pub proof fn targets_are_named_apart(
    display: Seq<char>,
    screen: nat,
    other_display: Seq<char>,
    other_screen: nat,
    output: Seq<char>,
    other_output: Seq<char>,
)
    ensures
        screen_target(display, screen) == screen_target(other_display, screen) ==> display
            == other_display,
        screen_target(display, screen) == screen_target(display, other_screen) ==> screen
            == other_screen,
        output_target(output) == output_target(other_output) ==> output == other_output,
        screen_target(display, screen) != output_target(output),
        "x11:"@.is_prefix_of(screen_target(display, screen)),
        "output:"@.is_prefix_of(output_target(output)),
        output.is_suffix_of(output_target(output)),
{
    reveal_strlit("x11:");
    reveal_strlit("output:");
    let first = screen_target(display, screen);
    let named = output_target(output);
    let lead = "x11:"@.len() as int;
    let tail = ":screen:"@.len() + decimal(screen).len();
    assert(first.subrange(0, lead) =~= "x11:"@);
    assert(named.subrange(0, "output:"@.len() as int) =~= "output:"@);
    assert(named.subrange(named.len() - output.len(), named.len() as int) =~= output);
    assert(first[0] == 'x');
    assert(named[0] == 'o');
    if first == screen_target(other_display, screen) {
        assert(display =~= first.subrange(lead, first.len() - tail));
        assert(other_display =~= first.subrange(lead, first.len() - tail));
    }
    if first == screen_target(display, other_screen) {
        let from = lead + display.len() + ":screen:"@.len();
        assert(decimal(screen) =~= first.subrange(from, first.len() as int));
        assert(decimal(other_screen) =~= first.subrange(from, first.len() as int));
        decimals_tell_their_number(screen);
        decimals_tell_their_number(other_screen);
    }
    if named == output_target(other_output) {
        let from = "output:"@.len() as int;
        assert(output =~= named.subrange(from, named.len() as int));
        assert(other_output =~= named.subrange(from, named.len() as int));
    }
}

} // verus!
