//! How an X11 display is made ready for input, what ends that, and what its captures show.
use vstd::prelude::*;

use crate::frame::{CaptureLimits, FrameView};
use crate::keymap::{journal_in, RecoverOp};
use crate::pointer_laws::{
    modifiers_are_listed_once, samples_keep_their_upper_bits, stuck_modifiers_are_down,
    the_first_match_is_found,
};
use crate::protocol::{CuErrorView, Viewport};
use crate::x11::{capture_fault, capture_visual, decodable, shows_samples, RootImageView, Visual};
use crate::x11_keyboard::{KeyboardEventView, KeyboardStartView, KeyboardStep, NormalizeOp};
use crate::x11_session::{ClaimStep, ClaimView, DisplayEventView, DisplayStart, StartStep};

verus! {

/// Whether a list of devices has one of a use.
pub open spec fn has_use(devices: Seq<(u8, u8)>, usage: u8) -> bool {
    exists|i: int| 0 <= i < devices.len() && (#[trigger] devices[i]).0 == usage
}

/// A display is asked for its input extension once it is connected to a screen that it has, then
/// for its keyboard extension, for its devices once that extension is supported, and its keyboard
/// is prepared once there is a core pointer, of use 0, and a core keyboard, of use 1. Anything
/// else ends the start: as a target that is gone without a connection, as unsupported input where
/// something is missing, and as failed input where the server failed.
pub proof fn displays_start_step_by_step(start: DisplayStart, event: DisplayEventView)
    requires
        start.expects(event),
    ensures
        start.step is Connect ==> match event {
            DisplayEventView::Connected { screen, screens } if screen < screens => start.next(event)
                == Ok::<StartStep, CuErrorView>(StartStep::QueryTest),
            _ => start.next(event) matches Err(error) && error.code is TargetGone,
        },
        !(start.step is Connect) && event is Failed ==> (start.next(event) matches Err(error)
            && error.code is InputFailed),
        start.step is QueryTest && event is Done ==> start.next(event) == Ok::<
            StartStep,
            CuErrorView,
        >(StartStep::QueryKeyboard),
        start.step is QueryKeyboard ==> (event matches DisplayEventView::Keyboard { supported, .. }
            ==> if supported {
            start.next(event) == Ok::<StartStep, CuErrorView>(StartStep::ListDevices)
        } else {
            start.next(event) matches Err(error) && error.code is UnsupportedInput
        }),
        start.step is ListDevices ==> (event matches DisplayEventView::Devices(devices)
            ==> if has_use(devices, 0) && has_use(devices, 1) {
            start.next(event) == Ok::<StartStep, CuErrorView>(StartStep::PrepareKeyboard)
        } else {
            start.next(event) matches Err(error) && error.code is UnsupportedInput
        }),
{
    if let DisplayEventView::Devices(devices) = event {
        the_first_match_is_found(devices, 0, Seq::empty(), 0);
        the_first_match_is_found(devices, 1, Seq::empty(), 0);
    }
}

/// A claim after a series of answers of the display.
pub open spec fn claim_after(claim: ClaimView, events: Seq<DisplayEventView>) -> Result<
    ClaimView,
    CuErrorView,
>
    decreases events.len(),
{
    if events.len() == 0 {
        Ok(claim)
    } else {
        match claim_after(claim, events.drop_last()) {
            Ok(before) => before.next(events.last()),
            Err(error) => Err(error),
        }
    }
}

/// The claim that nothing was asked for yet.
pub open spec fn claim_begun() -> ClaimView {
    ClaimView {
        step: ClaimStep::InternOwner,
        owner_atom: 0,
        journal_atom: 0,
        owner_window: 0,
        refusal: None,
    }
}

/// The keyboard map is claimed by asking for two atoms and a window, which is created, by keeping
/// other clients out, and by taking the selection where nobody has it. It is held exactly where
/// the display then names this window as the owner, and after the other clients were let in again;
/// with another owner before or after the claim they are let in as well, and the claim is refused
/// as a conflict.
pub proof fn claims_are_held_by_one_owner(
    owner_atom: u32,
    journal_atom: u32,
    window: u32,
    before: u32,
    after: u32,
)
    ensures
        ({
            let asked = seq![
                DisplayEventView::Identifier(owner_atom),
                DisplayEventView::Identifier(journal_atom),
                DisplayEventView::Identifier(window),
                DisplayEventView::Done,
                DisplayEventView::Done,
            ];
            let queried = asked.push(DisplayEventView::Identifier(before));
            let confirmed = queried.push(DisplayEventView::Done).push(
                DisplayEventView::Identifier(after),
            );
            let held = confirmed.push(DisplayEventView::Done).push(DisplayEventView::Done);
            &&& claim_after(claim_begun(), asked) matches Ok(claim) && claim.step is QueryOwner
            &&& before != 0 ==> {
                &&& claim_after(claim_begun(), queried) matches Ok(claim) && claim.step is Ungrab
                &&& claim_after(claim_begun(), queried.push(DisplayEventView::Done)) matches Err(
                    error,
                ) && error.code is LeaseConflict
            }
            &&& before == 0 ==> {
                &&& claim_after(claim_begun(), queried) matches Ok(claim) && claim.step is SetOwner
                &&& claim_after(claim_begun(), confirmed) matches Ok(claim) && claim.step is Ungrab
                &&& after != window ==> (claim_after(
                    claim_begun(),
                    confirmed.push(DisplayEventView::Done),
                ) matches Err(error) && error.code is LeaseConflict)
                &&& after == window ==> claim_after(claim_begun(), held) == Ok::<
                    ClaimView,
                    CuErrorView,
                >(
                    ClaimView {
                        step: ClaimStep::Held,
                        owner_atom,
                        journal_atom,
                        owner_window: window,
                        refusal: None,
                    },
                )
            }
        }),
{
    let none = Seq::<DisplayEventView>::empty();
    let e1 = none.push(DisplayEventView::Identifier(owner_atom));
    let e2 = e1.push(DisplayEventView::Identifier(journal_atom));
    let e3 = e2.push(DisplayEventView::Identifier(window));
    let e4 = e3.push(DisplayEventView::Done);
    let e5 = e4.push(DisplayEventView::Done);
    let e6 = e5.push(DisplayEventView::Identifier(before));
    let e7 = e6.push(DisplayEventView::Done);
    let e8 = e7.push(DisplayEventView::Identifier(after));
    let e9 = e8.push(DisplayEventView::Done);
    let e10 = e9.push(DisplayEventView::Done);
    assert(claim_after(claim_begun(), none) == Ok::<ClaimView, CuErrorView>(claim_begun()));
    assert(e1.drop_last() =~= none);
    assert(e2.drop_last() =~= e1);
    assert(e3.drop_last() =~= e2);
    assert(e4.drop_last() =~= e3);
    assert(e5.drop_last() =~= e4);
    assert(e6.drop_last() =~= e5);
    assert(e7.drop_last() =~= e6);
    assert(e8.drop_last() =~= e7);
    assert(e9.drop_last() =~= e8);
    assert(e10.drop_last() =~= e9);
    assert(claim_after(claim_begun(), e1) is Ok);
    assert(claim_after(claim_begun(), e2) is Ok);
    assert(claim_after(claim_begun(), e3) is Ok);
    assert(claim_after(claim_begun(), e4) is Ok);
    assert(claim_after(claim_begun(), e5) is Ok);
    assert(e5 =~= seq![
        DisplayEventView::Identifier(owner_atom),
        DisplayEventView::Identifier(journal_atom),
        DisplayEventView::Identifier(window),
        DisplayEventView::Done,
        DisplayEventView::Done,
    ]);
}

/// Whatever fails while other clients are kept out, they are let in again before the failure is
/// told; at any other time it is told at once.
pub proof fn failed_claims_let_others_in(claim: ClaimView, detail: Seq<char>, event: DisplayEventView)
    requires
        claim.valid(),
        !(claim.step is Held),
    ensures
        ({
            let failed = claim.next(DisplayEventView::Failed(detail));
            if claim.step is QueryOwner || claim.step is SetOwner || claim.step is ConfirmOwner {
                failed matches Ok(after) && after.step is Ungrab && (after.next(event) matches Err(
                    error,
                ) && error.code is InputFailed && error.message == detail)
            } else if claim.step is Ungrab {
                claim.refusal matches Some(error) ==> failed == Err::<ClaimView, CuErrorView>(error)
            } else {
                failed matches Err(error) && error.code is InputFailed && error.message == detail
            }
        }),
{
}

/// A keyboard is prepared in one order: its modifiers are read, those that are down are released
/// one after the other and everything is unlocked, the keyboard map is claimed, an earlier owner's
/// journal is read and followed to its end, and the map of the whole range is read. A failure at
/// any point is told as it is.
pub proof fn keyboards_are_prepared_step_by_step(start: KeyboardStartView, event: KeyboardEventView)
    requires
        start.valid(),
        start.expects(event),
    ensures
        event matches KeyboardEventView::Failed(error) ==> start.next(event) == Err::<
            KeyboardStartView,
            CuErrorView,
        >(error),
        event matches KeyboardEventView::Modifiers(keycodes) ==> (start.next(event) matches Ok(
            after,
        ) && after.step is QueryKeys && after.modifiers.no_duplicates() && forall|keycode: u8|
            #[trigger]
            after.modifiers.contains(keycode) <==> keycode != 0 && keycodes.contains(keycode)),
        event matches KeyboardEventView::Pressed(pressed) ==> (start.next(event) matches Ok(after)
            && (forall|keycode: u8| #[trigger]
            after.stuck.contains(keycode) <==> start.modifiers.contains(keycode) && (
            pressed[keycode as int / 8] >> (keycode % 8)) % 2 == 1) && after.step == (
        KeyboardStep::Normalize(
            if after.stuck.len() > 0 {
                NormalizeOp::Release(after.stuck[0])
            } else {
                NormalizeOp::Unlock
            },
        ))),
        start.step matches KeyboardStep::Normalize(op) ==> event is Done ==> match op {
            NormalizeOp::Release(keycode) => keycode == start.stuck[start.done as int] && (
            start.next(event) matches Ok(after) && after.done == start.done + 1 && after.stuck
                == start.stuck && after.step == (KeyboardStep::Normalize(
                if start.done + 1 < start.stuck.len() {
                    NormalizeOp::Release(start.stuck[start.done as int + 1])
                } else {
                    NormalizeOp::Unlock
                },
            ))),
            NormalizeOp::Unlock => start.done == start.stuck.len() && (start.next(
                event,
            ) matches Ok(after) && after.step is Claim),
        },
        start.step is Claim && event is Done ==> (start.next(event) matches Ok(after) && after.step
            is ReadJournal),
        event matches KeyboardEventView::Journal(property) ==> match journal_in(property) {
            Ok(Some(journal)) => match start.next(event) {
                Ok(after) => after.journal == journal && after.step == (KeyboardStep::Recover(
                    if journal.borrowed.len() > 0 {
                        RecoverOp::Clear(journal.borrowed[0])
                    } else {
                        RecoverOp::DeleteJournal
                    },
                )),
                Err(error) => error.code is InputFailed && journal.borrowed.len() > 0,
            },
            Ok(None) => match start.next(event) {
                Ok(after) => after.step == (KeyboardStep::ReadMap {
                    count: (start.max_keycode - start.min_keycode + 1) as u8,
                }),
                Err(error) => error.code is InputFailed && (start.max_keycode < start.min_keycode
                    || start.min_keycode == 0 && start.max_keycode == 255),
            },
            Err(error) => start.next(event) == Err::<KeyboardStartView, CuErrorView>(error),
        },
        (start.step is Recover && start.step != KeyboardStep::Recover(RecoverOp::Sync) && event is Done)
            ==> start.done <= start.journal.borrowed.len() && match start.next(event) {
            Ok(after) => after.done == start.done + 1 && after.journal == start.journal
                && after.step == (KeyboardStep::Recover(
                if start.done + 1 < start.journal.borrowed.len() {
                    RecoverOp::Clear(start.journal.borrowed[start.done as int + 1])
                } else if start.done + 1 == start.journal.borrowed.len() {
                    RecoverOp::DeleteJournal
                } else {
                    RecoverOp::Sync
                },
            )),
            Err(error) => error.code is InputFailed && start.done + 1
                < start.journal.borrowed.len(),
        },
        start.step == KeyboardStep::Recover(RecoverOp::Sync) && event is Done ==> match start.next(
            event,
        ) {
            Ok(after) => after.step == (KeyboardStep::ReadMap {
                count: (start.max_keycode - start.min_keycode + 1) as u8,
            }),
            Err(error) => error.code is InputFailed && (start.max_keycode < start.min_keycode
                || start.min_keycode == 0 && start.max_keycode == 255),
        },
        start.step is ReadMap ==> (event matches KeyboardEventView::Symbols {
            keysyms_per_keycode,
            keysyms,
        } ==> match start.next(event) {
            Ok(after) => after.step is Ready && (after.keymap matches Some(keymap)
                && keymap.min_keycode == start.min_keycode && keymap.keysyms == keysyms
                && keymap.keysyms_per_keycode == keysyms_per_keycode && keymap.borrowed.len() == 0
                && keymap.mapped.len() == 0 && keymap.held == Seq::new(256, |i: int| false)),
            Err(error) => error.code is UnsupportedInput,
        }),
{
    if let KeyboardEventView::Modifiers(keycodes) = event {
        modifiers_are_listed_once(keycodes);
    }
    if let KeyboardEventView::Pressed(pressed) = event {
        assert forall|keycode: u8| #[trigger]
            (start.next(event)->Ok_0).stuck.contains(keycode) <==> start.modifiers.contains(keycode)
                && (pressed[keycode as int / 8] >> (keycode % 8)) % 2 == 1 by {
            stuck_modifiers_are_down(pressed, start.modifiers, keycode);
        }
    }
}

/// A capture of the root window that needs no scaling shows each pixel by the upper bits of the
/// samples that the window's visual gives for the value of that pixel, in rows from the top left.
pub proof fn captures_show_each_pixel(
    image: RootImageView,
    visual: Visual,
    limits: CaptureLimits,
    frame: FrameView,
    x: int,
    y: int,
)
    requires
        shows_samples(image.samples(visual), image.width, image.height, limits, frame),
        limits.fitted(image.width as u32, image.height as u32) == (Viewport {
            width: image.width as u32,
            height: image.height as u32,
        }),
        0 <= x < image.width,
        0 <= y < image.height,
    ensures
        frame.width == image.width,
        frame.height == image.height,
        ({
            let at = (y * image.width + x) * 3;
            let value = image.pixel(x as u16, y as u16)->Ok_0;
            let (red, green, blue) = visual.samples(value)->Ok_0;
            &&& 0 <= at && at + 2 < frame.pixels.len()
            &&& red - 256 < 256 * frame.pixels[at] <= red
            &&& green - 256 < 256 * frame.pixels[at + 1] <= green
            &&& blue - 256 < 256 * frame.pixels[at + 2] <= blue
        }),
{
    let width = image.width as int;
    let i = y * width + x;
    let samples = image.samples(visual);
    assert(0 <= i < width * image.height) by (nonlinear_arith)
        requires
            0 <= x < width,
            0 <= y < image.height,
            i == y * width + x,
    ;
    assert(i % width == x && i / width == y) by {
        vstd::arithmetic::div_mod::lemma_fundamental_div_mod_converse(i, width, y, x);
    }
    samples_keep_their_upper_bits(samples, i);
    assert(samples[i] == visual.samples(image.pixel(x as u16, y as u16)->Ok_0)->Ok_0);
}

/// A capture succeeds exactly where the image can be read and the display lists a visual of the
/// image's identifier, or of the root window's where the image has none, whose pixels can be
/// decoded; the first such visual counts.
pub proof fn captures_need_a_known_visual(
    image: RootImageView,
    visuals: Seq<Visual>,
    reported: u32,
    root: u32,
)
    ensures
        ({
            let id = if reported == 0 {
                root
            } else {
                reported
            };
            let fault = capture_fault(image, visuals, capture_visual(reported, root));
            &&& fault is None ==> image.readable() && exists|i: int|
                {
                    &&& 0 <= i < visuals.len()
                    &&& (#[trigger] visuals[i]).id == id
                    &&& decodable(visuals[i])
                    &&& forall|j: int| 0 <= j < i ==> (#[trigger] visuals[j]).id != id
                }
            &&& image.readable() && (exists|i: int|
                0 <= i < visuals.len() && (#[trigger] visuals[i]).id == id) && (forall|i: int|
                0 <= i < visuals.len() && (#[trigger] visuals[i]).id == id ==> decodable(
                    visuals[i],
                )) ==> fault is None
            &&& fault matches Some(error) ==> error.code is CaptureFailed
        }),
{
    let id = capture_visual(reported, root);
    the_first_match_is_found(Seq::empty(), 0, visuals, id);
}

} // verus!
