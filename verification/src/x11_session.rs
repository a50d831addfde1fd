//! Opening an X11 display: the checks before it is used, the claim on its keyboard map, and the
//! steps of pointer actions.
use vstd::prelude::*;

use crate::frame::CaptureLimits;
use crate::input::{follows, next_step, Next};
use crate::pointer::{ticks_of, wheel_ticks};
use crate::protocol::{failure, Action, ActionView, CuError, CuErrorView, ErrorCode, Point};
use crate::text::{decimal, push_decimal};
use crate::x11::{
    button_number, check_display, find_device, first_device, map_button, scroll_clicks,
};

verus! {

/// The identifier of no window.
pub const NO_WINDOW: u32 = 0;

/// Use of the core pointer device.
pub const CORE_POINTER: u8 = 0;

/// Use of the core keyboard device.
pub const CORE_KEYBOARD: u8 = 1;

/// How a request to the display ended.
pub enum DisplayEvent {
    Done,
    /// A connection to the screen with an index, and the number of screens.
    Connected { screen: usize, screens: usize },
    /// Whether the keyboard extension is supported, and the server's version of it.
    Keyboard { supported: bool, major: u16, minor: u16 },
    /// The devices: the use and the identifier of each.
    Devices(Vec<(u8, u8)>),
    /// An identifier: of an atom, or of a window.
    Identifier(u32),
    /// The server's diagnostic.
    Failed(String),
}

/// A request's end with its texts as sequences.
pub enum DisplayEventView {
    Done,
    Connected { screen: nat, screens: nat },
    Keyboard { supported: bool, major: u16, minor: u16 },
    Devices(Seq<(u8, u8)>),
    Identifier(u32),
    Failed(Seq<char>),
}

impl View for DisplayEvent {
    type V = DisplayEventView;

    open spec fn view(&self) -> DisplayEventView {
        match *self {
            DisplayEvent::Done => DisplayEventView::Done,
            DisplayEvent::Connected { screen, screens } => DisplayEventView::Connected {
                screen: screen as nat,
                screens: screens as nat,
            },
            DisplayEvent::Keyboard { supported, major, minor } => DisplayEventView::Keyboard {
                supported,
                major,
                minor,
            },
            DisplayEvent::Devices(devices) => DisplayEventView::Devices(devices@),
            DisplayEvent::Identifier(id) => DisplayEventView::Identifier(id),
            DisplayEvent::Failed(detail) => DisplayEventView::Failed(detail@),
        }
    }
}

/// What opening a display does next.
#[derive(Debug, Clone, Copy, PartialEq, Eq, Structural)]
pub enum StartStep {
    Connect,
    /// Ask for the extension that injects input.
    QueryTest,
    /// Ask for the extension that describes the keyboard.
    QueryKeyboard,
    ListDevices,
    /// The devices are known: what is left is to prepare the keyboard.
    PrepareKeyboard,
}

/// A display that is being opened.
pub struct DisplayStart {
    pub display: String,
    pub step: StartStep,
    pub screen: usize,
    pub keyboard_device: u8,
    pub pointer_device: u8,
}

/// The failure of an injected input or a request to the display.
pub open spec fn input_failure(detail: Seq<char>) -> CuErrorView {
    failure(ErrorCode::InputFailed, detail)
}

/// The failure of an injected input or a request to the display.
pub fn input_error(detail: &str) -> (error: CuError)
    ensures
        error@ == input_failure(detail@),
{
    CuError::new(ErrorCode::InputFailed, detail)
}

/// The failure of a display without a device.
pub open spec fn no_device(kind: Seq<char>) -> CuErrorView {
    failure(ErrorCode::UnsupportedInput, "X11 exposes no core "@ + kind + " device"@)
}

/// The failure of a display without the keyboard extension.
pub open spec fn no_keyboard_extension(major: u16, minor: u16) -> CuErrorView {
    failure(
        ErrorCode::UnsupportedInput,
        "X11 server does not support XKB 1.0 (server reports "@ + decimal(major as nat) + "."@
            + decimal(minor as nat) + ")"@,
    )
}

impl DisplayStart {
    /// Whether an event can be the end of the next request.
    pub open spec fn expects(self, event: DisplayEventView) -> bool {
        event is Failed || match self.step {
            StartStep::Connect => event is Connected,
            StartStep::QueryTest => event is Done,
            StartStep::QueryKeyboard => event is Keyboard,
            StartStep::ListDevices => event is Devices,
            StartStep::PrepareKeyboard => false,
        }
    }

    /// The next request after an event, or the failure that ends the opening.
    pub open spec fn next(self, event: DisplayEventView) -> Result<StartStep, CuErrorView> {
        match (self.step, event) {
            (StartStep::Connect, DisplayEventView::Failed(detail)) => Err(
                failure(
                    ErrorCode::TargetGone,
                    "failed to connect to X11 display "@ + self.display@ + ": "@ + detail,
                ),
            ),
            (StartStep::Connect, DisplayEventView::Connected { screen, screens }) => if screen
                < screens {
                Ok(StartStep::QueryTest)
            } else {
                Err(
                    failure(
                        ErrorCode::TargetGone,
                        "X11 display "@ + self.display@ + " has no screen "@ + decimal(screen),
                    ),
                )
            },
            (_, DisplayEventView::Failed(detail)) => Err(input_failure(detail)),
            (StartStep::QueryTest, _) => Ok(StartStep::QueryKeyboard),
            (
                StartStep::QueryKeyboard,
                DisplayEventView::Keyboard { supported, major, minor },
            ) => if supported {
                Ok(StartStep::ListDevices)
            } else {
                Err(no_keyboard_extension(major, minor))
            },
            (StartStep::ListDevices, DisplayEventView::Devices(devices)) => if first_device(
                devices,
                CORE_KEYBOARD,
            ) is None {
                Err(no_device("keyboard"@))
            } else if first_device(devices, CORE_POINTER) is None {
                Err(no_device("pointer"@))
            } else {
                Ok(StartStep::PrepareKeyboard)
            },
            _ => Ok(self.step),
        }
    }

    /// Start opening a display, once its name and the capture limits were checked.
    pub fn new(display: &str, limits: CaptureLimits) -> (result: Result<Self, CuError>)
        ensures
            crate::keys::trimmed(display@).len() == 0 ==> (result matches Err(error) && error@
                == failure(ErrorCode::InvalidAction, "X11 display must not be empty"@)),
            crate::keys::trimmed(display@).len() > 0 && !limits.usable() ==> (result matches Err(
                error,
            ) && error@ == failure(
                ErrorCode::InvalidAction,
                "capture limits must be greater than zero"@,
            )),
            crate::keys::trimmed(display@).len() > 0 && limits.usable() ==> (result matches Ok(
                start,
            ) && start.display@ == display@ && start.step == StartStep::Connect),
    {
        match check_display(display) {
            Ok(()) => {},
            Err(error) => {
                return Err(error);
            },
        }
        match limits.validate() {
            Ok(()) => {},
            Err(error) => {
                return Err(error);
            },
        }
        Ok(
            DisplayStart {
                display: display.to_owned(),
                step: StartStep::Connect,
                screen: 0,
                keyboard_device: 0,
                pointer_device: 0,
            },
        )
    }

    /// Take the end of a request and return the next one.
    pub fn advance(&mut self, event: DisplayEvent) -> (result: Result<StartStep, CuError>)
        requires
            old(self).expects(event@),
        ensures
            match result {
                Ok(step) => old(self).next(event@) == Ok::<StartStep, CuErrorView>(step)
                    && final(self).step == step,
                Err(error) => old(self).next(event@) == Err::<StartStep, CuErrorView>(error@)
                    && final(self).step == old(self).step,
            },
            final(self).display == old(self).display,
            event@ matches DisplayEventView::Connected { screen, .. } ==> final(self).screen
                == screen,
            event@ is Devices && result is Ok ==> first_device(
                event@->Devices_0,
                CORE_KEYBOARD,
            ) == Some(final(self).keyboard_device) && first_device(event@->Devices_0, CORE_POINTER)
                == Some(final(self).pointer_device),
            !(event@ is Connected) ==> final(self).screen == old(self).screen,
            !(event@ is Devices) ==> final(self).keyboard_device == old(self).keyboard_device
                && final(self).pointer_device == old(self).pointer_device,
    {
        let next = match event {
            DisplayEvent::Failed(detail) => Err(
                match self.step {
                    StartStep::Connect => {
                        let mut message = "failed to connect to X11 display ".to_owned();
                        message.append(&self.display);
                        message.append(": ");
                        message.append(&detail);
                        CuError::new(ErrorCode::TargetGone, &message)
                    },
                    _ => input_error(&detail),
                },
            ),
            DisplayEvent::Connected { screen, screens } => {
                self.screen = screen;
                if screen < screens {
                    Ok(StartStep::QueryTest)
                } else {
                    let mut message = "X11 display ".to_owned();
                    message.append(&self.display);
                    message.append(" has no screen ");
                    push_decimal(&mut message, screen as u64);
                    Err(CuError::new(ErrorCode::TargetGone, &message))
                }
            },
            DisplayEvent::Keyboard { supported, major, minor } => {
                if supported {
                    Ok(StartStep::ListDevices)
                } else {
                    let mut message =
                        "X11 server does not support XKB 1.0 (server reports ".to_owned();
                    push_decimal(&mut message, major as u64);
                    message.append(".");
                    push_decimal(&mut message, minor as u64);
                    message.append(")");
                    Err(CuError::new(ErrorCode::UnsupportedInput, &message))
                }
            },
            DisplayEvent::Devices(devices) => match (
                find_device(&devices, CORE_KEYBOARD, "keyboard"),
                find_device(&devices, CORE_POINTER, "pointer"),
            ) {
                (Ok(keyboard), Ok(pointer)) => {
                    self.keyboard_device = keyboard;
                    self.pointer_device = pointer;
                    Ok(StartStep::PrepareKeyboard)
                },
                (Err(error), _) => Err(error),
                (_, Err(error)) => Err(error),
            },
            _ => Ok(StartStep::QueryKeyboard),
        };
        if let Ok(step) = &next {
            self.step = *step;
        }
        next
    }
}

/// What claiming the keyboard map of a display does next.
#[derive(Debug, Clone, Copy, PartialEq, Eq, Structural)]
pub enum ClaimStep {
    /// Get the atom of the selection that marks the owner.
    InternOwner,
    /// Get the atom of the journal property.
    InternJournal,
    GenerateWindow,
    CreateWindow,
    /// Keep other clients from the server.
    Grab,
    /// Ask for the owner before the claim.
    QueryOwner,
    SetOwner,
    /// Ask for the owner after the claim.
    ConfirmOwner,
    /// Let other clients at the server again.
    Ungrab,
    Sync,
    /// The keyboard map belongs to this client.
    Held,
}

/// A claim on the keyboard map of a display.
pub struct KeymapClaim {
    pub step: ClaimStep,
    pub owner_atom: u32,
    pub journal_atom: u32,
    pub owner_window: u32,
    /// The failure to report once other clients are let at the server again.
    pub refusal: Option<CuError>,
}

/// A claim with its failure's text as a sequence.
pub struct ClaimView {
    pub step: ClaimStep,
    pub owner_atom: u32,
    pub journal_atom: u32,
    pub owner_window: u32,
    pub refusal: Option<CuErrorView>,
}

impl View for KeymapClaim {
    type V = ClaimView;

    open spec fn view(&self) -> ClaimView {
        ClaimView {
            step: self.step,
            owner_atom: self.owner_atom,
            journal_atom: self.journal_atom,
            owner_window: self.owner_window,
            refusal: match self.refusal {
                Some(error) => Some(error@),
                None => None,
            },
        }
    }
}

/// The failure of a claim on a keyboard map that someone else holds.
pub open spec fn claim_conflict(message: Seq<char>) -> CuErrorView {
    failure(ErrorCode::LeaseConflict, message)
}

impl ClaimView {
    /// Whether an event can be the end of the next request.
    pub open spec fn expects(self, event: DisplayEventView) -> bool {
        event is Failed || match self.step {
            ClaimStep::InternOwner | ClaimStep::InternJournal | ClaimStep::GenerateWindow
            | ClaimStep::QueryOwner | ClaimStep::ConfirmOwner => event is Identifier,
            ClaimStep::Held => false,
            _ => event is Done,
        }
    }

    /// Whether the server is kept from other clients.
    pub open spec fn grabbed(self) -> bool {
        self.step is QueryOwner || self.step is SetOwner || self.step is ConfirmOwner || self.step
            is Ungrab
    }

    /// Go on with another step.
    pub open spec fn at(self, step: ClaimStep) -> Result<ClaimView, CuErrorView> {
        Ok(ClaimView { step, ..self })
    }

    /// Let other clients at the server again, and then report a failure.
    pub open spec fn refused(self, error: CuErrorView) -> Result<ClaimView, CuErrorView> {
        Ok(ClaimView { step: ClaimStep::Ungrab, refusal: Some(error), ..self })
    }

    /// The claim after an event, or the failure that ends it.
    pub open spec fn next(self, event: DisplayEventView) -> Result<ClaimView, CuErrorView> {
        match (self.step, event) {
            (ClaimStep::Ungrab, _) => match self.refusal {
                Some(error) => Err(error),
                None => self.at(ClaimStep::Sync),
            },
            (
                ClaimStep::QueryOwner | ClaimStep::SetOwner | ClaimStep::ConfirmOwner,
                DisplayEventView::Failed(detail),
            ) => self.refused(input_failure(detail)),
            (_, DisplayEventView::Failed(detail)) => Err(input_failure(detail)),
            (ClaimStep::InternOwner, DisplayEventView::Identifier(id)) => ClaimView {
                owner_atom: id,
                ..self
            }.at(ClaimStep::InternJournal),
            (ClaimStep::InternJournal, DisplayEventView::Identifier(id)) => ClaimView {
                journal_atom: id,
                ..self
            }.at(ClaimStep::GenerateWindow),
            (ClaimStep::GenerateWindow, DisplayEventView::Identifier(id)) => ClaimView {
                owner_window: id,
                ..self
            }.at(ClaimStep::CreateWindow),
            (ClaimStep::CreateWindow, _) => self.at(ClaimStep::Grab),
            (ClaimStep::Grab, _) => self.at(ClaimStep::QueryOwner),
            (ClaimStep::QueryOwner, DisplayEventView::Identifier(owner)) => if owner == NO_WINDOW {
                self.at(ClaimStep::SetOwner)
            } else {
                self.refused(
                    claim_conflict("another X11 backend owns the temporary keyboard map"@),
                )
            },
            (ClaimStep::SetOwner, _) => self.at(ClaimStep::ConfirmOwner),
            (ClaimStep::ConfirmOwner, DisplayEventView::Identifier(owner)) => if owner
                == self.owner_window {
                self.at(ClaimStep::Ungrab)
            } else {
                self.refused(claim_conflict("failed to claim the X11 temporary keyboard map"@))
            },
            (ClaimStep::Sync, _) => self.at(ClaimStep::Held),
            _ => Ok(self),
        }
    }

    /// Whether only a claim that lets other clients at the server again has a failure to report.
    pub open spec fn valid(self) -> bool {
        self.refusal is Some ==> self.step is Ungrab
    }
}

impl KeymapClaim {
    /// A claim that has done nothing yet.
    pub fn acquire() -> (claim: Self)
        ensures
            claim@ == (ClaimView {
                step: ClaimStep::InternOwner,
                owner_atom: 0,
                journal_atom: 0,
                owner_window: 0,
                refusal: None,
            }),
            claim@.valid(),
    {
        KeymapClaim {
            step: ClaimStep::InternOwner,
            owner_atom: 0,
            journal_atom: 0,
            owner_window: 0,
            refusal: None,
        }
    }

    fn refuse(&mut self, error: CuError) -> (step: Result<ClaimStep, CuError>)
        ensures
            old(self)@.refused(error@) == Ok::<ClaimView, CuErrorView>(
                ClaimView { step: ClaimStep::Ungrab, ..final(self)@ },
            ),
            step == Ok::<ClaimStep, CuError>(ClaimStep::Ungrab),
    {
        self.refusal = Some(error);
        Ok(ClaimStep::Ungrab)
    }

    /// Take the end of a request and return the next one.
    pub fn advance(&mut self, event: DisplayEvent) -> (result: Result<ClaimStep, CuError>)
        requires
            old(self)@.valid(),
            old(self)@.expects(event@),
        ensures
            match result {
                Ok(step) => final(self)@.step == step && old(self)@.next(event@) == Ok::<
                    ClaimView,
                    CuErrorView,
                >(final(self)@),
                Err(error) => old(self)@.next(event@) == Err::<ClaimView, CuErrorView>(error@)
                    && final(self)@ == old(self)@,
            },
            final(self)@.valid(),
    {
        let next = match self.step {
            ClaimStep::Ungrab => match &self.refusal {
                Some(error) => Err(error.clone()),
                None => Ok(ClaimStep::Sync),
            },
            ClaimStep::QueryOwner => match event {
                DisplayEvent::Failed(detail) => self.refuse(input_error(&detail)),
                DisplayEvent::Identifier(owner) => if owner == NO_WINDOW {
                    Ok(ClaimStep::SetOwner)
                } else {
                    self.refuse(
                        CuError::new(
                            ErrorCode::LeaseConflict,
                            "another X11 backend owns the temporary keyboard map",
                        ),
                    )
                },
                _ => Ok(ClaimStep::QueryOwner),
            },
            ClaimStep::SetOwner => match event {
                DisplayEvent::Failed(detail) => self.refuse(input_error(&detail)),
                _ => Ok(ClaimStep::ConfirmOwner),
            },
            ClaimStep::ConfirmOwner => match event {
                DisplayEvent::Failed(detail) => self.refuse(input_error(&detail)),
                DisplayEvent::Identifier(owner) => if owner == self.owner_window {
                    Ok(ClaimStep::Ungrab)
                } else {
                    self.refuse(
                        CuError::new(
                            ErrorCode::LeaseConflict,
                            "failed to claim the X11 temporary keyboard map",
                        ),
                    )
                },
                _ => Ok(ClaimStep::ConfirmOwner),
            },
            step => match event {
                DisplayEvent::Failed(detail) => Err(input_error(&detail)),
                DisplayEvent::Identifier(id) => match step {
                    ClaimStep::InternOwner => {
                        self.owner_atom = id;
                        Ok(ClaimStep::InternJournal)
                    },
                    ClaimStep::InternJournal => {
                        self.journal_atom = id;
                        Ok(ClaimStep::GenerateWindow)
                    },
                    _ => {
                        self.owner_window = id;
                        Ok(ClaimStep::CreateWindow)
                    },
                },
                _ => match step {
                    ClaimStep::CreateWindow => Ok(ClaimStep::Grab),
                    ClaimStep::Grab => Ok(ClaimStep::QueryOwner),
                    _ => Ok(ClaimStep::Held),
                },
            },
        };
        if let Ok(step) = &next {
            self.step = *step;
        }
        next
    }
}

/// A claim that is made while someone holds the keyboard map sets no owner, and one that ends lets
/// other clients at the server.
pub proof fn claims_respect_the_owner(claim: ClaimView, event: DisplayEventView)
    requires
        claim.valid(),
        claim.expects(event),
    ensures
        claim.next(event) is Err ==> !claim.grabbed() || claim.step is Ungrab,
        claim.next(event) matches Ok(after) ==> (after.step is SetOwner ==> claim.step is QueryOwner
            && event == DisplayEventView::Identifier(NO_WINDOW)),
        claim.next(event) matches Ok(after) ==> (claim.grabbed() && !after.grabbed() ==> claim.step
            is Ungrab),
{
}

/// A step of a pointer action. Steps run in order, up to the first failure.
#[derive(Debug, Clone, Copy, PartialEq, Eq, Structural)]
pub enum PointerStep {
    /// Move to a frame pixel.
    Move { point: Point },
    /// Press a button, hold it, and release it.
    Click { button: u8, hold_ms: u64 },
    Pause { ms: u64 },
    /// Click a wheel button a number of times.
    Wheel { button: u8, count: u32 },
    /// Press the first button, follow the rest of the action's path, and release the button.
    Drag,
}

/// The wheel step of a scroll distance along one axis.
pub open spec fn wheel_step(distance: i32, negative: u8, positive: u8) -> PointerStep {
    let ticks = ticks_of(distance as int);
    if ticks < 0 {
        PointerStep::Wheel { button: negative, count: (-ticks) as u32 }
    } else {
        PointerStep::Wheel { button: positive, count: ticks as u32 }
    }
}

/// Pause between the clicks of a double click, in milliseconds.
pub const DOUBLE_CLICK_PAUSE_MS: u64 = 60;

/// The steps of an action's pointer input.
pub open spec fn pointer_steps(action: ActionView) -> Seq<PointerStep> {
    match action {
        ActionView::Move { x, y, .. } => seq![PointerStep::Move { point: Point { x, y } }],
        ActionView::Click { x, y, button, duration_ms, .. } => seq![
            PointerStep::Move { point: Point { x, y } },
            PointerStep::Click { button: button_number(button), hold_ms: duration_ms },
        ],
        ActionView::DoubleClick { x, y, .. } => seq![
            PointerStep::Move { point: Point { x, y } },
            PointerStep::Click { button: 1, hold_ms: 0 },
            PointerStep::Pause { ms: DOUBLE_CLICK_PAUSE_MS },
            PointerStep::Move { point: Point { x, y } },
            PointerStep::Click { button: 1, hold_ms: 0 },
        ],
        ActionView::Drag { path, .. } => seq![
            PointerStep::Move { point: path[0] },
            PointerStep::Drag,
        ],
        ActionView::Scroll { x, y, scroll_x, scroll_y, .. } => seq![
            PointerStep::Move { point: Point { x, y } },
            wheel_step(scroll_x, 6, 7),
            wheel_step(scroll_y, 4, 5),
        ],
        ActionView::Type { .. } => Seq::empty(),
        ActionView::Keypress { .. } => Seq::empty(),
    }
}

fn wheel(distance: i32, negative: u8, positive: u8) -> (step: PointerStep)
    ensures
        step == wheel_step(distance, negative, positive),
{
    let (button, count) = scroll_clicks(wheel_ticks(distance), negative, positive);
    PointerStep::Wheel { button, count }
}

/// The steps of an action's pointer input.
pub fn plan_pointer(action: &Action) -> (steps: Vec<PointerStep>)
    requires
        action@ matches ActionView::Drag { path, .. } ==> path.len() > 0,
    ensures
        steps@ == pointer_steps(action@),
{
    let mut steps: Vec<PointerStep> = Vec::new();
    match action {
        Action::Move { x, y, .. } => {
            steps.push(PointerStep::Move { point: Point { x: *x, y: *y } });
        },
        Action::Click { x, y, button, duration_ms, .. } => {
            steps.push(PointerStep::Move { point: Point { x: *x, y: *y } });
            steps.push(PointerStep::Click { button: map_button(*button), hold_ms: *duration_ms });
        },
        Action::DoubleClick { x, y, .. } => {
            let point = Point { x: *x, y: *y };
            steps.push(PointerStep::Move { point });
            steps.push(PointerStep::Click { button: 1, hold_ms: 0 });
            steps.push(PointerStep::Pause { ms: DOUBLE_CLICK_PAUSE_MS });
            steps.push(PointerStep::Move { point });
            steps.push(PointerStep::Click { button: 1, hold_ms: 0 });
        },
        Action::Drag { path, .. } => {
            steps.push(PointerStep::Move { point: path[0] });
            steps.push(PointerStep::Drag);
        },
        Action::Scroll { x, y, scroll_x, scroll_y, .. } => {
            steps.push(PointerStep::Move { point: Point { x: *x, y: *y } });
            steps.push(wheel(*scroll_x, 6, 7));
            steps.push(wheel(*scroll_y, 4, 5));
        },
        Action::Type { .. } => {},
        Action::Keypress { .. } => {},
    }
    assert(steps@ =~= pointer_steps(action@));
    steps
}

/// What an action's pointer input does once `done` of its steps were tried and the last try ended in
/// `outcome`: the next step, or the end.
pub fn pointer_step(steps: &Vec<PointerStep>, done: usize, outcome: Result<(), CuError>) -> (next:
    Next<PointerStep>)
    requires
        done <= steps.len(),
    ensures
        follows(steps@, done as int, outcome, next),
{
    next_step(steps, done, outcome)
}

/// Whether each event of a number of clicks presses the button: every click presses and releases it.
pub open spec fn click_events(count: nat) -> Seq<bool> {
    Seq::new(2 * count, |i: int| i % 2 == 0)
}

/// What clicking a wheel button `count` times does once `done` events were tried and the last try
/// ended in `outcome`: the next press or release, or the end.
pub fn wheel_event(count: u32, done: u64, outcome: Result<(), CuError>) -> (next: Next<bool>)
    requires
        done <= 2 * count,
    ensures
        follows(click_events(count as nat), done as int, outcome, next),
{
    match outcome {
        Err(error) => Next::Done(Err(error)),
        Ok(()) => {
            if done < 2 * count as u64 {
                Next::Perform(done % 2 == 0)
            } else {
                Next::Done(Ok(()))
            }
        },
    }
}

} // verus!
