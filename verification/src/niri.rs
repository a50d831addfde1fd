//! Decisions of the Wayland backend: the output to use, supported keys, held keys, and the steps
//! of pointer input.
use vstd::prelude::*;

use crate::frame::{rescaled, resize_rgb, scalable, CapturedFrame};
use crate::input::{follows, next_step, Next};
use crate::keys::{key_named, normalized, parse_key, unsupported, Key};
use crate::pointer::{ticks_of, wheel_ticks};
use crate::protocol::{
    failure, texts, Action, ActionView, CuError, CuErrorView, ErrorCode, MouseButton, Point,
    Viewport,
};
use crate::text::{decimal, push_decimal, same_text};
use crate::validate::refusal;
use crate::x11::key_names;
use crate::x11_session::DOUBLE_CLICK_PAUSE_MS;

verus! {

/// Texts with a comma and a space between them.
pub open spec fn listed(names: Seq<Seq<char>>) -> Seq<char>
    decreases names.len(),
{
    if names.len() == 0 {
        Seq::empty()
    } else if names.len() == 1 {
        names[0]
    } else {
        listed(names.drop_last()) + ", "@ + names.last()
    }
}

fn push_listed(text: &mut String, names: &Vec<String>)
    ensures
        final(text)@ == old(text)@ + listed(texts(names@)),
{
    let ghost all = texts(names@);
    let ghost before = text@;
    let mut n: usize = 0;
    assert(all.take(0) =~= Seq::empty());
    assert(before + listed(all.take(0)) =~= before);
    while n < names.len()
        invariant
            n <= names.len(),
            all == texts(names@),
            text@ == before + listed(all.take(n as int)),
        decreases names.len() - n,
    {
        assert(all.take(n + 1).drop_last() =~= all.take(n as int));
        assert(all.take(n + 1).last() == names@[n as int]@);
        if n > 0 {
            text.append(", ");
        }
        text.append(&names[n]);
        n += 1;
        assert(text@ =~= before + listed(all.take(n as int)));
    }
    assert(all.take(n as int) =~= all);
}

/// The output that is captured, or why none can be: absolute input is safe with one output only.
pub open spec fn selected_output(outputs: Seq<Seq<char>>, requested: Option<Seq<char>>) -> Result<
    Seq<char>,
    CuErrorView,
> {
    if outputs.len() == 0 {
        Err(failure(ErrorCode::TargetGone, "niri exposes no active Wayland outputs"@))
    } else if outputs.len() != 1 {
        Err(
            failure(
                ErrorCode::UnsupportedInput,
                "safe absolute input currently requires exactly one active output; found "@
                    + decimal(outputs.len()) + " ("@ + listed(outputs) + ")"@,
            ),
        )
    } else if requested is Some && requested->0 != outputs[0] {
        Err(
            failure(
                ErrorCode::TargetGone,
                "requested Wayland output "@ + requested->0
                    + " is unavailable; active output is "@ + outputs[0],
            ),
        )
    } else {
        Ok(outputs[0])
    }
}

/// The output that is captured.
pub fn select_output(outputs: &Vec<String>, requested: Option<&str>) -> (result: Result<
    String,
    CuError,
>)
    ensures
        ({
            let expected = selected_output(
                texts(outputs@),
                match requested {
                    Some(name) => Some(name@),
                    None => None,
                },
            );
            match result {
                Ok(output) => expected == Ok::<Seq<char>, CuErrorView>(output@),
                Err(error) => expected == Err::<Seq<char>, CuErrorView>(error@),
            }
        }),
{
    if outputs.len() == 0 {
        return Err(CuError::new(ErrorCode::TargetGone, "niri exposes no active Wayland outputs"));
    }
    if outputs.len() != 1 {
        let mut message =
            "safe absolute input currently requires exactly one active output; found ".to_owned();
        push_decimal(&mut message, outputs.len() as u64);
        message.append(" (");
        push_listed(&mut message, outputs);
        message.append(")");
        return Err(CuError::new(ErrorCode::UnsupportedInput, &message));
    }
    if let Some(requested) = requested {
        if !same_text(requested, &outputs[0]) {
            let mut message = "requested Wayland output ".to_owned();
            message.append(requested);
            message.append(" is unavailable; active output is ");
            message.append(&outputs[0]);
            return Err(CuError::new(ErrorCode::TargetGone, &message));
        }
    }
    Ok(outputs[0].clone())
}

/// The place of an output among those that are active, or that it is gone.
pub fn find_output(outputs: &Vec<String>, name: &str) -> (result: Result<usize, CuError>)
    ensures
        match result {
            Ok(at) => at < outputs.len() && outputs[at as int]@ == name@ && forall|i: int|
                0 <= i < at ==> (#[trigger] outputs[i])@ != name@,
            Err(error) => (forall|i: int| 0 <= i < outputs.len() ==> (#[trigger] outputs[i])@
                != name@) && error@ == failure(
                ErrorCode::TargetGone,
                "Wayland output "@ + name@ + " is unavailable"@,
            ),
        },
{
    let mut n: usize = 0;
    while n < outputs.len()
        invariant
            n <= outputs.len(),
            forall|i: int| 0 <= i < n ==> (#[trigger] outputs[i])@ != name@,
        decreases outputs.len() - n,
    {
        if same_text(&outputs[n], name) {
            return Ok(n);
        }
        n += 1;
    }
    let mut message = "Wayland output ".to_owned();
    message.append(name);
    message.append(" is unavailable");
    Err(CuError::new(ErrorCode::TargetGone, &message))
}

/// The key that a name stands for, or why it stands for none.
pub open spec fn supported_key(name: Seq<char>) -> Result<Key, CuErrorView> {
    match key_named(normalized(name)) {
        Some(key) => Ok(key),
        None => Err(unsupported(crate::keys::debug_text(name))),
    }
}

/// The keys that names stand for, or the refusal of the first that stands for none.
pub open spec fn supported_keys(names: Seq<Seq<char>>) -> Result<Seq<Key>, CuErrorView>
    decreases names.len(),
{
    if names.len() == 0 {
        Ok(Seq::empty())
    } else {
        match supported_keys(names.drop_last()) {
            Err(error) => Err(error),
            Ok(keys) => match supported_key(names.last()) {
                Err(error) => Err(error),
                Ok(key) => Ok(keys.push(key)),
            },
        }
    }
}

proof fn refusal_of_prefix(names: Seq<Seq<char>>, n: int)
    requires
        0 <= n <= names.len(),
        supported_keys(names.take(n)) is Err,
    ensures
        supported_keys(names) == supported_keys(names.take(n)),
    decreases names.len() - n,
{
    if n == names.len() {
        assert(names.take(n) =~= names);
    } else {
        assert(names.take(n + 1).drop_last() =~= names.take(n));
        refusal_of_prefix(names, n + 1);
    }
}

/// The keys that names stand for.
pub fn parse_keys(names: &Vec<String>) -> (result: Result<Vec<Key>, CuError>)
    ensures
        match result {
            Ok(keys) => supported_keys(texts(names@)) == Ok::<Seq<Key>, CuErrorView>(keys@),
            Err(error) => supported_keys(texts(names@)) == Err::<Seq<Key>, CuErrorView>(error@),
        },
{
    let ghost all = texts(names@);
    let mut keys: Vec<Key> = Vec::new();
    let mut n: usize = 0;
    assert(all.take(0) =~= Seq::empty());
    while n < names.len()
        invariant
            n <= names.len(),
            all == texts(names@),
            supported_keys(all.take(n as int)) == Ok::<Seq<Key>, CuErrorView>(keys@),
        decreases names.len() - n,
    {
        assert(all.take(n + 1).drop_last() =~= all.take(n as int));
        assert(all.take(n + 1).last() == names@[n as int]@);
        match parse_key(&names[n]) {
            Ok(key) => {
                keys.push(key);
            },
            Err(error) => {
                proof {
                    refusal_of_prefix(all, n + 1);
                }
                return Err(error);
            },
        }
        n += 1;
    }
    assert(all.take(n as int) =~= all);
    Ok(keys)
}

/// Why the backend cannot execute an action, if it cannot: a name that stands for no key.
pub open spec fn unsupported_action(action: ActionView) -> Option<CuErrorView> {
    match supported_keys(key_names(action)) {
        Ok(_) => None,
        Err(error) => Some(error),
    }
}

fn validate_names(names: &Vec<String>) -> (result: Result<(), CuError>)
    ensures
        refusal(result) == (match supported_keys(texts(names@)) {
            Ok(_) => None,
            Err(error) => Some(error),
        }),
{
    match parse_keys(names) {
        Ok(_) => Ok(()),
        Err(error) => Err(error),
    }
}

/// Refuse an action that names an unknown key.
pub fn validate(action: &Action) -> (result: Result<(), CuError>)
    ensures
        refusal(result) == unsupported_action(action@),
{
    match action {
        Action::Move { keys, .. } => validate_names(keys),
        Action::Click { keys, .. } => validate_names(keys),
        Action::DoubleClick { keys, .. } => validate_names(keys),
        Action::Drag { keys, .. } => validate_names(keys),
        Action::Scroll { keys, .. } => validate_names(keys),
        Action::Keypress { keys } => validate_names(keys),
        Action::Type { .. } => Ok(()),
    }
}

/// What holding keys does next.
pub enum HoldOp {
    Press(Key),
    /// Do what the keys are held for.
    Operate,
    Release(Key),
    Finish(Result<(), CuError>),
}

/// An operation with its failure's text as a sequence.
pub enum HoldOpView {
    Press(Key),
    Operate,
    Release(Key),
    Finish(Option<CuErrorView>),
}

impl View for HoldOp {
    type V = HoldOpView;

    open spec fn view(&self) -> HoldOpView {
        match *self {
            HoldOp::Press(key) => HoldOpView::Press(key),
            HoldOp::Operate => HoldOpView::Operate,
            HoldOp::Release(key) => HoldOpView::Release(key),
            HoldOp::Finish(result) => HoldOpView::Finish(refusal(result)),
        }
    }
}

/// Keys that are pressed in order, held during an operation, and released in reverse order. A
/// failed release is not reported.
pub struct KeyHold {
    pub keys: Vec<Key>,
    /// Number of keys that are held.
    pub pressed: usize,
    /// Whether no further key is pressed.
    pub releasing: bool,
    pub failed: Option<CuError>,
}

/// Held keys with their list and their failure's text as sequences.
pub struct HoldView {
    pub keys: Seq<Key>,
    pub pressed: int,
    pub releasing: bool,
    pub failed: Option<CuErrorView>,
}

impl View for KeyHold {
    type V = HoldView;

    open spec fn view(&self) -> HoldView {
        HoldView {
            keys: self.keys@,
            pressed: self.pressed as int,
            releasing: self.releasing,
            failed: match self.failed {
                Some(error) => Some(error@),
                None => None,
            },
        }
    }
}

impl HoldView {
    /// Whether no more keys are held than there are.
    pub open spec fn valid(self) -> bool {
        0 <= self.pressed <= self.keys.len()
    }

    /// What is done now: the next key is pressed; once all are, the operation; then the keys are
    /// released.
    pub open spec fn op(self) -> HoldOpView {
        if self.releasing {
            if self.pressed > 0 {
                HoldOpView::Release(self.keys[self.pressed - 1])
            } else {
                HoldOpView::Finish(self.failed)
            }
        } else if self.pressed < self.keys.len() {
            HoldOpView::Press(self.keys[self.pressed])
        } else {
            HoldOpView::Operate
        }
    }

    /// The held keys once what was done ended in `outcome`.
    pub open spec fn after(self, outcome: Option<CuErrorView>) -> HoldView {
        match self.op() {
            HoldOpView::Press(_) => match outcome {
                None => HoldView { pressed: self.pressed + 1, ..self },
                Some(error) => HoldView { releasing: true, failed: Some(error), ..self },
            },
            HoldOpView::Operate => HoldView { releasing: true, failed: outcome, ..self },
            HoldOpView::Release(_) => HoldView { pressed: self.pressed - 1, ..self },
            HoldOpView::Finish(_) => self,
        }
    }
}

/// Keys that are about to be held.
pub open spec fn hold_begun(keys: Seq<Key>) -> HoldView {
    HoldView { keys, pressed: 0, releasing: false, failed: None }
}

impl KeyHold {
    /// Keys of which none is held yet, unless a name stands for none.
    pub fn press_keys(names: &Vec<String>) -> (result: Result<Self, CuError>)
        ensures
            match supported_keys(texts(names@)) {
                Ok(keys) => result matches Ok(hold) && hold@ == (HoldView {
                    keys,
                    pressed: 0,
                    releasing: false,
                    failed: None,
                }) && hold@.valid(),
                Err(failure) => result matches Err(error) && error@ == failure,
            },
            result matches Ok(hold) ==> hold@ == hold_begun(hold@.keys),
    {
        match parse_keys(names) {
            Ok(keys) => Ok(KeyHold { keys, pressed: 0, releasing: false, failed: None }),
            Err(error) => Err(error),
        }
    }

    /// What is done now.
    pub fn op(&self) -> (op: HoldOp)
        requires
            self@.valid(),
        ensures
            op@ == self@.op(),
    {
        if self.releasing {
            if self.pressed > 0 {
                HoldOp::Release(self.keys[self.pressed - 1])
            } else {
                HoldOp::Finish(
                    match &self.failed {
                        Some(error) => Err(error.clone()),
                        None => Ok(()),
                    },
                )
            }
        } else if self.pressed < self.keys.len() {
            HoldOp::Press(self.keys[self.pressed])
        } else {
            HoldOp::Operate
        }
    }

    /// Take the outcome of what was done.
    pub fn advance(&mut self, outcome: Result<(), CuError>)
        requires
            old(self)@.valid(),
        ensures
            final(self)@ == old(self)@.after(refusal(outcome)),
            final(self)@.valid(),
    {
        if self.releasing {
            if self.pressed > 0 {
                self.pressed = self.pressed - 1;
            }
        } else if self.pressed < self.keys.len() {
            match outcome {
                Ok(()) => {
                    self.pressed = self.pressed + 1;
                },
                Err(error) => {
                    self.releasing = true;
                    self.failed = Some(error);
                },
            }
        } else {
            self.releasing = true;
            self.failed = match outcome {
                Ok(()) => None,
                Err(error) => Some(error),
            };
        }
    }
}

/// Held keys are pressed and released one at a time, the last one first, and nothing is held any
/// more when all is over.
pub proof fn holds_release_what_they_press(hold: HoldView, outcome: Option<CuErrorView>)
    requires
        hold.valid(),
    ensures
        hold.after(outcome).valid(),
        hold.op() matches HoldOpView::Press(key) ==> key == hold.keys[hold.pressed]
            && hold.after(None).pressed == hold.pressed + 1,
        hold.op() matches HoldOpView::Release(key) ==> key == hold.keys[hold.pressed - 1]
            && hold.after(outcome).pressed == hold.pressed - 1,
        hold.op() is Finish ==> hold.pressed == 0,
        hold.releasing ==> hold.after(outcome).releasing,
{
}

/// A step of a pointer action on Wayland. Steps run in order, up to the first failure.
#[derive(Debug, Clone, Copy, PartialEq, Eq, Structural)]
pub enum WaylandStep {
    /// Move to a frame pixel.
    Move { point: Point },
    /// Press a button, hold it, and release it.
    Click { button: MouseButton, hold_ms: u64 },
    Pause { ms: u64 },
    /// Turn the wheel to the right, or to the left for a negative number.
    ScrollHorizontal { ticks: i32 },
    /// Turn the wheel down, or up for a negative number.
    ScrollVertical { ticks: i32 },
    /// Press the left button, follow the rest of the action's path, and release the button.
    Drag,
}

/// The steps that scroll by distances; none along an axis without one.
pub open spec fn scroll_steps(scroll_x: i32, scroll_y: i32) -> Seq<WaylandStep> {
    let across = ticks_of(scroll_x as int);
    let down = ticks_of(scroll_y as int);
    (if across == 0 {
        Seq::empty()
    } else {
        seq![WaylandStep::ScrollHorizontal { ticks: across as i32 }]
    }) + (if down == 0 {
        Seq::empty()
    } else {
        seq![WaylandStep::ScrollVertical { ticks: down as i32 }]
    })
}

/// The steps of an action's pointer input on Wayland.
pub open spec fn wayland_steps(action: ActionView) -> Seq<WaylandStep> {
    match action {
        ActionView::Move { x, y, .. } => seq![WaylandStep::Move { point: Point { x, y } }],
        ActionView::Click { x, y, button, duration_ms, .. } => seq![
            WaylandStep::Move { point: Point { x, y } },
            WaylandStep::Click { button, hold_ms: duration_ms },
        ],
        ActionView::DoubleClick { x, y, .. } => seq![
            WaylandStep::Move { point: Point { x, y } },
            WaylandStep::Click { button: MouseButton::Left, hold_ms: 0 },
            WaylandStep::Pause { ms: DOUBLE_CLICK_PAUSE_MS },
            WaylandStep::Move { point: Point { x, y } },
            WaylandStep::Click { button: MouseButton::Left, hold_ms: 0 },
        ],
        ActionView::Drag { path, .. } => seq![
            WaylandStep::Move { point: path[0] },
            WaylandStep::Drag,
        ],
        ActionView::Scroll { x, y, scroll_x, scroll_y, .. } => seq![
            WaylandStep::Move { point: Point { x, y } },
        ] + scroll_steps(scroll_x, scroll_y),
        ActionView::Type { .. } => Seq::empty(),
        ActionView::Keypress { .. } => Seq::empty(),
    }
}

/// The steps of an action's pointer input on Wayland.
pub fn plan_pointer(action: &Action) -> (steps: Vec<WaylandStep>)
    requires
        action@ matches ActionView::Drag { path, .. } ==> path.len() > 0,
    ensures
        steps@ == wayland_steps(action@),
{
    let mut steps: Vec<WaylandStep> = Vec::new();
    match action {
        Action::Move { x, y, .. } => {
            steps.push(WaylandStep::Move { point: Point { x: *x, y: *y } });
        },
        Action::Click { x, y, button, duration_ms, .. } => {
            steps.push(WaylandStep::Move { point: Point { x: *x, y: *y } });
            steps.push(WaylandStep::Click { button: *button, hold_ms: *duration_ms });
        },
        Action::DoubleClick { x, y, .. } => {
            let point = Point { x: *x, y: *y };
            steps.push(WaylandStep::Move { point });
            steps.push(WaylandStep::Click { button: MouseButton::Left, hold_ms: 0 });
            steps.push(WaylandStep::Pause { ms: DOUBLE_CLICK_PAUSE_MS });
            steps.push(WaylandStep::Move { point });
            steps.push(WaylandStep::Click { button: MouseButton::Left, hold_ms: 0 });
        },
        Action::Drag { path, .. } => {
            steps.push(WaylandStep::Move { point: path[0] });
            steps.push(WaylandStep::Drag);
        },
        Action::Scroll { x, y, scroll_x, scroll_y, .. } => {
            steps.push(WaylandStep::Move { point: Point { x: *x, y: *y } });
            let across: i32 = wheel_ticks(*scroll_x);
            let down: i32 = wheel_ticks(*scroll_y);
            if across != 0 {
                steps.push(WaylandStep::ScrollHorizontal { ticks: across });
            }
            if down != 0 {
                steps.push(WaylandStep::ScrollVertical { ticks: down });
            }
        },
        Action::Type { .. } => {},
        Action::Keypress { .. } => {},
    }
    assert(steps@ =~= wayland_steps(action@));
    steps
}

/// What an action's pointer input does once `done` of its steps were tried and the last try ended in
/// `outcome`: the next step, or the end.
pub fn wayland_step(steps: &Vec<WaylandStep>, done: usize, outcome: Result<(), CuError>) -> (next:
    Next<WaylandStep>)
    requires
        done <= steps.len(),
    ensures
        follows(steps@, done as int, outcome, next),
{
    next_step(steps, done, outcome)
}

/// The name of a Wayland output as a capture target.
pub open spec fn output_target(name: Seq<char>) -> Seq<char> {
    "output:"@ + name
}

/// The frame of a captured output, scaled down to a size; a size without pixels has none.
pub fn encode_frame(pixels: Vec<u8>, width: u32, height: u32, fitted: Viewport, output: &str) -> (
frame: CapturedFrame)
    requires
        pixels.len() == width * height * 3,
        scalable(width, height),
        fitted.width <= width,
        fitted.height <= height,
    ensures
        frame@.viewport() == fitted,
        frame@.target == output_target(output@),
        if fitted == (Viewport { width, height }) {
            frame@.pixels == pixels@
        } else if fitted.width == 0 || fitted.height == 0 {
            frame@.pixels == Seq::<u8>::empty()
        } else {
            frame@.valid() && rescaled(
                pixels@,
                width,
                height,
                fitted.width,
                fitted.height,
                frame@.pixels,
            )
        },
{
    let pixels = if fitted.width == width && fitted.height == height {
        pixels
    } else if fitted.width == 0 || fitted.height == 0 {
        Vec::new()
    } else {
        resize_rgb(pixels, width, height, fitted)
    };
    let mut target = "output:".to_owned();
    target.append(output);
    CapturedFrame { pixels, width: fitted.width, height: fitted.height, target }
}

} // verus!
