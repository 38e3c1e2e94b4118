use vstd::prelude::*;

verus! {

/// A gamepad button, one for one with the buttons an input driver reports.
#[derive(Clone, Copy, Debug, PartialEq, Eq, Structural)]
pub enum Button {
    South,
    East,
    North,
    West,
    C,
    Z,
    LeftTrigger,
    LeftTrigger2,
    RightTrigger,
    RightTrigger2,
    Select,
    Start,
    Mode,
    LeftThumb,
    RightThumb,
    DPadUp,
    DPadDown,
    DPadLeft,
    DPadRight,
    Unknown,
}

/// A gamepad axis, one for one with the axes an input driver reports.
#[derive(Clone, Copy, Debug, PartialEq, Eq, Structural)]
pub enum Axis {
    LeftStickX,
    LeftStickY,
    LeftZ,
    RightStickX,
    RightStickY,
    RightZ,
    DPadX,
    DPadY,
    Unknown,
}

/// A raw input notification. Values are IEEE-754 single-precision numbers,
/// carried as their bit patterns.
#[derive(Clone, Copy, Debug, PartialEq, Eq, Structural)]
pub enum InputEvent {
    ButtonChanged(Button, u32),
    AxisChanged(Axis, u32),
    /// Any other notification (press, release, connection, ...).
    Other,
}

/// The controls whose latest value the snapshot keeps.
#[derive(Clone, Copy, Debug, PartialEq, Eq, Structural)]
pub enum Control {
    Start,
    Select,
    LeftTrigger1,
    LeftTrigger2,
    RightTrigger1,
    RightTrigger2,
    LeftAxisX,
    LeftAxisY,
    RightAxisX,
    RightAxisY,
}

/// The control a button feeds, if the snapshot keeps one for it.
pub open spec fn button_control(b: Button) -> Option<Control> {
    match b {
        Button::Start => Some(Control::Start),
        Button::Select => Some(Control::Select),
        Button::LeftTrigger => Some(Control::LeftTrigger1),
        Button::LeftTrigger2 => Some(Control::LeftTrigger2),
        Button::RightTrigger => Some(Control::RightTrigger1),
        Button::RightTrigger2 => Some(Control::RightTrigger2),
        _ => None,
    }
}

/// The control an axis feeds, if the snapshot keeps one for it.
pub open spec fn axis_control(a: Axis) -> Option<Control> {
    match a {
        Axis::LeftStickX => Some(Control::LeftAxisX),
        Axis::LeftStickY => Some(Control::LeftAxisY),
        Axis::RightStickX => Some(Control::RightAxisX),
        Axis::RightStickY => Some(Control::RightAxisY),
        _ => None,
    }
}

/// The control an event writes and the value it writes, if any.
pub open spec fn event_target(e: InputEvent) -> Option<(Control, u32)> {
    match e {
        InputEvent::ButtonChanged(b, v) => match button_control(b) {
            Some(c) => Some((c, v)),
            None => None,
        },
        InputEvent::AxisChanged(a, v) => match axis_control(a) {
            Some(c) => Some((c, v)),
            None => None,
        },
        InputEvent::Other => None,
    }
}

/// The snapshot after one event: one control overwritten, or nothing changed.
pub open spec fn apply_event(m: Map<Control, u32>, e: InputEvent) -> Map<Control, u32> {
    match event_target(e) {
        Some((c, v)) => m.insert(c, v),
        None => m,
    }
}

/// The snapshot in which every control reads as positive zero.
pub open spec fn rest_snapshot() -> Map<Control, u32> {
    Map::total(|c: Control| 0u32)
}

/// The latest value of each control, each an IEEE-754 single-precision bit
/// pattern. Every control starts at zero.
pub struct JointState {
    start: u32,
    select: u32,
    left_trigger_1: u32,
    left_trigger_2: u32,
    right_trigger_1: u32,
    right_trigger_2: u32,
    left_axis_x: u32,
    left_axis_y: u32,
    right_axis_x: u32,
    right_axis_y: u32,
}

impl View for JointState {
    type V = Map<Control, u32>;

    closed spec fn view(&self) -> Map<Control, u32> {
        Map::total(
            |c: Control|
                match c {
                    Control::Start => self.start,
                    Control::Select => self.select,
                    Control::LeftTrigger1 => self.left_trigger_1,
                    Control::LeftTrigger2 => self.left_trigger_2,
                    Control::RightTrigger1 => self.right_trigger_1,
                    Control::RightTrigger2 => self.right_trigger_2,
                    Control::LeftAxisX => self.left_axis_x,
                    Control::LeftAxisY => self.left_axis_y,
                    Control::RightAxisX => self.right_axis_x,
                    Control::RightAxisY => self.right_axis_y,
                },
        )
    }
}

impl JointState {
    /// Every control holds a value.
    pub proof fn lemma_view_total(&self)
        ensures
            self@.dom() == Set::<Control>::full(),
    {
        assert(self@.dom() =~= Set::<Control>::full());
    }

    pub fn new() -> (r: JointState)
        ensures
            r@ == rest_snapshot(),
    {
        let r = JointState {
            start: 0,
            select: 0,
            left_trigger_1: 0,
            left_trigger_2: 0,
            right_trigger_1: 0,
            right_trigger_2: 0,
            left_axis_x: 0,
            left_axis_y: 0,
            right_axis_x: 0,
            right_axis_y: 0,
        };
        assert(r@ =~= rest_snapshot());
        r
    }

    /// The latest value of one control.
    pub fn value(&self, c: Control) -> (r: u32)
        ensures
            r == self@[c],
    {
        match c {
            Control::Start => self.start,
            Control::Select => self.select,
            Control::LeftTrigger1 => self.left_trigger_1,
            Control::LeftTrigger2 => self.left_trigger_2,
            Control::RightTrigger1 => self.right_trigger_1,
            Control::RightTrigger2 => self.right_trigger_2,
            Control::LeftAxisX => self.left_axis_x,
            Control::LeftAxisY => self.left_axis_y,
            Control::RightAxisX => self.right_axis_x,
            Control::RightAxisY => self.right_axis_y,
        }
    }

    /// Folds one event into the snapshot.
    pub fn update(&mut self, event: InputEvent)
        ensures
            final(self)@ == apply_event(old(self)@, event),
    {
        match event {
            InputEvent::ButtonChanged(button, value) => {
                self.update_button(button, value);
            },
            InputEvent::AxisChanged(axis, value) => {
                self.update_axis(axis, value);
            },
            InputEvent::Other => {},
        }
    }

    fn update_button(&mut self, button: Button, value: u32)
        ensures
            final(self)@ == apply_event(old(self)@, InputEvent::ButtonChanged(button, value)),
    {
        match button {
            Button::Start => self.start = value,
            Button::Select => self.select = value,
            Button::LeftTrigger => self.left_trigger_1 = value,
            Button::LeftTrigger2 => self.left_trigger_2 = value,
            Button::RightTrigger => self.right_trigger_1 = value,
            Button::RightTrigger2 => self.right_trigger_2 = value,
            _ => {},
        }
        assert(self@ =~= apply_event(old(self)@, InputEvent::ButtonChanged(button, value)));
    }

    fn update_axis(&mut self, axis: Axis, value: u32)
        ensures
            final(self)@ == apply_event(old(self)@, InputEvent::AxisChanged(axis, value)),
    {
        match axis {
            Axis::LeftStickX => self.left_axis_x = value,
            Axis::LeftStickY => self.left_axis_y = value,
            Axis::RightStickX => self.right_axis_x = value,
            Axis::RightStickY => self.right_axis_y = value,
            _ => {},
        }
        assert(self@ =~= apply_event(old(self)@, InputEvent::AxisChanged(axis, value)));
    }

    /// Which branch of the differential-drive mapping the left stick selects.
    pub fn drive_branch(&self) -> (r: DriveBranch)
        ensures
            r == drive_branch_spec(self@[Control::LeftAxisX], self@[Control::LeftAxisY]),
    {
        drive_branch_of(self.left_axis_x, self.left_axis_y)
    }
}

impl Default for JointState {
    fn default() -> (r: JointState)
        ensures
            r@ == rest_snapshot(),
    {
        JointState::new()
    }
}

/// An unrecognized button or axis leaves every control as it was.
pub proof fn lemma_unrecognized_event_ignored(s: JointState, e: InputEvent)
    requires
        e matches InputEvent::ButtonChanged(b, _) ==> button_control(b) is None,
        e matches InputEvent::AxisChanged(a, _) ==> axis_control(a) is None,
    ensures
        apply_event(s@, e) == s@,
{
}

/// A change of one of the six recognized buttons or four recognized axes sets
/// exactly its own control to the new value; every other control keeps its value.
pub proof fn lemma_recognized_event_sets_one_control(s: JointState, e: InputEvent, c: Control, v: u32)
    requires
        event_target(e) == Some((c, v)),
    ensures
        apply_event(s@, e)[c] == v,
        apply_event(s@, e).dom() == s@.dom(),
        forall|d: Control| d != c ==> #[trigger] apply_event(s@, e)[d] == s@[d],
{
    s.lemma_view_total();
    assert(apply_event(s@, e).dom() =~= s@.dom());
}

/// The branch of the mapping: the exact centre, or which axis bounds the
/// stick's square at its angle.
#[derive(Clone, Copy, Debug, PartialEq, Eq, Structural)]
pub enum DriveBranch {
    /// Both axes are exactly zero (either sign): the output is zero.
    Centered,
    /// `|x| > |y|`: the maximum radius is scaled by `x`.
    ByX,
    /// Otherwise (`|x| <= |y|`, or a NaN): the maximum radius is scaled by `y`.
    ByY,
}

pub const SIGN_BIT: u32 = 0x8000_0000;

pub const POSITIVE_INFINITY_BITS: u32 = 0x7f80_0000;

/// The bit pattern of `|v|`: the sign bit cleared.
pub open spec fn magnitude_bits(b: u32) -> int {
    b as int % (SIGN_BIT as int)
}

pub open spec fn is_nan_bits(b: u32) -> bool {
    magnitude_bits(b) > POSITIVE_INFINITY_BITS as int
}

/// The value is `0.0` or `-0.0`.
pub open spec fn is_zero_bits(b: u32) -> bool {
    magnitude_bits(b) == 0
}

/// The bit pattern of `-v`: the sign bit flipped.
pub open spec fn negated_bits(b: u32) -> u32 {
    if b >= SIGN_BIT {
        (b - SIGN_BIT) as u32
    } else {
        (b + SIGN_BIT) as u32
    }
}

/// `|x| > |y|` as IEEE-754 compares them: false when either is a NaN;
/// otherwise magnitudes order as their bit patterns do.
pub open spec fn abs_greater(x: u32, y: u32) -> bool {
    !is_nan_bits(x) && !is_nan_bits(y) && magnitude_bits(x) > magnitude_bits(y)
}

pub open spec fn drive_branch_spec(x: u32, y: u32) -> DriveBranch {
    if is_zero_bits(x) && is_zero_bits(y) {
        DriveBranch::Centered
    } else if abs_greater(x, y) {
        DriveBranch::ByX
    } else {
        DriveBranch::ByY
    }
}

fn magnitude_of(b: u32) -> (r: u32)
    ensures
        r as int == magnitude_bits(b),
{
    b % SIGN_BIT
}

/// Which branch of the differential-drive mapping a stick at `(x, y)` takes.
pub fn drive_branch_of(x: u32, y: u32) -> (r: DriveBranch)
    ensures
        r == drive_branch_spec(x, y),
{
    let mx = magnitude_of(x);
    let my = magnitude_of(y);
    if mx == 0 && my == 0 {
        DriveBranch::Centered
    } else if mx <= POSITIVE_INFINITY_BITS && my <= POSITIVE_INFINITY_BITS && mx > my {
        DriveBranch::ByX
    } else {
        DriveBranch::ByY
    }
}

/// Negating both axes selects the same branch: the centre stays the centre,
/// and the comparison of magnitudes is unchanged.
pub proof fn lemma_drive_branch_negation(x: u32, y: u32)
    ensures
        drive_branch_spec(negated_bits(x), negated_bits(y)) == drive_branch_spec(x, y),
{
    assert(magnitude_bits(negated_bits(x)) == magnitude_bits(x));
    assert(magnitude_bits(negated_bits(y)) == magnitude_bits(y));
}

} // verus!
