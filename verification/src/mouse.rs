//! Mouse events and the records by which they are injected.

use vstd::prelude::*;

verus! {

/// The flag of a relative or absolute move.
pub const MOUSEEVENTF_MOVE: u32 = 0x0001;

/// The flag of the left button going down.
pub const MOUSEEVENTF_LEFTDOWN: u32 = 0x0002;

/// The flag of the left button going up.
pub const MOUSEEVENTF_LEFTUP: u32 = 0x0004;

/// The flag of the right button going down.
pub const MOUSEEVENTF_RIGHTDOWN: u32 = 0x0008;

/// The flag of the right button going up.
pub const MOUSEEVENTF_RIGHTUP: u32 = 0x0010;

/// The flag of the middle button going down.
pub const MOUSEEVENTF_MIDDLEDOWN: u32 = 0x0020;

/// The flag of the middle button going up.
pub const MOUSEEVENTF_MIDDLEUP: u32 = 0x0040;

/// The flag of an extra button going down; the record's data tells which.
pub const MOUSEEVENTF_XDOWN: u32 = 0x0080;

/// The flag of an extra button going up; the record's data tells which.
pub const MOUSEEVENTF_XUP: u32 = 0x0100;

/// The flag of a turn of the wheel; the record's data holds the amount.
pub const MOUSEEVENTF_WHEEL: u32 = 0x0800;

/// The flag of a tilt of the wheel; the record's data holds the amount.
pub const MOUSEEVENTF_HWHEEL: u32 = 0x1000;

/// The flag of a move whose coordinates are absolute.
pub const MOUSEEVENTF_ABSOLUTE: u32 = 0x8000;

/// The data of a record that moves the first extra button.
pub const XBUTTON1: i32 = 0x0001;

/// The data of a record that moves the second extra button.
pub const XBUTTON2: i32 = 0x0002;

/// The largest absolute coordinate: the far edge of the screen.
pub const ABSOLUTE_MAX: i64 = 65535;

/// A button of the mouse.
#[derive(Clone, Copy, Debug, PartialEq, Eq, Structural)]
pub enum MouseButton {
    ButtonLeft,
    ButtonRight,
    ButtonMiddle,
    ButtonX1,
    ButtonX2,
}

impl MouseButton {
    /// The number that stands for the button.
    pub open spec fn code(self) -> int {
        match self {
            MouseButton::ButtonLeft => 0,
            MouseButton::ButtonRight => 1,
            MouseButton::ButtonMiddle => 2,
            MouseButton::ButtonX1 => 3,
            MouseButton::ButtonX2 => 4,
        }
    }

    /// The button that `i` stands for, if it stands for one.
    pub fn from_i32(i: i32) -> (button: Option<MouseButton>)
        ensures
            match button {
                Some(b) => b.code() == i,
                None => forall|b: MouseButton| b.code() != i,
            },
    {
        match i {
            0 => Some(MouseButton::ButtonLeft),
            1 => Some(MouseButton::ButtonRight),
            2 => Some(MouseButton::ButtonMiddle),
            3 => Some(MouseButton::ButtonX1),
            4 => Some(MouseButton::ButtonX2),
            _ => None,
        }
    }

    /// The number that stands for the button.
    pub fn to_i32(&self) -> (i: i32)
        ensures
            i == self.code(),
    {
        match self {
            MouseButton::ButtonLeft => 0,
            MouseButton::ButtonRight => 1,
            MouseButton::ButtonMiddle => 2,
            MouseButton::ButtonX1 => 3,
            MouseButton::ButtonX2 => 4,
        }
    }
}

/// What is done to a button: it goes down, it goes up, or both.
#[derive(Clone, Copy, Debug, PartialEq, Eq, Structural)]
pub enum PressType {
    PressDown,
    PressUp,
    Click,
}

impl PressType {
    /// The number that stands for the kind of press.
    pub open spec fn code(self) -> int {
        match self {
            PressType::PressDown => 1,
            PressType::PressUp => 2,
            PressType::Click => 3,
        }
    }

    /// The kind of press that `i` stands for, if it stands for one.
    pub fn from_i32(i: i32) -> (press: Option<PressType>)
        ensures
            match press {
                Some(p) => p.code() == i,
                None => forall|p: PressType| p.code() != i,
            },
    {
        match i {
            1 => Some(PressType::PressDown),
            2 => Some(PressType::PressUp),
            3 => Some(PressType::Click),
            _ => None,
        }
    }

    /// The number that stands for the kind of press.
    pub fn to_i32(&self) -> (i: i32)
        ensures
            i == self.code(),
    {
        match self {
            PressType::PressDown => 1,
            PressType::PressUp => 2,
            PressType::Click => 3,
        }
    }
}

/// One mouse event.
#[derive(Clone, Copy, Debug, PartialEq, Eq)]
pub enum MouseInput {
    /// A move to a position on the screen, in pixels.
    MoveTo(i32, i32),
    /// A move by a distance, in pixels.
    MoveDelta(i32, i32),
    /// A press, a release or a click of a button.
    Press(MouseButton, PressType),
    /// A turn of the wheel by an amount.
    Wheel(i32),
    /// A tilt of the wheel by an amount.
    HWheel(i32),
}

/// One mouse event as it is handed to the platform's input queue.
#[derive(Clone, Copy, Debug, PartialEq, Eq)]
pub struct MouseRecord {
    pub dx: i32,
    pub dy: i32,
    pub mouse_data: i32,
    pub flags: u32,
}

/// The quotient of `a` by `b`, rounded towards zero.
pub open spec fn quotient(a: int, b: int) -> int {
    let magnitude = (if a < 0 {
        -a
    } else {
        a
    }) / (if b < 0 {
        -b
    } else {
        b
    });
    if (a < 0) == (b < 0) {
        magnitude
    } else {
        -magnitude
    }
}

/// The absolute coordinate of the pixel `position` on a screen that is
/// `extent` pixels wide or high: the position scaled so that the extent
/// becomes `ABSOLUTE_MAX`, cut to 32 bits.
pub open spec fn absolute_coordinate(position: i32, extent: i32) -> i32 {
    quotient(position * ABSOLUTE_MAX, extent as int) as i32
}

/// A position on the screen has an absolute coordinate between zero and
/// `ABSOLUTE_MAX`, which is then the scaled position itself: nothing is
/// cut off. The two edges of the screen have the two ends of the range.
pub proof fn lemma_absolute_on_screen(position: i32, extent: i32)
    requires
        0 <= position <= extent,
        extent > 0,
    ensures
        0 <= absolute_coordinate(position, extent) <= ABSOLUTE_MAX,
        absolute_coordinate(position, extent) == position * ABSOLUTE_MAX / (extent as int),
        absolute_coordinate(0, extent) == 0,
        absolute_coordinate(extent, extent) == ABSOLUTE_MAX,
{
    let scaled = position * ABSOLUTE_MAX;
    assert(0 <= scaled / (extent as int) <= 65535) by (nonlinear_arith)
        requires
            0 <= position <= extent,
            extent > 0,
            scaled == position * 65535,
    ;
    assert(0int / (extent as int) == 0) by (nonlinear_arith)
        requires
            extent > 0,
    ;
    assert(extent * 65535 / (extent as int) == 65535) by (nonlinear_arith)
        requires
            extent > 0,
    ;
}

/// The flags of a press: those of the button going down, going up, or both.
pub open spec fn press_flags(button: MouseButton, press: PressType) -> u32 {
    let (down, up) = match button {
        MouseButton::ButtonLeft => (MOUSEEVENTF_LEFTDOWN, MOUSEEVENTF_LEFTUP),
        MouseButton::ButtonRight => (MOUSEEVENTF_RIGHTDOWN, MOUSEEVENTF_RIGHTUP),
        MouseButton::ButtonMiddle => (MOUSEEVENTF_MIDDLEDOWN, MOUSEEVENTF_MIDDLEUP),
        MouseButton::ButtonX1 => (MOUSEEVENTF_XDOWN, MOUSEEVENTF_XUP),
        MouseButton::ButtonX2 => (MOUSEEVENTF_XDOWN, MOUSEEVENTF_XUP),
    };
    match press {
        PressType::PressDown => down,
        PressType::PressUp => up,
        PressType::Click => down | up,
    }
}

/// The data of a press: which extra button it moves, and zero for the
/// others.
pub open spec fn press_data(button: MouseButton) -> i32 {
    match button {
        MouseButton::ButtonX1 => XBUTTON1,
        MouseButton::ButtonX2 => XBUTTON2,
        _ => 0,
    }
}

/// The injection record of one mouse event on a screen of the size
/// `screen`, width first.
pub open spec fn record_of(input: MouseInput, screen: (i32, i32)) -> MouseRecord {
    match input {
        MouseInput::MoveTo(x, y) => MouseRecord {
            dx: absolute_coordinate(x, screen.0),
            dy: absolute_coordinate(y, screen.1),
            mouse_data: 0,
            flags: MOUSEEVENTF_MOVE | MOUSEEVENTF_ABSOLUTE,
        },
        MouseInput::MoveDelta(x, y) => MouseRecord {
            dx: x,
            dy: y,
            mouse_data: 0,
            flags: MOUSEEVENTF_MOVE,
        },
        MouseInput::Press(button, press) => MouseRecord {
            dx: 0,
            dy: 0,
            mouse_data: press_data(button),
            flags: press_flags(button, press),
        },
        MouseInput::Wheel(amount) => MouseRecord {
            dx: 0,
            dy: 0,
            mouse_data: amount,
            flags: MOUSEEVENTF_WHEEL,
        },
        MouseInput::HWheel(amount) => MouseRecord {
            dx: 0,
            dy: 0,
            mouse_data: amount,
            flags: MOUSEEVENTF_HWHEEL,
        },
    }
}

/// Such an event can be given a record on a screen of the size `screen`:
/// a move to a position needs a screen with a width and a height.
pub open spec fn placeable(input: MouseInput, screen: (i32, i32)) -> bool {
    input is MoveTo ==> screen.0 != 0 && screen.1 != 0
}

/// Scales a pixel position to an absolute coordinate.
fn scale(position: i32, extent: i32) -> (coordinate: i32)
    requires
        extent != 0,
    ensures
        coordinate == absolute_coordinate(position, extent),
{
    let scaled: i64 = position as i64 * ABSOLUTE_MAX;
    let extent: i64 = extent as i64;
    let dividend: u64 = if scaled < 0 {
        (-scaled) as u64
    } else {
        scaled as u64
    };
    let divisor: u64 = if extent < 0 {
        (-extent) as u64
    } else {
        extent as u64
    };
    let magnitude: i64 = (dividend / divisor) as i64;
    let quotient: i64 = if (scaled < 0) == (extent < 0) {
        magnitude
    } else {
        -magnitude
    };
    #[verifier::truncate]
    (quotient as i32)
}

/// The flags of a press of `button`.
fn flags_of(button: &MouseButton, press: &PressType) -> (flags: u32)
    ensures
        flags == press_flags(*button, *press),
{
    let (down, up) = match button {
        MouseButton::ButtonLeft => (MOUSEEVENTF_LEFTDOWN, MOUSEEVENTF_LEFTUP),
        MouseButton::ButtonRight => (MOUSEEVENTF_RIGHTDOWN, MOUSEEVENTF_RIGHTUP),
        MouseButton::ButtonMiddle => (MOUSEEVENTF_MIDDLEDOWN, MOUSEEVENTF_MIDDLEUP),
        MouseButton::ButtonX1 => (MOUSEEVENTF_XDOWN, MOUSEEVENTF_XUP),
        MouseButton::ButtonX2 => (MOUSEEVENTF_XDOWN, MOUSEEVENTF_XUP),
    };
    match press {
        PressType::PressDown => down,
        PressType::PressUp => up,
        PressType::Click => down | up,
    }
}

/// The injection record of `input` on a screen of the size `screen`,
/// width first.
pub fn mouse_record(input: &MouseInput, screen: (i32, i32)) -> (record: MouseRecord)
    requires
        placeable(*input, screen),
    ensures
        record == record_of(*input, screen),
{
    match input {
        MouseInput::MoveTo(x, y) => MouseRecord {
            dx: scale(*x, screen.0),
            dy: scale(*y, screen.1),
            mouse_data: 0,
            flags: MOUSEEVENTF_MOVE | MOUSEEVENTF_ABSOLUTE,
        },
        MouseInput::MoveDelta(x, y) => MouseRecord {
            dx: *x,
            dy: *y,
            mouse_data: 0,
            flags: MOUSEEVENTF_MOVE,
        },
        MouseInput::Press(button, press) => MouseRecord {
            dx: 0,
            dy: 0,
            mouse_data: match button {
                MouseButton::ButtonX1 => XBUTTON1,
                MouseButton::ButtonX2 => XBUTTON2,
                _ => 0,
            },
            flags: flags_of(button, press),
        },
        MouseInput::Wheel(amount) => MouseRecord {
            dx: 0,
            dy: 0,
            mouse_data: *amount,
            flags: MOUSEEVENTF_WHEEL,
        },
        MouseInput::HWheel(amount) => MouseRecord {
            dx: 0,
            dy: 0,
            mouse_data: *amount,
            flags: MOUSEEVENTF_HWHEEL,
        },
    }
}

/// The injection records of `mouse_inputs` on a screen of the size
/// `screen`, one for each event, in order.
pub fn input_mouses(mouse_inputs: &[MouseInput], screen: (i32, i32)) -> (records: Vec<MouseRecord>)
    requires
        forall|i: int| 0 <= i < mouse_inputs@.len() ==> placeable(#[trigger] mouse_inputs@[i], screen),
    ensures
        records@ == mouse_inputs@.map_values(|input: MouseInput| record_of(input, screen)),
{
    let mut records: Vec<MouseRecord> = Vec::new();
    for i in 0..mouse_inputs.len()
        invariant
            forall|i: int|
                0 <= i < mouse_inputs@.len() ==> placeable(#[trigger] mouse_inputs@[i], screen),
            records@ == mouse_inputs@.take(i as int).map_values(
                |input: MouseInput| record_of(input, screen),
            ),
    {
        records.push(mouse_record(&mouse_inputs[i], screen));
        assert(records@ =~= mouse_inputs@.take(i + 1).map_values(
            |input: MouseInput| record_of(input, screen),
        ));
    }
    assert(mouse_inputs@.take(mouse_inputs@.len() as int) =~= mouse_inputs@);
    records
}

/// The event that moves the pointer to the pixel (`x`, `y`).
pub fn move_to(x: i32, y: i32) -> (inputs: Vec<MouseInput>)
    ensures
        inputs@ == seq![MouseInput::MoveTo(x, y)],
{
    vec![MouseInput::MoveTo(x, y)]
}

/// The event that moves the pointer by (`x`, `y`) pixels.
pub fn move_delta(x: i32, y: i32) -> (inputs: Vec<MouseInput>)
    ensures
        inputs@ == seq![MouseInput::MoveDelta(x, y)],
{
    vec![MouseInput::MoveDelta(x, y)]
}

/// The event that clicks the left button.
pub fn left_click() -> (inputs: Vec<MouseInput>)
    ensures
        inputs@ == seq![MouseInput::Press(MouseButton::ButtonLeft, PressType::Click)],
{
    vec![MouseInput::Press(MouseButton::ButtonLeft, PressType::Click)]
}

/// The event that presses the left button.
pub fn left_down() -> (inputs: Vec<MouseInput>)
    ensures
        inputs@ == seq![MouseInput::Press(MouseButton::ButtonLeft, PressType::PressDown)],
{
    vec![MouseInput::Press(MouseButton::ButtonLeft, PressType::PressDown)]
}

/// The event that releases the left button.
pub fn left_up() -> (inputs: Vec<MouseInput>)
    ensures
        inputs@ == seq![MouseInput::Press(MouseButton::ButtonLeft, PressType::PressUp)],
{
    vec![MouseInput::Press(MouseButton::ButtonLeft, PressType::PressUp)]
}

/// The event that clicks the right button.
pub fn right_click() -> (inputs: Vec<MouseInput>)
    ensures
        inputs@ == seq![MouseInput::Press(MouseButton::ButtonRight, PressType::Click)],
{
    vec![MouseInput::Press(MouseButton::ButtonRight, PressType::Click)]
}

/// The event that clicks the middle button.
pub fn middle_click() -> (inputs: Vec<MouseInput>)
    ensures
        inputs@ == seq![MouseInput::Press(MouseButton::ButtonMiddle, PressType::Click)],
{
    vec![MouseInput::Press(MouseButton::ButtonMiddle, PressType::Click)]
}

/// The event that turns the wheel by `amount`.
pub fn wheel(amount: i32) -> (inputs: Vec<MouseInput>)
    ensures
        inputs@ == seq![MouseInput::Wheel(amount)],
{
    vec![MouseInput::Wheel(amount)]
}

/// The event that tilts the wheel by `amount`.
pub fn hwheel(amount: i32) -> (inputs: Vec<MouseInput>)
    ensures
        inputs@ == seq![MouseInput::HWheel(amount)],
{
    vec![MouseInput::HWheel(amount)]
}

/// The event that does `press` to the button `btn`.
pub fn button_press(btn: MouseButton, press: PressType) -> (inputs: Vec<MouseInput>)
    ensures
        inputs@ == seq![MouseInput::Press(btn, press)],
{
    vec![MouseInput::Press(btn, press)]
}

} // verus!
