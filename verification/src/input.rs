//! Input abstraction: each player owns a control source (one of two
//! keyboard layouts or a controller slot), and once per frame the back-end
//! resolves it to six logical buttons. The mapping from a control source
//! to concrete keys or pad buttons is fixed and lives here; polling the
//! hardware is the back-end's job.

use vstd::prelude::*;

verus! {

/// The two fixed keyboard layouts a player can be assigned.
#[derive(Clone, Copy, PartialEq, Eq, Structural, Debug)]
pub enum KeyboardControls {
    WASD,
    ArrowKeys,
}

/// A player's control source: a keyboard layout or a controller slot.
#[derive(Clone, Copy, PartialEq, Eq, Structural, Debug)]
pub enum InputType {
    Keyboard(KeyboardControls),
    Controller(usize),
}

/// The keyboard keys the two layouts bind.
#[derive(Clone, Copy, PartialEq, Eq, Structural, Debug)]
pub enum Key {
    W,
    A,
    S,
    D,
    F,
    G,
    H,
    J,
    Up,
    Down,
    Left,
    Right,
}

/// The controller face buttons the pad layout binds.
#[derive(Clone, Copy, PartialEq, Eq, Structural, Debug)]
pub enum PadButton {
    LeftFaceUp,
    LeftFaceDown,
    LeftFaceLeft,
    LeftFaceRight,
}

/// A controller assignment spelled out: which pad button answers for each
/// logical button of the numbered controller.
#[derive(Clone, Copy, PartialEq, Eq, Structural, Debug)]
pub struct ControllerControls {
    pub number: u32,
    pub up: PadButton,
    pub down: PadButton,
    pub left: PadButton,
    pub right: PadButton,
    pub primary: PadButton,
    pub secondary: PadButton,
}

/// The six keyboard keys bound to the six logical buttons.
#[derive(Clone, Copy, PartialEq, Eq, Structural, Debug)]
pub struct KeyboardInput {
    pub up: Key,
    pub down: Key,
    pub left: Key,
    pub right: Key,
    pub primary: Key,
    pub secondary: Key,
}

/// The six pad buttons bound to the six logical buttons.
#[derive(Clone, Copy, PartialEq, Eq, Structural, Debug)]
pub struct GamepadInput {
    pub up: PadButton,
    pub down: PadButton,
    pub left: PadButton,
    pub right: PadButton,
    pub primary: PadButton,
    pub secondary: PadButton,
}

/// A resolved binding: which physical control answers for each logical
/// button this frame.
#[derive(Clone, Copy, PartialEq, Eq, Structural, Debug)]
pub enum ControlsType {
    Keyboard(KeyboardInput),
    Gamepad(GamepadInput),
}

/// The six logical buttons as the back-end read them this frame: each is
/// the currently-held state, with no chording and no debounce.
#[derive(Clone, Copy, PartialEq, Eq, Structural, Debug)]
pub struct Buttons {
    pub up: bool,
    pub down: bool,
    pub left: bool,
    pub right: bool,
    pub primary: bool,
    pub secondary: bool,
}

impl Buttons {
    /// All six buttons released.
    pub fn released() -> (b: Buttons)
        ensures
            b == (Buttons {
                up: false,
                down: false,
                left: false,
                right: false,
                primary: false,
                secondary: false,
            }),
    {
        Buttons { up: false, down: false, left: false, right: false, primary: false, secondary: false }
    }
}

/// The fixed binding of the WASD layout.
pub open spec fn wasd_bindings() -> KeyboardInput {
    KeyboardInput {
        up: Key::W,
        down: Key::S,
        left: Key::A,
        right: Key::D,
        primary: Key::F,
        secondary: Key::G,
    }
}

/// The fixed binding of the arrow-key layout.
pub open spec fn arrow_bindings() -> KeyboardInput {
    KeyboardInput {
        up: Key::Up,
        down: Key::Down,
        left: Key::Left,
        right: Key::Right,
        primary: Key::H,
        secondary: Key::J,
    }
}

/// The fixed binding of a controller: the four left face buttons drive the
/// directions, and the right and left ones double as primary and
/// secondary.
pub open spec fn pad_bindings() -> GamepadInput {
    GamepadInput {
        up: PadButton::LeftFaceUp,
        down: PadButton::LeftFaceDown,
        left: PadButton::LeftFaceLeft,
        right: PadButton::LeftFaceRight,
        primary: PadButton::LeftFaceRight,
        secondary: PadButton::LeftFaceLeft,
    }
}

/// Resolving a control source to its fixed binding.
pub fn bindings(controls: InputType) -> (r: ControlsType)
    ensures
        controls matches InputType::Keyboard(KeyboardControls::WASD)
            ==> r == ControlsType::Keyboard(wasd_bindings()),
        controls matches InputType::Keyboard(KeyboardControls::ArrowKeys)
            ==> r == ControlsType::Keyboard(arrow_bindings()),
        controls matches InputType::Controller(_) ==> r == ControlsType::Gamepad(pad_bindings()),
{
    match controls {
        InputType::Keyboard(KeyboardControls::WASD) => ControlsType::Keyboard(KeyboardInput {
            up: Key::W,
            down: Key::S,
            left: Key::A,
            right: Key::D,
            primary: Key::F,
            secondary: Key::G,
        }),
        InputType::Keyboard(KeyboardControls::ArrowKeys) => ControlsType::Keyboard(KeyboardInput {
            up: Key::Up,
            down: Key::Down,
            left: Key::Left,
            right: Key::Right,
            primary: Key::H,
            secondary: Key::J,
        }),
        InputType::Controller(_) => ControlsType::Gamepad(GamepadInput {
            up: PadButton::LeftFaceUp,
            down: PadButton::LeftFaceDown,
            left: PadButton::LeftFaceLeft,
            right: PadButton::LeftFaceRight,
            primary: PadButton::LeftFaceRight,
            secondary: PadButton::LeftFaceLeft,
        }),
    }
}

/// Which physical controller device answers for a player: slots 0 and 1
/// are the two keyboard layouts, so controller players map their number
/// down by two. A known quirk of the design, kept as it stands: the
/// player's number, not the controller slot payload, picks the device.
pub fn gamepad_device_index(number: u32) -> (d: i64)
    ensures
        d == number as int - 2,
{
    number as i64 - 2
}

} // verus!
