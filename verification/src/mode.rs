//! The sensitivity mode and the two buttons that select it.

use vstd::prelude::*;

verus! {

/// How much tilt moves the cursor by one cell.
#[derive(Clone, Copy, Debug, PartialEq, Eq, Structural)]
pub enum SensitivityMode {
    /// 250 mg per cell: the full tilt range spans the grid.
    Coarse,
    /// 25 mg per cell: a tenth of the tilt moves the cursor as far.
    Fine,
}

/// The two momentary buttons, as read in one cycle.
#[derive(Clone, Copy, Debug, PartialEq, Eq, Structural)]
pub struct ButtonState {
    pub a_pressed: bool,
    pub b_pressed: bool,
}

impl SensitivityMode {
    /// Milli-g per grid cell in this mode.
    pub open spec fn divisor_spec(self) -> int {
        match self {
            SensitivityMode::Coarse => 250,
            SensitivityMode::Fine => 25,
        }
    }

    /// Milli-g per grid cell in this mode.
    pub fn divisor(self) -> (d: u32)
        ensures
            d == self.divisor_spec(),
    {
        match self {
            SensitivityMode::Coarse => 250,
            SensitivityMode::Fine => 25,
        }
    }
}

/// The mode after one reading of the buttons: B alone selects `Fine`, A alone
/// selects `Coarse`, and both or neither leave the mode as it was.
pub open spec fn next_mode(buttons: ButtonState, previous_mode: SensitivityMode) -> SensitivityMode {
    if buttons.b_pressed && !buttons.a_pressed {
        SensitivityMode::Fine
    } else if buttons.a_pressed && !buttons.b_pressed {
        SensitivityMode::Coarse
    } else {
        previous_mode
    }
}

/// Applies one reading of the buttons to the mode.
pub fn update(buttons: ButtonState, previous_mode: SensitivityMode) -> (mode: SensitivityMode)
    ensures
        mode == next_mode(buttons, previous_mode),
        buttons.a_pressed == buttons.b_pressed ==> mode == previous_mode,
{
    let mut mode = previous_mode;
    if !buttons.a_pressed && buttons.b_pressed {
        mode = SensitivityMode::Fine;
    }
    if buttons.a_pressed && !buttons.b_pressed {
        mode = SensitivityMode::Coarse;
    }
    mode
}

/// A selection is latched: after one button was pressed alone, releasing both
/// keeps the mode that the button selected, whatever the mode was before.
pub proof fn lemma_mode_latch(previous_mode: SensitivityMode, pressed: ButtonState, released: ButtonState)
    requires
        pressed.a_pressed != pressed.b_pressed,
        !released.a_pressed && !released.b_pressed,
    ensures
        next_mode(released, next_mode(pressed, previous_mode)) == next_mode(pressed, previous_mode),
        pressed.a_pressed ==> next_mode(released, next_mode(pressed, previous_mode))
            == SensitivityMode::Coarse,
        pressed.b_pressed ==> next_mode(released, next_mode(pressed, previous_mode))
            == SensitivityMode::Fine,
{
}

/// Pressing both buttons at once changes nothing.
pub proof fn lemma_both_pressed_keeps_mode(previous_mode: SensitivityMode, buttons: ButtonState)
    requires
        buttons.a_pressed && buttons.b_pressed,
    ensures
        next_mode(buttons, previous_mode) == previous_mode,
{
}

} // verus!
