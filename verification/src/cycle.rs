//! One cycle of the control loop, as a step from state and event to the next
//! state and the frame to show, if any.

use vstd::prelude::*;
use crate::grid::{compute, cursor_for, GridCoordinate};
use crate::level::{Level, RenderCommand};
use crate::mode::{next_mode, update, ButtonState, SensitivityMode};
use crate::sample::AccelSample;

verus! {

/// What one cycle learned from the hardware.
#[derive(Clone, Copy, Debug, PartialEq, Eq, Structural)]
pub enum CycleEvent {
    /// The sensor gave no sample; the buttons were not read.
    ReadFailed,
    /// A fresh sample, and the buttons as read after it.
    Sample { sample: AccelSample, buttons: ButtonState },
}

/// The loop's state: the sensitivity mode and the renderer.
#[derive(Clone, Copy, Debug, PartialEq, Eq)]
pub struct Controller {
    mode: SensitivityMode,
    level: Level,
}

impl CycleEvent {
    /// A cycle renders exactly when it has a sample and the sample's
    /// orientation gate is open.
    pub open spec fn renders(self) -> bool {
        match self {
            CycleEvent::ReadFailed => false,
            CycleEvent::Sample { sample, buttons } => sample.gate_open(),
        }
    }
}

impl Controller {
    /// The current sensitivity mode.
    pub closed spec fn mode_spec(&self) -> SensitivityMode {
        self.mode
    }

    /// The coordinate last rendered.
    pub closed spec fn position(&self) -> GridCoordinate {
        self.level.position()
    }

    /// Milliseconds for which each frame is held.
    pub closed spec fn delay_ms(&self) -> u32 {
        self.level.delay_ms()
    }

    /// The mode after `event`.
    pub open spec fn mode_after(&self, event: CycleEvent) -> SensitivityMode {
        match event {
            CycleEvent::ReadFailed => self.mode_spec(),
            CycleEvent::Sample { sample, buttons } => next_mode(buttons, self.mode_spec()),
        }
    }

    /// The coordinate rendered after `event`: the clamped transform of the
    /// sample under the updated mode where the cycle renders, else what it
    /// was.
    pub open spec fn position_after(&self, event: CycleEvent) -> GridCoordinate {
        match event {
            CycleEvent::ReadFailed => self.position(),
            CycleEvent::Sample { sample, buttons } => if sample.gate_open() {
                cursor_for(sample, next_mode(buttons, self.mode_spec()))
            } else {
                self.position()
            },
        }
    }

    /// A controller in `Coarse` mode around `level`.
    pub fn new(level: Level) -> (controller: Controller)
        ensures
            controller.mode_spec() == SensitivityMode::Coarse,
            controller.position() == level.position(),
            controller.delay_ms() == level.delay_ms(),
    {
        Controller { mode: SensitivityMode::Coarse, level }
    }

    /// The current sensitivity mode.
    pub fn mode(&self) -> (mode: SensitivityMode)
        ensures
            mode == self.mode_spec(),
    {
        self.mode
    }

    /// The coordinate last rendered, which is on the grid.
    pub fn cursor(&self) -> (coord: GridCoordinate)
        ensures
            coord == self.position(),
            coord.on_grid(),
    {
        self.level.cursor()
    }

    /// Milliseconds for which each frame is held.
    pub fn delay(&self) -> (ms: u32)
        ensures
            ms == self.delay_ms(),
    {
        self.level.delay()
    }

    /// Sets the time for which frames are held from now on.
    pub fn set_delay(&mut self, delay: u32)
        ensures
            final(self).delay_ms() == delay,
            final(self).position() == old(self).position(),
            final(self).mode_spec() == old(self).mode_spec(),
    {
        self.level.set_delay(delay);
    }

    /// Runs one cycle. A failed read changes nothing and shows nothing. A
    /// sample first updates the mode from the buttons; then, where its
    /// orientation gate is open, the cursor moves to the clamped transform of
    /// the sample and the frame with that one cell lit is returned to be
    /// shown; where it is closed, the cursor stays and nothing is shown.
    pub fn run_one_cycle(&mut self, event: CycleEvent) -> (action: Option<RenderCommand>)
        ensures
            final(self).mode_spec() == old(self).mode_after(event),
            final(self).position() == old(self).position_after(event),
            final(self).delay_ms() == old(self).delay_ms(),
            final(self).position().on_grid(),
            event is ReadFailed ==> *final(self) == *old(self),
            action is Some <==> event.renders(),
            action matches Some(shown) ==> shown.persist_ms == old(self).delay_ms()
                && shown.frame.only_lit(
                final(self).position().x + 2,
                final(self).position().y + 2,
            ),
    {
        proof {
            use_type_invariant(&self.level);
            self.level.lemma_valid_on_grid();
        }
        match event {
            CycleEvent::ReadFailed => None,
            CycleEvent::Sample { sample, buttons } => {
                self.mode = update(buttons, self.mode);
                let coord = compute(sample, self.mode);
                if sample.is_face_up() {
                    Some(self.level.set(coord.x, coord.y))
                } else {
                    None
                }
            },
        }
    }
}

/// While the orientation gate is closed nothing is rendered: for a sample
/// whose third axis is not negative, a cycle shows nothing and leaves the
/// rendered coordinate as it was.
pub proof fn lemma_closed_gate_keeps_frame(state: Controller, sample: AccelSample, buttons: ButtonState)
    requires
        sample.z_mg >= 0,
    ensures
        !(CycleEvent::Sample { sample, buttons }).renders(),
        state.position_after(CycleEvent::Sample { sample, buttons }) == state.position(),
{
}

/// A failed read is no partial update: the mode and the rendered coordinate
/// are what they were, and nothing is rendered.
pub proof fn lemma_failed_read_changes_nothing(state: Controller)
    ensures
        !CycleEvent::ReadFailed.renders(),
        state.mode_after(CycleEvent::ReadFailed) == state.mode_spec(),
        state.position_after(CycleEvent::ReadFailed) == state.position(),
{
}

/// A cycle keeps the rendered coordinate on the grid, whatever the event.
pub proof fn lemma_position_stays_on_grid(state: Controller, event: CycleEvent)
    requires
        state.position().on_grid(),
    ensures
        state.position_after(event).on_grid(),
{
}

} // verus!
