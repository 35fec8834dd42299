//! The cursor renderer: it owns the cursor and the time a frame is held, and
//! turns a coordinate into the frame to show.

use vstd::prelude::*;
use crate::frame::Frame;
use crate::grid::{clamp, clamp_spec, GridCoordinate};

verus! {

/// What the display is to do: show `frame` and hold it for `persist_ms`
/// milliseconds.
#[derive(Clone, Copy, Debug, PartialEq, Eq)]
pub struct RenderCommand {
    pub frame: Frame,
    pub persist_ms: u32,
}

/// The command that shows the cursor at `coord`: the frame whose one lit cell
/// is at row `coord.x + 2` and column `coord.y + 2`, so that the centre of the
/// grid is the middle cell, to be held for `persist_ms` milliseconds.
pub fn render(coord: GridCoordinate, persist_ms: u32) -> (shown: RenderCommand)
    requires
        coord.on_grid(),
    ensures
        shown.frame.only_lit(coord.x + 2, coord.y + 2),
        shown.persist_ms == persist_ms,
{
    let (row, col) = coord.cell();
    RenderCommand { frame: Frame::single(row, col), persist_ms }
}

/// The renderer's state. The cursor is the coordinate last drawn, the centre
/// before anything was drawn, and it is always on the grid.
#[derive(Clone, Copy, Debug, PartialEq, Eq)]
pub struct Level {
    delay: u32,
    cursor: GridCoordinate,
}

impl Level {
    /// The invariant of every renderer: its cursor is on the grid.
    #[verifier::type_invariant]
    pub closed spec fn valid(self) -> bool {
        self.cursor.on_grid()
    }

    /// What the invariant says of the cursor.
    pub proof fn lemma_valid_on_grid(self)
        requires
            self.valid(),
        ensures
            self.position().on_grid(),
    {
    }

    /// Milliseconds for which each frame is held.
    pub closed spec fn delay_ms(&self) -> u32 {
        self.delay
    }

    /// The coordinate last drawn.
    pub closed spec fn position(&self) -> GridCoordinate {
        self.cursor
    }

    /// A renderer that holds each frame for 100 ms, its cursor at the centre.
    pub fn new() -> (level: Level)
        ensures
            level.delay_ms() == 100,
            level.position().x == 0,
            level.position().y == 0,
    {
        Level { delay: 100, cursor: GridCoordinate::centre() }
    }

    /// Milliseconds for which each frame is held.
    pub fn delay(&self) -> (ms: u32)
        ensures
            ms == self.delay_ms(),
    {
        self.delay
    }

    /// The coordinate last drawn, which is on the grid.
    pub fn cursor(&self) -> (coord: GridCoordinate)
        ensures
            coord == self.position(),
            coord.on_grid(),
    {
        proof {
            use_type_invariant(self);
        }
        self.cursor
    }

    /// Sets the time for which frames are held from now on.
    pub fn set_delay(&mut self, delay: u32)
        ensures
            final(self).delay_ms() == delay,
            final(self).position() == old(self).position(),
    {
        proof {
            use_type_invariant(&*self);
        }
        self.delay = delay;
    }

    /// Draws the cell at row `x` and column `y` of the frame, both counted
    /// from 0: the command holds the frame with that one cell lit and the
    /// renderer's delay, and the cursor moves to that cell.
    pub fn draw(&mut self, x: usize, y: usize) -> (shown: RenderCommand)
        requires
            x < 5,
            y < 5,
        ensures
            shown.frame.only_lit(x as int, y as int),
            shown.persist_ms == old(self).delay_ms(),
            final(self).delay_ms() == old(self).delay_ms(),
            final(self).position().x == x - 2,
            final(self).position().y == y - 2,
    {
        self.cursor = GridCoordinate { x: (x as i8) - 2, y: (y as i8) - 2 };
        render(self.cursor, self.delay)
    }

    /// Draws the coordinate `x`, `y`, counted from the centre, after clamping
    /// each axis to the grid.
    pub fn set(&mut self, x: i8, y: i8) -> (shown: RenderCommand)
        ensures
            shown.frame.only_lit(clamp_spec(x as int) + 2, clamp_spec(y as int) + 2),
            shown.persist_ms == old(self).delay_ms(),
            final(self).delay_ms() == old(self).delay_ms(),
            final(self).position().x == clamp_spec(x as int),
            final(self).position().y == clamp_spec(y as int),
    {
        let x = clamp(x);
        let y = clamp(y);
        self.draw((x + 2) as usize, (y + 2) as usize)
    }
}

} // verus!
