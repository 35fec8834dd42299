//! One reading of the three-axis accelerometer.

use vstd::prelude::*;

verus! {

/// Acceleration along the three sensor axes, in thousandths of standard
/// gravity.
#[derive(Clone, Copy, Debug, PartialEq, Eq, Structural)]
pub struct AccelSample {
    pub x_mg: i32,
    pub y_mg: i32,
    pub z_mg: i32,
}

impl AccelSample {
    /// The orientation gate: the device shows a cursor only while gravity
    /// reads negative along the third axis.
    pub open spec fn gate_open(&self) -> bool {
        self.z_mg < 0
    }

    pub fn new(x_mg: i32, y_mg: i32, z_mg: i32) -> (sample: AccelSample)
        ensures
            sample.x_mg == x_mg,
            sample.y_mg == y_mg,
            sample.z_mg == z_mg,
    {
        AccelSample { x_mg, y_mg, z_mg }
    }

    /// Whether a cursor may be shown for this reading.
    pub fn is_face_up(&self) -> (open: bool)
        ensures
            open == self.gate_open(),
    {
        self.z_mg < 0
    }
}

} // verus!
