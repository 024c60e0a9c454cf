//! The camera: a position and an orientation, moved only by additive nudges.

use vstd::prelude::*;

verus! {

/// Fixed-point resolution of every camera quantity: positions are held in
/// thousandths of a world unit and angles in thousandths of a radian.
pub const UNITS_PER_WORLD: i64 = 1000;

/// The size of one keyboard nudge: a tenth of a world unit, or a tenth of a
/// radian.
pub const STEP: i64 = 100;

/// Position (`x`, `y`, `z`) and orientation (`pitch`, `yaw`), in fixed point
/// (see [`UNITS_PER_WORLD`]). No field is clamped.
#[derive(Clone, Copy, Debug, PartialEq, Eq, Structural)]
pub struct Camera {
    pub x: i64,
    pub y: i64,
    pub z: i64,
    pub pitch: i64,
    pub yaw: i64,
}

/// Whether an integer fits in an `i64`.
pub open spec fn fits_i64(v: int) -> bool {
    i64::MIN <= v <= i64::MAX
}

impl Camera {
    /// The starting pose: at the origin, looking straight ahead.
    pub fn new() -> (c: Camera)
        ensures
            c == (Camera { x: 0, y: 0, z: 0, pitch: 0, yaw: 0 }),
    {
        Camera { x: 0, y: 0, z: 0, pitch: 0, yaw: 0 }
    }

    /// Translates along the x axis by `dx`.
    pub fn add_x(&mut self, dx: i64)
        requires
            fits_i64(old(self).x + dx),
        ensures
            final(self).x == old(self).x + dx,
            final(self).y == old(self).y,
            final(self).z == old(self).z,
            final(self).pitch == old(self).pitch,
            final(self).yaw == old(self).yaw,
    {
        self.x = self.x + dx;
    }

    /// Translates along the y axis by `dy`.
    pub fn add_y(&mut self, dy: i64)
        requires
            fits_i64(old(self).y + dy),
        ensures
            final(self).x == old(self).x,
            final(self).y == old(self).y + dy,
            final(self).z == old(self).z,
            final(self).pitch == old(self).pitch,
            final(self).yaw == old(self).yaw,
    {
        self.y = self.y + dy;
    }

    /// Translates along the z axis by `dz`.
    pub fn add_z(&mut self, dz: i64)
        requires
            fits_i64(old(self).z + dz),
        ensures
            final(self).x == old(self).x,
            final(self).y == old(self).y,
            final(self).z == old(self).z + dz,
            final(self).pitch == old(self).pitch,
            final(self).yaw == old(self).yaw,
    {
        self.z = self.z + dz;
    }

    /// Tilts up by `dp`.
    pub fn add_pitch(&mut self, dp: i64)
        requires
            fits_i64(old(self).pitch + dp),
        ensures
            final(self).x == old(self).x,
            final(self).y == old(self).y,
            final(self).z == old(self).z,
            final(self).pitch == old(self).pitch + dp,
            final(self).yaw == old(self).yaw,
    {
        self.pitch = self.pitch + dp;
    }

    /// Turns by `dy`.
    pub fn add_yaw(&mut self, dy: i64)
        requires
            fits_i64(old(self).yaw + dy),
        ensures
            final(self).x == old(self).x,
            final(self).y == old(self).y,
            final(self).z == old(self).z,
            final(self).pitch == old(self).pitch,
            final(self).yaw == old(self).yaw + dy,
    {
        self.yaw = self.yaw + dy;
    }
}

} // verus!
