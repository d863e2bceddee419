//! Positions, velocities and the movement of objects in the game world.
//!
//! Directions are angles in degrees, measured in a coordinate system whose y
//! axis points down the screen. Rather than real sines and cosines, the
//! movement uses whole-number steps: the amount by which the horizontal and
//! the vertical position change per unit of speed when moving in a direction.
use vstd::prelude::*;

verus! {

/// The vertical step per unit of speed for a direction in degrees.
pub open spec fn sin_step(d: u64) -> int
    decreases d,
{
    if d <= 360 {
        if d == 0 {
            0
        } else if d <= 15 {
            1
        } else if d <= 30 {
            1
        } else if d <= 44 {
            1
        } else if d == 45 {
            1
        } else if d <= 59 {
            2
        } else if d == 60 {
            2
        } else if d <= 74 {
            2
        } else if d <= 89 {
            3
        } else if d == 90 {
            1
        } else if d <= 105 {
            3
        } else if d <= 119 {
            2
        } else if d == 120 {
            2
        } else if d <= 134 {
            2
        } else if d == 135 {
            1
        } else if d <= 150 {
            1
        } else if d <= 165 {
            1
        } else if d <= 179 {
            1
        } else if d == 180 {
            0
        } else if d <= 194 {
            -1
        } else if d <= 209 {
            -1
        } else if d <= 224 {
            -1
        } else if d == 225 {
            -1
        } else if d <= 239 {
            -1
        } else if d <= 254 {
            -2
        } else if d <= 269 {
            -3
        } else if d == 270 {
            -1
        } else if d <= 285 {
            -3
        } else if d <= 300 {
            -2
        } else if d <= 314 {
            -2
        } else if d == 315 {
            -1
        } else if d <= 329 {
            -1
        } else if d <= 344 {
            -1
        } else if d <= 359 {
            -1
        } else if d == 360 {
            0
        } else {
            0
        }
    } else {
        sin_step(d % 360)
    }
}

/// The horizontal step per unit of speed for a direction in degrees.
///
/// Directions past a full turn take the vertical step of the reduced angle.
pub open spec fn cos_step(d: u64) -> int {
    if d <= 360 {
        if d == 0 {
            1
        } else if d <= 15 {
            3
        } else if d <= 30 {
            2
        } else if d <= 44 {
            2
        } else if d == 45 {
            1
        } else if d <= 60 {
            1
        } else if d <= 75 {
            1
        } else if d <= 89 {
            1
        } else if d == 90 {
            0
        } else if d <= 105 {
            -1
        } else if d <= 120 {
            -1
        } else if d <= 135 {
            -1
        } else if d <= 150 {
            -2
        } else if d <= 164 {
            -2
        } else if d <= 179 {
            -3
        } else if d == 180 {
            -1
        } else if d <= 195 {
            -3
        } else if d <= 210 {
            -2
        } else if d <= 224 {
            -2
        } else if d == 225 {
            -1
        } else if d <= 240 {
            -1
        } else if d <= 255 {
            -1
        } else if d <= 269 {
            -1
        } else if d == 270 {
            0
        } else if d <= 285 {
            1
        } else if d <= 300 {
            1
        } else if d <= 314 {
            1
        } else if d == 315 {
            1
        } else if d <= 330 {
            2
        } else if d <= 344 {
            2
        } else if d <= 359 {
            3
        } else if d == 360 {
            1
        } else {
            0
        }
    } else {
        sin_step(d % 360)
    }
}

/// The vertical step per unit of speed for a direction in degrees.
pub fn direction_sin(d: u64) -> (r: i16)
    ensures
        r == sin_step(d),
        -3 <= r <= 3,
    decreases d,
{
    if d <= 360 {
        if d == 0 {
            0
        } else if d <= 15 {
            1
        } else if d <= 30 {
            1
        } else if d <= 44 {
            1
        } else if d == 45 {
            1
        } else if d <= 59 {
            2
        } else if d == 60 {
            2
        } else if d <= 74 {
            2
        } else if d <= 89 {
            3
        } else if d == 90 {
            1
        } else if d <= 105 {
            3
        } else if d <= 119 {
            2
        } else if d == 120 {
            2
        } else if d <= 134 {
            2
        } else if d == 135 {
            1
        } else if d <= 150 {
            1
        } else if d <= 165 {
            1
        } else if d <= 179 {
            1
        } else if d == 180 {
            0
        } else if d <= 194 {
            -1
        } else if d <= 209 {
            -1
        } else if d <= 224 {
            -1
        } else if d == 225 {
            -1
        } else if d <= 239 {
            -1
        } else if d <= 254 {
            -2
        } else if d <= 269 {
            -3
        } else if d == 270 {
            -1
        } else if d <= 285 {
            -3
        } else if d <= 300 {
            -2
        } else if d <= 314 {
            -2
        } else if d == 315 {
            -1
        } else if d <= 329 {
            -1
        } else if d <= 344 {
            -1
        } else if d <= 359 {
            -1
        } else if d == 360 {
            0
        } else {
            0
        }
    } else {
        direction_sin(d % 360)
    }
}

/// The horizontal step per unit of speed for a direction in degrees.
pub fn direction_cos(d: u64) -> (r: i16)
    ensures
        r == cos_step(d),
        -3 <= r <= 3,
{
    if d <= 360 {
        if d == 0 {
            1
        } else if d <= 15 {
            3
        } else if d <= 30 {
            2
        } else if d <= 44 {
            2
        } else if d == 45 {
            1
        } else if d <= 60 {
            1
        } else if d <= 75 {
            1
        } else if d <= 89 {
            1
        } else if d == 90 {
            0
        } else if d <= 105 {
            -1
        } else if d <= 120 {
            -1
        } else if d <= 135 {
            -1
        } else if d <= 150 {
            -2
        } else if d <= 164 {
            -2
        } else if d <= 179 {
            -3
        } else if d == 180 {
            -1
        } else if d <= 195 {
            -3
        } else if d <= 210 {
            -2
        } else if d <= 224 {
            -2
        } else if d == 225 {
            -1
        } else if d <= 240 {
            -1
        } else if d <= 255 {
            -1
        } else if d <= 269 {
            -1
        } else if d == 270 {
            0
        } else if d <= 285 {
            1
        } else if d <= 300 {
            1
        } else if d <= 314 {
            1
        } else if d == 315 {
            1
        } else if d <= 330 {
            2
        } else if d <= 344 {
            2
        } else if d <= 359 {
            3
        } else if d == 360 {
            1
        } else {
            0
        }
    } else {
        direction_sin(d % 360)
    }
}

/// The sign of the vertical step: with the y axis pointing down the screen,
/// a direction strictly between 0 and 180 degrees (after whole turns are
/// taken off) moves down, one strictly between 180 and 360 degrees moves up,
/// and 0 and 180 degrees keep the height.
pub proof fn law_sin_step_sign(d: u64)
    ensures
        sin_step(d) > 0 <==> 1 <= d % 360 <= 179,
        sin_step(d) < 0 <==> 181 <= d % 360 <= 359,
        sin_step(d) == 0 <==> (d % 360 == 0 || d % 360 == 180),
    decreases d,
{
    if d > 360 {
        law_sin_step_sign(d % 360);
        assert((d % 360) % 360 == d % 360);
    }
}

/// The sign of the horizontal step within a full turn: a direction below
/// 90 degrees or above 270 degrees moves right, one strictly between 90 and
/// 270 degrees moves left, and 90 and 270 degrees keep the column.
pub proof fn law_cos_step_sign(d: u64)
    requires
        d <= 360,
    ensures
        cos_step(d) > 0 <==> (d <= 89 || 271 <= d),
        cos_step(d) < 0 <==> 91 <= d <= 269,
        cos_step(d) == 0 <==> (d == 90 || d == 270),
{
}

/// Mirroring a direction in the horizontal axis (`360 - d`) turns its
/// vertical step around and keeps its horizontal step. The steps of the
/// directions from 121 to 134 degrees and of their mirrors, 226 to 239
/// degrees, are not mirror images (2 and -1), so those are left out.
pub proof fn law_mirror_in_horizontal_axis(d: u64)
    requires
        d <= 360,
        !(121 <= d <= 134),
        !(226 <= d <= 239),
    ensures
        sin_step((360 - d) as u64) == -sin_step(d),
        cos_step((360 - d) as u64) == cos_step(d),
{
}

/// Mirroring a direction in the vertical axis (`180 - d`, or `540 - d`
/// past a half turn) turns its horizontal step around and keeps its
/// vertical step, but for the directions from 226 to 239 degrees and their
/// mirrors, 301 to 314 degrees, whose vertical steps are -1 and -2.
pub proof fn law_mirror_in_vertical_axis(d: u64)
    requires
        d <= 360,
        !(226 <= d <= 239),
        !(301 <= d <= 314),
    ensures
        d <= 180 ==> cos_step((180 - d) as u64) == -cos_step(d),
        d <= 180 ==> sin_step((180 - d) as u64) == sin_step(d),
        d > 180 ==> cos_step((540 - d) as u64) == -cos_step(d),
        d > 180 ==> sin_step((540 - d) as u64) == sin_step(d),
{
}

/// A point on the screen: `Point(x, y)`, with y growing down the screen.
#[derive(Clone, Copy, Debug, PartialEq, Eq, Structural)]
pub struct Point(pub i16, pub i16);

impl Point {
    /// The horizontal coordinate.
    pub fn x(&self) -> (r: i16)
        ensures
            r == self.0,
    {
        self.0
    }

    /// The vertical coordinate.
    pub fn y(&self) -> (r: i16)
        ensures
            r == self.1,
    {
        self.1
    }
}

/// Whether the coordinate-wise sum of two points fits in the coordinates.
pub open spec fn sum_fits(a: Point, b: Point) -> bool {
    &&& i16::MIN <= a.0 + b.0 <= i16::MAX
    &&& i16::MIN <= a.1 + b.1 <= i16::MAX
}

/// Whether the coordinate-wise difference of two points fits in the coordinates.
pub open spec fn difference_fits(a: Point, b: Point) -> bool {
    &&& i16::MIN <= a.0 - b.0 <= i16::MAX
    &&& i16::MIN <= a.1 - b.1 <= i16::MAX
}

impl core::ops::Add for Point {
    type Output = Point;

    fn add(self, rhs: Point) -> (r: Point) {
        Point(self.0 + rhs.0, self.1 + rhs.1)
    }
}

impl vstd::std_specs::ops::AddSpecImpl for Point {
    open spec fn obeys_add_spec() -> bool {
        true
    }

    open spec fn add_req(self, rhs: Point) -> bool {
        sum_fits(self, rhs)
    }

    open spec fn add_spec(self, rhs: Point) -> Point {
        Point((self.0 + rhs.0) as i16, (self.1 + rhs.1) as i16)
    }
}

impl core::ops::Sub for Point {
    type Output = Point;

    fn sub(self, rhs: Point) -> (r: Point) {
        Point(self.0 - rhs.0, self.1 - rhs.1)
    }
}

impl vstd::std_specs::ops::SubSpecImpl for Point {
    open spec fn obeys_sub_spec() -> bool {
        true
    }

    open spec fn sub_req(self, rhs: Point) -> bool {
        difference_fits(self, rhs)
    }

    open spec fn sub_spec(self, rhs: Point) -> Point {
        Point((self.0 - rhs.0) as i16, (self.1 - rhs.1) as i16)
    }
}

/// `v` brought into the range of `i16` by adding or removing 2^16 once, as
/// a wrapping sum or difference of two `i16` values is.
pub open spec fn wrap_i16(v: int) -> int {
    if v > i16::MAX {
        v - 0x1_0000
    } else if v < i16::MIN {
        v + 0x1_0000
    } else {
        v
    }
}

impl core::ops::AddAssign for Point {
    /// Adds coordinate-wise; a coordinate that leaves the range of `i16` wraps.
    fn add_assign(&mut self, rhs: Point)
        ensures
            final(self).0 == wrap_i16(old(self).0 + rhs.0),
            final(self).1 == wrap_i16(old(self).1 + rhs.1),
    {
        self.0 = self.0.wrapping_add(rhs.0);
        self.1 = self.1.wrapping_add(rhs.1);
    }
}

impl core::ops::SubAssign for Point {
    /// Subtracts coordinate-wise; a coordinate that leaves the range of `i16` wraps.
    fn sub_assign(&mut self, rhs: Point)
        ensures
            final(self).0 == wrap_i16(old(self).0 - rhs.0),
            final(self).1 == wrap_i16(old(self).1 - rhs.1),
    {
        self.0 = self.0.wrapping_sub(rhs.0);
        self.1 = self.1.wrapping_sub(rhs.1);
    }
}

/// The direction (an angle in degrees) and speed of a moving object.
#[derive(Clone, Copy, Debug, PartialEq, Eq, Structural)]
pub struct Velocity {
    pub direction: usize,
    pub speed: usize,
}

/// The largest direction whose conversion to a float and back is exact.
pub const MAX_EXACT_DIRECTION: usize = 0x100_0000;

/// The horizontal movement per unit of time, as an integer.
pub open spec fn horizontal_of(v: Velocity) -> int {
    (v.speed as i16) * cos_step(v.direction as u64)
}

/// The vertical movement per unit of time, as an integer.
pub open spec fn vertical_of(v: Velocity) -> int {
    (v.speed as i16) * sin_step(v.direction as u64)
}

/// Whether a value fits in an `i16`.
pub open spec fn fits_i16(x: int) -> bool {
    i16::MIN <= x <= i16::MAX
}

impl Velocity {
    /// The change in the horizontal position per unit of time.
    pub fn horizontal_component(&self) -> (r: i16)
        requires
            self.direction <= MAX_EXACT_DIRECTION,
            fits_i16(horizontal_of(*self)),
        ensures
            r == horizontal_of(*self),
    {
        (self.speed as i16) * direction_cos(self.direction as u64)
    }

    /// The change in the vertical position per unit of time.
    pub fn vertical_component(&self) -> (r: i16)
        requires
            self.direction <= MAX_EXACT_DIRECTION,
            fits_i16(vertical_of(*self)),
        ensures
            r == vertical_of(*self),
    {
        (self.speed as i16) * direction_sin(self.direction as u64)
    }

    /// Mirrors the direction in a vertical wall.
    pub fn reflect_about_y_axis(&mut self)
        requires
            old(self).direction <= 360,
        ensures
            final(self).speed == old(self).speed,
            final(self).direction == if old(self).direction <= 180 {
                180 - old(self).direction
            } else {
                540 - old(self).direction
            },
    {
        if self.direction <= 180 {
            self.direction = 180 - self.direction;
        } else {
            self.direction = 540 - self.direction;
        }
    }

    /// Mirrors the direction in a horizontal wall.
    pub fn reflect_about_x_axis(&mut self)
        requires
            old(self).direction <= 360,
        ensures
            final(self).speed == old(self).speed,
            final(self).direction == 360 - old(self).direction,
    {
        self.direction = 360 - self.direction;
    }
}

/// An object that moves on the screen.
#[derive(Clone, Copy, Debug, PartialEq, Eq, Structural)]
pub struct Object {
    /// The top left point of the object.
    pub pos: Point,
    pub velocity: Velocity,
}

/// The displacement of an object during `time`, scaled per axis.
pub open spec fn displacement(v: Velocity, time: usize, x_scale: usize, y_scale: usize) -> (int, int) {
    (
        horizontal_of(v) * (time as i16) * (x_scale as i16),
        vertical_of(v) * (time as i16) * (y_scale as i16),
    )
}

/// Whether moving an object for `time` stays within the machine integers.
pub open spec fn move_fits(o: Object, time: usize, x_scale: usize, y_scale: usize) -> bool {
    let d = displacement(o.velocity, time, x_scale, y_scale);
    &&& o.velocity.direction <= MAX_EXACT_DIRECTION
    &&& fits_i16(horizontal_of(o.velocity))
    &&& fits_i16(vertical_of(o.velocity))
    &&& fits_i16(horizontal_of(o.velocity) * (time as i16))
    &&& fits_i16(vertical_of(o.velocity) * (time as i16))
    &&& fits_i16(d.0)
    &&& fits_i16(d.1)
    &&& fits_i16(o.pos.0 + d.0)
    &&& fits_i16(o.pos.1 + d.1)
}

impl Object {
    /// Moves the object along its velocity for `time` and returns where it was.
    pub fn update_pos(&mut self, time: usize, x_scale: usize, y_scale: usize) -> (r: Point)
        requires
            move_fits(*old(self), time, x_scale, y_scale),
        ensures
            r == old(self).pos,
            final(self).velocity == old(self).velocity,
            final(self).pos == Point(
                (old(self).pos.0 + displacement(old(self).velocity, time, x_scale, y_scale).0) as i16,
                (old(self).pos.1 + displacement(old(self).velocity, time, x_scale, y_scale).1) as i16,
            ),
    {
        let dx = self.velocity.horizontal_component() * (time as i16);
        let dy = self.velocity.vertical_component() * (time as i16);
        let old_pos = self.pos;
        let step = Point(dx * (x_scale as i16), dy * (y_scale as i16));
        self.pos = Point(self.pos.0 + step.0, self.pos.1 + step.1);
        old_pos
    }
}

/// An axis-aligned rectangle.
#[derive(Clone, Copy, Debug, PartialEq, Eq, Structural)]
pub struct Rectangle {
    pub top_left: Point,
    pub width: usize,
    pub height: usize,
}

} // verus!
