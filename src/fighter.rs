use vstd::prelude::*;

use crate::game_engine::GameEngine;

verus! {

/// Heading after one tick of steering from `cur` toward `desired`.
///
/// `left` is the counterclockwise distance to the desired heading. Beyond
/// half a circle the fighter turns clockwise, and snaps to the desired
/// heading when `(cur + desired) mod 360` is within the turn rate; otherwise
/// it turns counterclockwise and snaps when `left` is within the turn rate.
pub open spec fn steered_heading(cur: int, desired: int) -> int {
    let full = GameEngine::HEADING_FULL_CIRCLE as int;
    let rate = Fighter::TURN_RATE as int;
    if desired == cur {
        cur
    } else {
        let left = (full + cur - desired) % full;
        let right = (full + cur + desired) % full;
        if left > GameEngine::HEADING_HALF_CIRCLE as int {
            if right <= rate {
                desired
            } else {
                (full + cur + rate) % full
            }
        } else {
            if left <= rate {
                desired
            } else {
                (full + cur - rate) % full
            }
        }
    }
}

/// Speed after one tick: flying straight gains `ACCL_DECL` up to the
/// maximum, turning loses `ACCL_DECL` down to zero.
pub open spec fn steered_speed(cur: int, desired: int, speed: int) -> int {
    let step = Fighter::ACCL_DECL as int;
    if desired == cur {
        if speed + step > Fighter::MAX_SPEED as int {
            Fighter::MAX_SPEED as int
        } else {
            speed + step
        }
    } else {
        if speed - step < 0 {
            0
        } else {
            speed - step
        }
    }
}

/// `v` saturated into `[0, max]`.
pub open spec fn clamped(v: int, max: int) -> int {
    if v < 0 {
        0
    } else if v > max {
        max
    } else {
        v
    }
}

/// `after` is `before` one tick later: steered, then moved by a
/// displacement that `components` may return for the new speed and heading,
/// clamped to the arena.
pub open spec fn advanced<F: Fn(u32, u32) -> (i32, i32)>(before: Fighter, after: Fighter, components: F) -> bool {
    &&& after.id == before.id
    &&& after.desired_heading_degrees == before.desired_heading_degrees
    &&& after.cur_heading_degrees == steered_heading(
        before.cur_heading_degrees as int,
        before.desired_heading_degrees as int,
    )
    &&& after.cur_speed == steered_speed(
        before.cur_heading_degrees as int,
        before.desired_heading_degrees as int,
        before.cur_speed as int,
    )
    &&& exists|d: (i32, i32)|
        #[trigger] components.ensures((after.cur_speed, after.cur_heading_degrees), d)
        && after.x_coord == clamped(before.x_coord + d.0, GameEngine::MAX_X_COORD as int)
        && after.y_coord == clamped(before.y_coord + d.1, GameEngine::MAX_Y_COORD as int)
}

/// One mobile entity of the arena.
pub struct Fighter {
    pub id: String,
    pub cur_heading_degrees: u32,
    pub desired_heading_degrees: u32,
    pub cur_speed: u32,
    pub x_coord: u32,
    pub y_coord: u32,
}

impl Fighter {
    pub const MIN_HEADING: u32 = 0;
    pub const MAX_HEADING: u32 = 359;
    pub const MIN_SPEED: u32 = 0;
    pub const MAX_SPEED: u32 = 838;
    /// Largest change of heading, in degrees, in one tick.
    pub const TURN_RATE: u32 = 10;
    /// Change of speed in one tick: gained flying straight, lost turning.
    pub const ACCL_DECL: u32 = 5;

    /// Every field lies in its domain.
    pub open spec fn wf(&self) -> bool {
        &&& self.cur_heading_degrees <= Fighter::MAX_HEADING
        &&& self.desired_heading_degrees <= Fighter::MAX_HEADING
        &&& self.cur_speed <= Fighter::MAX_SPEED
        &&& self.x_coord <= GameEngine::MAX_X_COORD
        &&& self.y_coord <= GameEngine::MAX_Y_COORD
    }

    /// A fighter at rest at the origin, heading north.
    pub fn new(id: String) -> (r: Fighter)
        ensures
            r.wf(),
            r.id == id,
            r.cur_heading_degrees == 0,
            r.desired_heading_degrees == 0,
            r.cur_speed == 0,
            r.x_coord == 0,
            r.y_coord == 0,
    {
        Fighter {
            id: id,
            cur_heading_degrees: 0,
            desired_heading_degrees: 0,
            cur_speed: 0,
            x_coord: 0,
            y_coord: 0,
        }
    }

    /// Overwrites heading (current and desired), speed and position, all or
    /// nothing: succeeds exactly when every value lies in its domain.
    pub fn set_inertial_data(&mut self, heading: u32, speed: u32, x_coord: u32, y_coord: u32) -> (r: bool)
        ensures
            r == (heading <= Fighter::MAX_HEADING && speed <= Fighter::MAX_SPEED
                && x_coord <= GameEngine::MAX_X_COORD && y_coord <= GameEngine::MAX_Y_COORD),
            r ==> ({
                &&& final(self).id == old(self).id
                &&& final(self).cur_heading_degrees == heading
                &&& final(self).desired_heading_degrees == heading
                &&& final(self).cur_speed == speed
                &&& final(self).x_coord == x_coord
                &&& final(self).y_coord == y_coord
            }),
            !r ==> *final(self) == *old(self),
            old(self).wf() ==> final(self).wf(),
    {
        if heading <= Fighter::MAX_HEADING && speed <= Fighter::MAX_SPEED
            && x_coord <= GameEngine::MAX_X_COORD && y_coord <= GameEngine::MAX_Y_COORD
        {
            self.cur_heading_degrees = heading;
            self.desired_heading_degrees = heading;
            self.cur_speed = speed;
            self.x_coord = x_coord;
            self.y_coord = y_coord;
            true
        } else {
            false
        }
    }

    /// Sets the heading to steer toward; succeeds exactly when it lies in
    /// `[0, MAX_HEADING]`, and changes nothing else.
    pub fn set_new_heading(&mut self, new_heading_degrees: u32) -> (r: bool)
        ensures
            r == (new_heading_degrees <= Fighter::MAX_HEADING),
            r ==> *final(self) == (Fighter {
                desired_heading_degrees: new_heading_degrees,
                ..*old(self)
            }),
            !r ==> *final(self) == *old(self),
            old(self).wf() ==> final(self).wf(),
    {
        if new_heading_degrees <= Fighter::MAX_HEADING {
            self.desired_heading_degrees = new_heading_degrees;
            true
        } else {
            false
        }
    }

    /// Whether every field lies in its domain.
    pub fn is_valid(&self) -> (r: bool)
        ensures
            r == self.wf(),
    {
        self.cur_heading_degrees <= Fighter::MAX_HEADING
            && self.desired_heading_degrees <= Fighter::MAX_HEADING
            && self.cur_speed <= Fighter::MAX_SPEED
            && self.x_coord <= GameEngine::MAX_X_COORD
            && self.y_coord <= GameEngine::MAX_Y_COORD
    }

    /// Turns toward the desired heading and adjusts speed, leaving the
    /// position alone.
    pub fn steer(&mut self)
        requires
            old(self).wf(),
        ensures
            final(self).wf(),
            final(self).id == old(self).id,
            final(self).desired_heading_degrees == old(self).desired_heading_degrees,
            final(self).x_coord == old(self).x_coord,
            final(self).y_coord == old(self).y_coord,
            final(self).cur_heading_degrees == steered_heading(
                old(self).cur_heading_degrees as int,
                old(self).desired_heading_degrees as int,
            ),
            final(self).cur_speed == steered_speed(
                old(self).cur_heading_degrees as int,
                old(self).desired_heading_degrees as int,
                old(self).cur_speed as int,
            ),
    {
        let full = GameEngine::HEADING_FULL_CIRCLE;
        let cur = self.cur_heading_degrees;
        let desired = self.desired_heading_degrees;
        if desired != cur {
            let left: u32 = (full + cur - desired) % full;
            let right: u32 = (full + cur + desired) % full;
            if left > GameEngine::HEADING_HALF_CIRCLE {
                // clockwise
                if right <= Fighter::TURN_RATE {
                    self.cur_heading_degrees = desired;
                } else {
                    self.cur_heading_degrees = (full + cur + Fighter::TURN_RATE) % full;
                }
            } else {
                // counterclockwise
                if left <= Fighter::TURN_RATE {
                    self.cur_heading_degrees = desired;
                } else {
                    self.cur_heading_degrees = (full + cur - Fighter::TURN_RATE) % full;
                }
            }
            if self.cur_speed < Fighter::MIN_SPEED + Fighter::ACCL_DECL {
                self.cur_speed = Fighter::MIN_SPEED;
            } else {
                self.cur_speed = self.cur_speed - Fighter::ACCL_DECL;
            }
        } else {
            if self.cur_speed + Fighter::ACCL_DECL > Fighter::MAX_SPEED {
                self.cur_speed = Fighter::MAX_SPEED;
            } else {
                self.cur_speed = self.cur_speed + Fighter::ACCL_DECL;
            }
        }
    }

    /// Moves by `(delta_x, delta_y)`, saturating each coordinate at the
    /// arena's edges.
    pub fn displace(&mut self, delta_x: i32, delta_y: i32)
        requires
            old(self).wf(),
        ensures
            final(self).wf(),
            final(self).id == old(self).id,
            final(self).cur_heading_degrees == old(self).cur_heading_degrees,
            final(self).desired_heading_degrees == old(self).desired_heading_degrees,
            final(self).cur_speed == old(self).cur_speed,
            final(self).x_coord == clamped(
                old(self).x_coord + delta_x,
                GameEngine::MAX_X_COORD as int,
            ),
            final(self).y_coord == clamped(
                old(self).y_coord + delta_y,
                GameEngine::MAX_Y_COORD as int,
            ),
    {
        self.x_coord = clamp_coord(self.x_coord as i64 + delta_x as i64, GameEngine::MAX_X_COORD);
        self.y_coord = clamp_coord(self.y_coord as i64 + delta_y as i64, GameEngine::MAX_Y_COORD);
    }

    /// Advances the fighter by one tick: steers, then moves by the
    /// displacement that `components` gives for the new speed and heading.
    ///
    /// `components(speed, heading)` returns the east and north components of
    /// a speed along a heading.
    pub fn move_fighter<F: Fn(u32, u32) -> (i32, i32)>(&mut self, components: &F)
        requires
            old(self).wf(),
            forall|s: u32, h: u32|
                s <= Fighter::MAX_SPEED && h <= Fighter::MAX_HEADING ==> #[trigger] components.requires((s, h)),
        ensures
            final(self).wf(),
            advanced(*old(self), *final(self), *components),
            // flying straight keeps the heading and gains speed up to the maximum
            old(self).desired_heading_degrees == old(self).cur_heading_degrees ==> {
                &&& final(self).cur_heading_degrees == old(self).cur_heading_degrees
                &&& final(self).cur_speed == if old(self).cur_speed + Fighter::ACCL_DECL
                    > Fighter::MAX_SPEED {
                    Fighter::MAX_SPEED as int
                } else {
                    old(self).cur_speed + Fighter::ACCL_DECL
                }
            },
            // turning loses speed down to zero
            old(self).desired_heading_degrees != old(self).cur_heading_degrees ==> final(self).cur_speed
                == if old(self).cur_speed < Fighter::ACCL_DECL {
                0
            } else {
                old(self).cur_speed - Fighter::ACCL_DECL
            },
    {
        self.steer();
        let (delta_x, delta_y) = components(self.cur_speed, self.cur_heading_degrees);
        self.displace(delta_x, delta_y);
    }
}

impl Clone for Fighter {
    fn clone(&self) -> (r: Self)
        ensures
            r == *self,
    {
        Fighter {
            id: self.id.clone(),
            cur_heading_degrees: self.cur_heading_degrees,
            desired_heading_degrees: self.desired_heading_degrees,
            cur_speed: self.cur_speed,
            x_coord: self.x_coord,
            y_coord: self.y_coord,
        }
    }
}

/// `v` saturated into `[0, max]`, computed without overflow.
fn clamp_coord(v: i64, max: u32) -> (r: u32)
    ensures
        r == clamped(v as int, max as int),
{
    if v < 0 {
        0
    } else if v > max as i64 {
        max
    } else {
        v as u32
    }
}

} // verus!
