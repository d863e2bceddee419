//! The rules of the blasterball game: when the ball bounces off the walls,
//! the ceiling and the paddle, how the paddle moves, where the ball crossed
//! the paddle's level, and when the game is over.
use vstd::prelude::*;
use crate::artist::{Bitmap, SCREEN_HEIGHT, SCREEN_WIDTH};
use crate::keyboard::{KeyCode, KeyDirection};
use crate::physics::{
    cos_step, direction_cos, direction_sin, fits_i16, move_fits, sin_step, Object, Point, Velocity,
    MAX_EXACT_DIRECTION,
};

verus! {

/// A thing on the screen: where it is and how it moves, and how it looks.
pub struct Character {
    pub object: Object,
    pub repr: Bitmap,
}

/// The width of a character's picture, converted to an `i16` as the game does.
pub open spec fn width_of(c: &Character) -> int {
    (c.repr.width as usize) as i16 as int
}

fn width_i16(c: &Character) -> (r: i16)
    ensures
        r == width_of(c),
{
    #[verifier::truncate]
    (c.repr.width() as i16)
}

/// The direction in which the paddle moves.
#[derive(Clone, Copy, Debug, PartialEq, Eq, Structural)]
pub enum PaddleDirection {
    Left,
    Right,
}

/// The ball touches the left wall.
pub fn ball_collided_with_left_wall(ball_char: &Character) -> (r: bool)
    ensures
        r == (ball_char.object.pos.0 <= 0),
{
    ball_char.object.pos.x() <= 0
}

/// The ball touches the right wall.
pub fn ball_collided_with_right_wall(ball_char: &Character) -> (r: bool)
    requires
        fits_i16(SCREEN_WIDTH - width_of(ball_char)),
    ensures
        r == (ball_char.object.pos.0 >= SCREEN_WIDTH - width_of(ball_char)),
{
    ball_char.object.pos.x() >= 320i16 - width_i16(ball_char)
}

/// The ball touches the ceiling.
pub fn ball_collided_with_ceiling(ball_char: &Character) -> (r: bool)
    ensures
        r == (ball_char.object.pos.1 <= 5),
{
    ball_char.object.pos.y() <= 0 + 5
}

/// The ball is at or below the paddle's level and within the paddle's span.
pub fn ball_collided_with_paddle(ball_char: &Character, paddle_char: &Character) -> (r: bool)
    requires
        fits_i16(paddle_char.object.pos.0 + width_of(paddle_char)),
    ensures
        r == {
            &&& ball_char.object.pos.1 >= paddle_char.object.pos.1
            &&& ball_char.object.pos.0 >= paddle_char.object.pos.0
            &&& ball_char.object.pos.0 <= paddle_char.object.pos.0 + width_of(paddle_char)
        },
{
    ball_char.object.pos.y() >= paddle_char.object.pos.y() && ball_char.object.pos.x() >= paddle_char.object.pos.x()
        && ball_char.object.pos.x() <= paddle_char.object.pos.x() + width_i16(paddle_char)
}

/// The ball has left the bottom of the screen.
pub fn ball_is_off_screen(ball_char: &Character) -> (r: bool)
    ensures
        r == (ball_char.object.pos.1 >= SCREEN_HEIGHT),
{
    ball_char.object.pos.y() >= 200i16
}

/// The paddle touches the right wall.
pub fn paddle_collided_with_right_wall(paddle_char: &Character) -> (r: bool)
    requires
        fits_i16(paddle_char.object.pos.0 + width_of(paddle_char)),
    ensures
        r == (paddle_char.object.pos.0 + width_of(paddle_char) >= SCREEN_WIDTH - 8),
{
    paddle_char.object.pos.x() + width_i16(paddle_char) >= 320i16 - 8
}

/// The paddle touches the left wall.
pub fn paddle_collided_with_left_wall(paddle_char: &Character) -> (r: bool)
    ensures
        r == (paddle_char.object.pos.0 <= 5),
{
    paddle_char.object.pos.x() <= 0 + 5
}

/// The quotient of `a` by `b`, rounded toward zero.
pub open spec fn quotient_toward_zero(a: int, b: int) -> int {
    let q = abs(a) / abs(b);
    if (a >= 0) == (b > 0) {
        q
    } else {
        -q
    }
}

/// The absolute value.
pub open spec fn abs(a: int) -> int {
    if a < 0 {
        -a
    } else {
        a
    }
}

/// Integer division of `a` by `b`, rounding toward zero.
fn div_toward_zero(a: i16, b: i16) -> (r: i16)
    requires
        b != 0,
        !(a == i16::MIN && b == -1),
    ensures
        r == quotient_toward_zero(a as int, b as int),
{
    let ua: u32 = if a < 0 { (-(a as i32)) as u32 } else { a as u32 };
    let ub: u32 = if b < 0 { (-(b as i32)) as u32 } else { b as u32 };
    let q: u32 = ua / ub;
    assert(q <= ua) by (nonlinear_arith)
        requires
            ub >= 1,
            q == ua / ub,
    ;
    if (a >= 0) == (b > 0) {
        proof {
            if a == i16::MIN {
                assert(ub >= 2);
                assert(q <= ua / 2) by (nonlinear_arith)
                    requires
                        ub >= 2,
                        q == ua / ub,
                ;
            }
        }
        q as i16
    } else {
        -(q as i32) as i16
    }
}

/// The direction from which the paddle sees a ball that moves in `direction`.
pub open spec fn reversed_direction(direction: usize) -> u64 {
    (180 + direction) as u64
}

/// How far to the side the ball was, at the paddle's level, from where it
/// was before its last move.
pub open spec fn side_distance(old_pos: Point, direction: usize, paddle_y: i16) -> int {
    let d = reversed_direction(direction);
    quotient_toward_zero((paddle_y - old_pos.1) * cos_step(d), sin_step(d))
}

/// Whether the crossing of the paddle's level can be computed in `i16`s.
pub open spec fn crossing_defined(old_pos: Point, new_pos: Point, direction: usize, paddle_char: &Character) -> bool {
    let d = reversed_direction(direction);
    let p = paddle_char.object.pos;
    new_pos.1 >= p.1 ==> {
        &&& 180 + direction <= MAX_EXACT_DIRECTION
        &&& sin_step(d) != 0
        &&& fits_i16(p.1 - old_pos.1)
        &&& fits_i16((p.1 - old_pos.1) * cos_step(d))
        &&& fits_i16(side_distance(old_pos, direction, p.1))
        &&& fits_i16(old_pos.0 - side_distance(old_pos, direction, p.1))
        &&& fits_i16(p.0 + width_of(paddle_char))
        &&& fits_i16(p.0 + width_of(paddle_char) - 1)
    }
}

/// Whether a ball that moved from `old_pos` to `new_pos` in `direction`
/// crossed the paddle's level within the paddle's span, and the point at
/// which it crossed that level: nothing when the ball is still above it.
pub open spec fn crossing(old_pos: Point, new_pos: Point, direction: usize, paddle_char: &Character) -> (
    bool,
    Option<Point>,
) {
    let p = paddle_char.object.pos;
    if new_pos.1 < p.1 {
        (false, None)
    } else {
        let x = old_pos.0 - side_distance(old_pos, direction, p.1);
        (p.0 <= x <= p.0 + width_of(paddle_char) - 1, Some(Point(x as i16, p.1)))
    }
}

/// Whether a ball that moved from `old_pos` to `new_pos` in `direction`
/// crossed the paddle's level within the paddle's span, and the point at
/// which it crossed that level: nothing when the ball is still above it.
pub fn ball_passed_through_paddle(old_pos: Point, new_pos: Point, direction: usize, paddle_char: &Character) -> (r: (
    bool,
    Option<Point>,
))
    requires
        crossing_defined(old_pos, new_pos, direction, paddle_char),
    ensures
        r == crossing(old_pos, new_pos, direction, paddle_char),
{
    if new_pos.y() < paddle_char.object.pos.y() {
        return (false, None);
    }
    let direction_of_ball_from_paddle_perspective = 180 + direction;
    let d = direction_of_ball_from_paddle_perspective as u64;
    let y_distance = paddle_char.object.pos.y() - old_pos.y();
    let sin = direction_sin(d);
    let cos = direction_cos(d);
    let distance = div_toward_zero(y_distance * cos, sin);
    let ball_x_pos_at_paddle_level = old_pos.x() - distance;
    let passed = ball_x_pos_at_paddle_level >= paddle_char.object.pos.x() && ball_x_pos_at_paddle_level
        <= paddle_char.object.pos.x() + width_i16(paddle_char) - 1;
    (passed, Some(Point(ball_x_pos_at_paddle_level, paddle_char.object.pos.y())))
}

} // verus!

verus! {

/// The state of a game: the ball, the paddle, and whether the ball has been
/// launched.
pub struct Game {
    pub ball_char: Character,
    pub paddle_char: Character,
    pub has_started: bool,
}

/// The ball's direction after a bounce off a vertical wall.
pub open spec fn mirrored_in_wall(d: usize) -> usize {
    if d <= 180 {
        (180 - d) as usize
    } else {
        (540 - d) as usize
    }
}

/// The ball's direction after a bounce off the ceiling or the paddle.
pub open spec fn mirrored_in_floor(d: usize) -> usize {
    (360 - d) as usize
}

/// Which check of a frame decides: 0 the left wall, 1 the right wall, 2 the
/// ceiling, 3 the paddle, 4 the bottom of the screen, 5 none.
pub open spec fn frame_case(g: &Game) -> int {
    let b = g.ball_char.object.pos;
    if b.0 <= 0 {
        0
    } else if b.0 >= SCREEN_WIDTH - width_of(&g.ball_char) {
        1
    } else if b.1 <= 5 {
        2
    } else if b.1 >= g.paddle_char.object.pos.1 && b.0 >= g.paddle_char.object.pos.0 && b.0
        <= g.paddle_char.object.pos.0 + width_of(&g.paddle_char) {
        3
    } else if b.1 >= SCREEN_HEIGHT {
        4
    } else {
        5
    }
}

/// The game is over: the ball touches no wall, nor the ceiling, nor the
/// paddle, and has left the bottom of the screen.
pub open spec fn game_over(g: &Game) -> bool {
    frame_case(g) == 4
}

/// The ball's velocity once the frame's bounce, if any, is applied.
pub open spec fn bounced_velocity(g: &Game) -> Velocity {
    let v = g.ball_char.object.velocity;
    let c = frame_case(g);
    if c == 0 || c == 1 {
        Velocity { direction: mirrored_in_wall(v.direction), speed: v.speed }
    } else if c == 2 || c == 3 {
        Velocity { direction: mirrored_in_floor(v.direction), speed: v.speed }
    } else {
        v
    }
}

/// The ball once it has bounced and moved for one unit of time.
pub open spec fn moved_ball(g: &Game) -> Object {
    let v = bounced_velocity(g);
    let p = g.ball_char.object.pos;
    Object {
        pos: Point((p.0 + crate::physics::horizontal_of(v)) as i16, (p.1 + crate::physics::vertical_of(v)) as i16),
        velocity: v,
    }
}

/// The ball's position at the end of a frame: where it crossed the paddle's
/// level when it passed through the paddle, else where it moved.
pub open spec fn ball_pos_after_frame(g: &Game) -> Point {
    let m = moved_ball(g);
    let c = crossing(g.ball_char.object.pos, m.pos, m.velocity.direction, &g.paddle_char);
    if c.0 {
        c.1->0
    } else {
        m.pos
    }
}

/// Whether a frame can be played within the machine integers: the widths
/// can be compared, a bounce has a direction of at most a full turn, and
/// the move and the crossing of the paddle's level fit in `i16`s.
pub open spec fn frame_defined(g: &Game) -> bool {
    let c = frame_case(g);
    let m = moved_ball(g);
    &&& fits_i16(SCREEN_WIDTH - width_of(&g.ball_char))
    &&& fits_i16(g.paddle_char.object.pos.0 + width_of(&g.paddle_char))
    &&& c <= 3 ==> g.ball_char.object.velocity.direction <= 360
    &&& c != 4 ==> {
        &&& move_fits(Object { pos: g.ball_char.object.pos, velocity: bounced_velocity(g) }, 1, 1, 1)
        &&& crossing_defined(g.ball_char.object.pos, m.pos, m.velocity.direction, &g.paddle_char)
    }
}

/// Where the paddle's left edge is after a key: a pressed arrow moves a
/// launched paddle four pixels unless it touches the wall on that side.
pub open spec fn paddle_x_after_key(g: &Game, keycode: KeyCode, direction: KeyDirection) -> int {
    let p = g.paddle_char.object.pos.0 as int;
    let moves = g.has_started && direction == KeyDirection::Down;
    if keycode == KeyCode::ArrowRight && moves && p + width_of(&g.paddle_char) < SCREEN_WIDTH - 8 {
        p + 4
    } else if keycode == KeyCode::ArrowLeft && moves && p > 5 {
        p - 4
    } else {
        p
    }
}

/// Keys never push the paddle through a wall: a paddle whose left edge is
/// at least 2 and whose right edge is at most 315 stays so after any key.
pub proof fn law_keys_keep_paddle_between_walls(g: &Game, keycode: KeyCode, direction: KeyDirection)
    requires
        2 <= g.paddle_char.object.pos.0,
        g.paddle_char.object.pos.0 + width_of(&g.paddle_char) <= 315,
    ensures
        2 <= paddle_x_after_key(g, keycode, direction),
        paddle_x_after_key(g, keycode, direction) + width_of(&g.paddle_char) <= 315,
{
}

/// A ball that touches the paddle, and neither a wall nor the ceiling,
/// bounces back up: its new direction is the mirror image `360 - d` of its
/// direction `d` in the horizontal axis, its speed is kept, the game goes
/// on, and a ball that was moving down (`0 < d < 180`) moves up afterwards.
pub proof fn law_paddle_bounce(g: &Game)
    requires
        0 < g.ball_char.object.pos.0 < SCREEN_WIDTH - width_of(&g.ball_char),
        g.ball_char.object.pos.1 > 5,
        g.ball_char.object.pos.1 >= g.paddle_char.object.pos.1,
        g.paddle_char.object.pos.0 <= g.ball_char.object.pos.0 <= g.paddle_char.object.pos.0 + width_of(
            &g.paddle_char,
        ),
        g.ball_char.object.velocity.direction <= 360,
    ensures
        bounced_velocity(g).direction + g.ball_char.object.velocity.direction == 360,
        bounced_velocity(g).speed == g.ball_char.object.velocity.speed,
        !game_over(g),
        1 <= g.ball_char.object.velocity.direction <= 179 ==> sin_step(bounced_velocity(g).direction as u64) < 0,
        1 <= g.ball_char.object.velocity.direction <= 179 && (g.ball_char.object.velocity.speed as i16) > 0
            ==> crate::physics::vertical_of(bounced_velocity(g)) < 0,
{
    let v = bounced_velocity(g);
    crate::physics::law_sin_step_sign(v.direction as u64);
    let s = v.speed as i16;
    let t = sin_step(v.direction as u64);
    assert(s > 0 && t < 0 ==> s * t < 0) by (nonlinear_arith);
}

/// A ball that touches the ceiling, and no wall, bounces back down: its new
/// direction is `360 - d`, its speed is kept, and a ball that was moving up
/// (`180 < d < 360`) moves down afterwards.
pub proof fn law_ceiling_bounce(g: &Game)
    requires
        0 < g.ball_char.object.pos.0 < SCREEN_WIDTH - width_of(&g.ball_char),
        g.ball_char.object.pos.1 <= 5,
        g.ball_char.object.velocity.direction <= 360,
    ensures
        bounced_velocity(g).direction + g.ball_char.object.velocity.direction == 360,
        bounced_velocity(g).speed == g.ball_char.object.velocity.speed,
        !game_over(g),
        181 <= g.ball_char.object.velocity.direction <= 359 ==> sin_step(bounced_velocity(g).direction as u64) > 0,
        181 <= g.ball_char.object.velocity.direction <= 359 && (g.ball_char.object.velocity.speed as i16) > 0
            ==> crate::physics::vertical_of(bounced_velocity(g)) > 0,
{
    let v = bounced_velocity(g);
    crate::physics::law_sin_step_sign(v.direction as u64);
    let s = v.speed as i16;
    let t = sin_step(v.direction as u64);
    assert(s > 0 && t > 0 ==> s * t > 0) by (nonlinear_arith);
}

/// A ball that touches a side wall bounces off it: its new direction is the
/// mirror image of its direction `d` in the vertical axis (the two add up
/// to half a turn, modulo a full turn), its speed is kept, and a ball that
/// was moving into the wall moves away from it afterwards: to the right off
/// the left wall, to the left off the right wall.
pub proof fn law_wall_bounce(g: &Game)
    requires
        g.ball_char.object.pos.0 <= 0 || g.ball_char.object.pos.0 >= SCREEN_WIDTH - width_of(&g.ball_char),
        g.ball_char.object.velocity.direction <= 360,
    ensures
        (bounced_velocity(g).direction + g.ball_char.object.velocity.direction) % 360 == 180,
        bounced_velocity(g).speed == g.ball_char.object.velocity.speed,
        !game_over(g),
        g.ball_char.object.pos.0 <= 0 && 91 <= g.ball_char.object.velocity.direction <= 269 ==> cos_step(
            bounced_velocity(g).direction as u64,
        ) > 0,
        g.ball_char.object.pos.0 > 0 && (g.ball_char.object.velocity.direction <= 89
            || 271 <= g.ball_char.object.velocity.direction) ==> cos_step(bounced_velocity(g).direction as u64) < 0,
{
    crate::physics::law_cos_step_sign(bounced_velocity(g).direction as u64);
}

/// Half a bitmap's width, cut to 16 bits as the game takes it.
pub open spec fn half_width_i16(width: u32) -> int {
    ((width / 2) as usize) as i16 as int
}

/// A bitmap's height, cut to 16 bits as the game takes it.
pub open spec fn height_i16(height: u32) -> int {
    (height as usize) as i16 as int
}

/// Whether the starting places of a paddle of this size and of the ball on
/// it fit in 16 bits, step by step as the game works them out.
pub open spec fn paddle_start_defined(width: u32, height: u32) -> bool {
    let x = 160 - half_width_i16(width) - 8;
    let y = 192 - height_i16(height);
    &&& fits_i16(160 - half_width_i16(width))
    &&& fits_i16(x)
    &&& fits_i16(y)
    &&& fits_i16(y - 14)
    &&& fits_i16(x + 18)
}

/// Whether a paddle of this size can start a game.
pub fn paddle_start_is_defined(width: u32, height: u32) -> (r: bool)
    ensures
        r == paddle_start_defined(width, height),
{
    let hw = ((width / 2) as usize) as i16 as i32;
    let h = (height as usize) as i16 as i32;
    let x = 160 - hw - 8;
    let y = 192 - h;
    let lo = i16::MIN as i32;
    let hi = i16::MAX as i32;
    lo <= 160 - hw && 160 - hw <= hi && lo <= x && x <= hi && lo <= y && y <= hi && lo <= y - 14 && y - 14 <= hi
        && lo <= x + 18 && x + 18 <= hi
}

impl Game {
    /// A game before the launch: the paddle centred near the bottom of the
    /// screen, the ball resting on it, both still.
    pub fn new(ball_repr: Bitmap, paddle_repr: Bitmap) -> (r: Game)
        requires
            paddle_start_defined(paddle_repr.width, paddle_repr.height),
        ensures
            r.paddle_char.object.pos == Point(
                (160 - half_width_i16(paddle_repr.width) - 8) as i16,
                (192 - height_i16(paddle_repr.height)) as i16,
            ),
            r.ball_char.object.pos == Point(
                (160 - half_width_i16(paddle_repr.width) - 8 + 18) as i16,
                (192 - height_i16(paddle_repr.height) - 14) as i16,
            ),
            r.paddle_char.object.velocity == (Velocity { direction: 0, speed: 0 }),
            r.ball_char.object.velocity == (Velocity { direction: 0, speed: 0 }),
            r.ball_char.repr == ball_repr,
            r.paddle_char.repr == paddle_repr,
            !r.has_started,
    {
        let paddle_pos = Point(160 - (paddle_repr.width() / 2) as i16 - 8, 192 - paddle_repr.height() as i16);
        let paddle_char = Character {
            object: Object { pos: paddle_pos, velocity: Velocity { direction: 0, speed: 0 } },
            repr: paddle_repr,
        };
        let ball_pos = paddle_pos - Point(0, 14) + Point(18, 0);
        let ball_char = Character {
            object: Object { pos: ball_pos, velocity: Velocity { direction: 0, speed: 0 } },
            repr: ball_repr,
        };
        Game { ball_char, paddle_char, has_started: false }
    }

    /// Moves the paddle four pixels to the left or to the right.
    pub fn move_paddle(&mut self, direction: PaddleDirection)
        requires
            fits_i16(old(self).paddle_char.object.pos.0 + 4),
            fits_i16(old(self).paddle_char.object.pos.0 - 4),
        ensures
            final(self).paddle_char.object.pos == Point(
                (old(self).paddle_char.object.pos.0 + if direction == PaddleDirection::Left {
                    -4int
                } else {
                    4int
                }) as i16,
                old(self).paddle_char.object.pos.1,
            ),
            final(self).paddle_char.object.velocity == old(self).paddle_char.object.velocity,
            final(self).paddle_char.repr == old(self).paddle_char.repr,
            final(self).ball_char == old(self).ball_char,
            final(self).has_started == old(self).has_started,
    {
        let diff = match direction {
            PaddleDirection::Left => Point(-4, 0),
            PaddleDirection::Right => Point(4, 0),
        };
        let pos = self.paddle_char.object.pos;
        self.paddle_char.object.pos = Point(pos.0 + diff.0, pos.1 + diff.1);
    }

    /// Answers a key: Enter launches the ball up and to the left; once the
    /// ball is launched, the arrow keys pressed down move the paddle, unless
    /// it touches the wall on that side.
    pub fn handle_key(&mut self, keycode: KeyCode, direction: KeyDirection)
        requires
            fits_i16(old(self).paddle_char.object.pos.0 + width_of(&old(self).paddle_char)),
            fits_i16(old(self).paddle_char.object.pos.0 + 4),
            fits_i16(old(self).paddle_char.object.pos.0 - 4),
        ensures
            final(self).paddle_char.repr == old(self).paddle_char.repr,
            final(self).paddle_char.object.velocity == old(self).paddle_char.object.velocity,
            final(self).paddle_char.object.pos.1 == old(self).paddle_char.object.pos.1,
            final(self).ball_char.repr == old(self).ball_char.repr,
            final(self).ball_char.object.pos == old(self).ball_char.object.pos,
            final(self).paddle_char.object.pos.0 == paddle_x_after_key(old(self), keycode, direction),
            keycode == KeyCode::Enter && !old(self).has_started ==> {
                &&& final(self).ball_char.object.velocity == (Velocity { direction: 210, speed: 5 })
                &&& final(self).has_started
            },
            !(keycode == KeyCode::Enter && !old(self).has_started) ==> {
                &&& final(self).ball_char.object.velocity == old(self).ball_char.object.velocity
                &&& final(self).has_started == old(self).has_started
            },
    {
        match keycode {
            KeyCode::ArrowRight => {
                if self.has_started && direction == KeyDirection::Down {
                    if !paddle_collided_with_right_wall(&self.paddle_char) {
                        self.move_paddle(PaddleDirection::Right);
                    }
                }
            },
            KeyCode::ArrowLeft => {
                if self.has_started && direction == KeyDirection::Down {
                    if !paddle_collided_with_left_wall(&self.paddle_char) {
                        self.move_paddle(PaddleDirection::Left);
                    }
                }
            },
            KeyCode::Enter => {
                if !self.has_started {
                    self.ball_char.object.velocity.direction = 210;
                    self.ball_char.object.velocity.speed = 5;
                    self.has_started = true;
                }
            },
            _ => {},
        }
    }

    /// Plays one frame: bounces the ball off whatever it touches and moves
    /// it, placing it on the paddle's level where it passed through the
    /// paddle. Returns `true`, with nothing changed, when the game is over.
    pub fn play_frame(&mut self) -> (r: bool)
        requires
            frame_defined(old(self)),
        ensures
            r == game_over(old(self)),
            final(self).paddle_char == old(self).paddle_char,
            final(self).ball_char.repr == old(self).ball_char.repr,
            final(self).has_started == old(self).has_started,
            r ==> final(self).ball_char.object == old(self).ball_char.object,
            !r ==> final(self).ball_char.object == (Object {
                pos: ball_pos_after_frame(old(self)),
                velocity: bounced_velocity(old(self)),
            }),
    {
        if ball_collided_with_left_wall(&self.ball_char) {
            self.ball_char.object.velocity.reflect_about_y_axis();
        } else if ball_collided_with_right_wall(&self.ball_char) {
            self.ball_char.object.velocity.reflect_about_y_axis();
        } else if ball_collided_with_ceiling(&self.ball_char) {
            self.ball_char.object.velocity.reflect_about_x_axis();
        } else if ball_collided_with_paddle(&self.ball_char, &self.paddle_char) {
            self.ball_char.object.velocity.reflect_about_x_axis();
        } else if ball_is_off_screen(&self.ball_char) {
            return true;
        }
        assert(self.ball_char.object.velocity == bounced_velocity(old(self)));
        let old_pos = self.ball_char.object.update_pos(1, 1, 1);
        assert(self.ball_char.object == moved_ball(old(self)));
        let (passed, point) = ball_passed_through_paddle(
            old_pos,
            self.ball_char.object.pos,
            self.ball_char.object.velocity.direction,
            &self.paddle_char,
        );
        if passed {
            self.ball_char.object.pos = point.unwrap();
        }
        false
    }
}

} // verus!

verus! {

/// Whether a value fits in an `i16`.
fn fits(x: i64) -> (r: bool)
    ensures
        r == fits_i16(x as int),
{
    -32768 <= x && x <= 32767
}

/// The quotient of `a` by `b`, rounded toward zero, for small values.
fn quotient_i64(a: i64, b: i64) -> (r: i64)
    requires
        b != 0,
        -0x1_0000_0000 <= a <= 0x1_0000_0000,
        -0x1_0000_0000 <= b <= 0x1_0000_0000,
    ensures
        r == quotient_toward_zero(a as int, b as int),
{
    let ua: i64 = if a < 0 { -a } else { a };
    let ub: i64 = if b < 0 { -b } else { b };
    let q = ua / ub;
    if (a >= 0) == (b > 0) {
        q
    } else {
        -q
    }
}

impl Game {
    /// Whether the next frame can be played within the machine integers.
    pub fn frame_is_defined(&self) -> (r: bool)
        ensures
            r == frame_defined(self),
    {
        let ball = &self.ball_char;
        let paddle = &self.paddle_char;
        let bw = width_i16(ball) as i64;
        let pw = width_i16(paddle) as i64;
        let b = ball.object.pos;
        let p = paddle.object.pos;
        if !fits(320 - bw) || !fits(p.0 as i64 + pw) {
            return false;
        }
        let v = ball.object.velocity;
        let case: u8 = if b.0 <= 0 {
            0
        } else if b.0 as i64 >= 320 - bw {
            1
        } else if b.1 <= 5 {
            2
        } else if b.1 >= p.1 && b.0 >= p.0 && b.0 as i64 <= p.0 as i64 + pw {
            3
        } else if b.1 >= 200 {
            4
        } else {
            5
        };
        assert(case == frame_case(self));
        if case <= 3 && v.direction > 360 {
            return false;
        }
        if case == 4 {
            return true;
        }
        let direction: usize = if case == 0 || case == 1 {
            if v.direction <= 180 {
                180 - v.direction
            } else {
                540 - v.direction
            }
        } else if case == 2 || case == 3 {
            360 - v.direction
        } else {
            v.direction
        };
        assert(direction == bounced_velocity(self).direction);
        if direction > crate::physics::MAX_EXACT_DIRECTION {
            return false;
        }
        let speed = #[verifier::truncate] (v.speed as i16) as i64;
        let c = direction_cos(direction as u64) as i64;
        let s = direction_sin(direction as u64) as i64;
        assert(-0x10_0000 <= speed * c <= 0x10_0000) by (nonlinear_arith)
            requires
                -32768 <= speed <= 32767,
                -3 <= c <= 3,
        ;
        assert(-0x10_0000 <= speed * s <= 0x10_0000) by (nonlinear_arith)
            requires
                -32768 <= speed <= 32767,
                -3 <= s <= 3,
        ;
        let dx = speed * c;
        let dy = speed * s;
        assert(dx == crate::physics::horizontal_of(bounced_velocity(self)));
        assert(dy == crate::physics::vertical_of(bounced_velocity(self)));
        if !fits(dx) || !fits(dy) || !fits(b.0 as i64 + dx) || !fits(b.1 as i64 + dy) {
            return false;
        }
        let new_y = (b.1 as i64 + dy) as i16;
        assert(move_fits(Object { pos: b, velocity: bounced_velocity(self) }, 1, 1, 1));
        assert(new_y == moved_ball(self).pos.1);
        if new_y < p.1 {
            return true;
        }
        if direction > crate::physics::MAX_EXACT_DIRECTION - 180 {
            return false;
        }
        let rev = (180 + direction) as u64;
        let sin = direction_sin(rev) as i64;
        let cos = direction_cos(rev) as i64;
        if sin == 0 {
            return false;
        }
        let y_distance = p.1 as i64 - b.1 as i64;
        assert(-0x10_0000 <= y_distance * cos <= 0x10_0000) by (nonlinear_arith)
            requires
                -65536 <= y_distance <= 65536,
                -3 <= cos <= 3,
        ;
        if !fits(y_distance) || !fits(y_distance * cos) {
            return false;
        }
        let side = quotient_i64(y_distance * cos, sin);
        assert(side == side_distance(b, direction, p.1));
        fits(side) && fits(b.0 as i64 - side) && fits(p.0 as i64 + pw - 1)
    }
}

} // verus!
