use lib::artist::Bitmap;
use lib::game::{
    ball_collided_with_ceiling, ball_collided_with_left_wall, ball_collided_with_paddle,
    ball_collided_with_right_wall, ball_is_off_screen, ball_passed_through_paddle, paddle_collided_with_left_wall,
    paddle_collided_with_right_wall, paddle_start_is_defined, Character, Game, PaddleDirection,
};
use lib::keyboard::{KeyCode, KeyDirection};
use lib::physics::{Object, Point, Velocity};

fn bitmap(width: u32, height: u32) -> Bitmap {
    Bitmap { width, height, color_table: Vec::new(), image_data: vec![0; (width * height) as usize] }
}

fn character(x: i16, y: i16, width: u32) -> Character {
    Character {
        object: Object { pos: Point(x, y), velocity: Velocity { direction: 0, speed: 0 } },
        repr: bitmap(width, 8),
    }
}

#[test]
fn wall_and_ceiling_collisions() {
    assert!(ball_collided_with_left_wall(&character(0, 50, 8)));
    assert!(!ball_collided_with_left_wall(&character(1, 50, 8)));
    assert!(ball_collided_with_right_wall(&character(312, 50, 8)));
    assert!(!ball_collided_with_right_wall(&character(311, 50, 8)));
    assert!(ball_collided_with_ceiling(&character(50, 5, 8)));
    assert!(!ball_collided_with_ceiling(&character(50, 6, 8)));
    assert!(ball_is_off_screen(&character(50, 200, 8)));
    assert!(!ball_is_off_screen(&character(50, 199, 8)));
}

#[test]
fn paddle_collisions() {
    let paddle = character(100, 180, 40);
    assert!(ball_collided_with_paddle(&character(100, 180, 8), &paddle));
    assert!(ball_collided_with_paddle(&character(140, 181, 8), &paddle));
    assert!(!ball_collided_with_paddle(&character(141, 181, 8), &paddle));
    assert!(!ball_collided_with_paddle(&character(120, 179, 8), &paddle));
    assert!(paddle_collided_with_right_wall(&character(272, 180, 40)));
    assert!(!paddle_collided_with_right_wall(&character(271, 180, 40)));
    assert!(paddle_collided_with_left_wall(&character(5, 180, 40)));
    assert!(!paddle_collided_with_left_wall(&character(6, 180, 40)));
}

#[test]
fn ball_above_the_paddle_has_not_passed() {
    let paddle = character(100, 180, 40);
    assert_eq!(ball_passed_through_paddle(Point(110, 170), Point(105, 175), 210, &paddle), (false, None));
}

#[test]
fn ball_crossing_the_paddle_level() {
    let paddle = character(100, 180, 40);
    // Seen from the paddle, a ball moving at 30 degrees comes from 210
    // degrees, whose steps are -2 across and -1 down: 10 rows below the
    // old position the ball was 20 pixels further along.
    let (passed, point) = ball_passed_through_paddle(Point(110, 170), Point(120, 185), 30, &paddle);
    assert_eq!(point, Some(Point(90, 180)));
    assert!(!passed);
    let (passed, point) = ball_passed_through_paddle(Point(130, 170), Point(140, 185), 30, &paddle);
    assert_eq!(point, Some(Point(110, 180)));
    assert!(passed);
}

fn new_game() -> Game {
    Game::new(bitmap(8, 8), bitmap(40, 8))
}

#[test]
fn a_new_game_rests_the_ball_on_the_paddle() {
    let game = new_game();
    assert_eq!(game.paddle_char.object.pos, Point(132, 184));
    assert_eq!(game.ball_char.object.pos, Point(150, 170));
    assert!(!game.has_started);
}

#[test]
fn enter_launches_the_ball_once() {
    let mut game = new_game();
    game.handle_key(KeyCode::ArrowLeft, KeyDirection::Down);
    assert_eq!(game.paddle_char.object.pos, Point(132, 184));
    game.handle_key(KeyCode::Enter, KeyDirection::Down);
    assert!(game.has_started);
    assert_eq!(game.ball_char.object.velocity, Velocity { direction: 210, speed: 5 });
    game.ball_char.object.velocity.direction = 30;
    game.handle_key(KeyCode::Enter, KeyDirection::Down);
    assert_eq!(game.ball_char.object.velocity.direction, 30);
}

#[test]
fn arrows_move_the_paddle_until_a_wall() {
    let mut game = new_game();
    game.handle_key(KeyCode::Enter, KeyDirection::Down);
    game.handle_key(KeyCode::ArrowLeft, KeyDirection::Down);
    assert_eq!(game.paddle_char.object.pos, Point(128, 184));
    game.handle_key(KeyCode::ArrowRight, KeyDirection::Down);
    game.handle_key(KeyCode::ArrowRight, KeyDirection::Down);
    assert_eq!(game.paddle_char.object.pos, Point(136, 184));
    game.handle_key(KeyCode::ArrowRight, KeyDirection::Up);
    assert_eq!(game.paddle_char.object.pos, Point(136, 184));
    game.paddle_char.object.pos = Point(5, 184);
    game.handle_key(KeyCode::ArrowLeft, KeyDirection::Down);
    assert_eq!(game.paddle_char.object.pos, Point(5, 184));
}

#[test]
fn move_paddle_steps_four_pixels() {
    let mut game = new_game();
    game.move_paddle(PaddleDirection::Right);
    assert_eq!(game.paddle_char.object.pos, Point(136, 184));
    game.move_paddle(PaddleDirection::Left);
    game.move_paddle(PaddleDirection::Left);
    assert_eq!(game.paddle_char.object.pos, Point(128, 184));
}

#[test]
fn a_frame_moves_the_ball() {
    let mut game = new_game();
    game.handle_key(KeyCode::Enter, KeyDirection::Down);
    let over = game.play_frame();
    assert!(!over);
    // Direction 210 moves -2 across and -1 down per unit of speed.
    assert_eq!(game.ball_char.object.pos, Point(140, 165));
}

#[test]
fn the_left_wall_reflects_the_ball() {
    let mut game = new_game();
    game.ball_char.object.pos = Point(0, 100);
    game.ball_char.object.velocity = Velocity { direction: 210, speed: 1 };
    assert!(!game.play_frame());
    assert_eq!(game.ball_char.object.velocity.direction, 330);
}

#[test]
fn the_ceiling_reflects_the_ball() {
    let mut game = new_game();
    game.ball_char.object.pos = Point(100, 5);
    game.ball_char.object.velocity = Velocity { direction: 210, speed: 1 };
    assert!(!game.play_frame());
    assert_eq!(game.ball_char.object.velocity.direction, 150);
}

#[test]
fn the_game_is_over_below_the_screen() {
    let mut game = new_game();
    game.ball_char.object.pos = Point(20, 200);
    game.ball_char.object.velocity = Velocity { direction: 90, speed: 1 };
    assert!(game.play_frame());
    assert_eq!(game.ball_char.object.pos, Point(20, 200));
}

#[test]
fn frames_that_stay_in_range_are_defined() {
    let mut game = new_game();
    assert!(game.frame_is_defined());
    game.handle_key(KeyCode::Enter, KeyDirection::Down);
    assert!(game.frame_is_defined());
    game.ball_char.object.velocity = Velocity { direction: 210, speed: 20000 };
    assert!(!game.frame_is_defined());
}

#[test]
fn keys_never_push_the_paddle_through_a_wall() {
    let mut game = new_game();
    game.handle_key(KeyCode::Enter, KeyDirection::Down);
    game.paddle_char.object.pos = Point(271, 184);
    game.handle_key(KeyCode::ArrowRight, KeyDirection::Down);
    assert_eq!(game.paddle_char.object.pos, Point(275, 184));
    game.handle_key(KeyCode::ArrowRight, KeyDirection::Down);
    assert_eq!(game.paddle_char.object.pos, Point(275, 184));
    game.paddle_char.object.pos = Point(6, 184);
    game.handle_key(KeyCode::ArrowLeft, KeyDirection::Down);
    assert_eq!(game.paddle_char.object.pos, Point(2, 184));
    game.handle_key(KeyCode::ArrowLeft, KeyDirection::Down);
    assert_eq!(game.paddle_char.object.pos, Point(2, 184));
}

#[test]
fn wide_paddles_start_off_the_left_edge() {
    let game = Game::new(bitmap(8, 8), bitmap(600, 8));
    assert_eq!(game.paddle_char.object.pos, Point(-148, 184));
    assert_eq!(game.ball_char.object.pos, Point(-130, 170));
    assert!(paddle_start_is_defined(600, 8));
    assert!(paddle_start_is_defined(70000, 8));
    assert!(!paddle_start_is_defined(65672, 8));
}
