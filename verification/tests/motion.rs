use oxidatchi::entity::{Ball, Color, Entity, Pet};
use oxidatchi::input::Key;
use oxidatchi::motion::{crossing, shift, COORD_MAX};
use oxidatchi::playground::Playground;
use oxidatchi::state::{App, PET_FRAME_OPEN, PET_FRAME_SHUT, PET_NAME};

fn ball_of(app: &App) -> Ball {
    match &app.entity {
        Entity::Ball(ball) => *ball,
        Entity::Pet(_) => panic!("the application shows a pet"),
    }
}

fn pet_of(app: &App) -> Pet {
    match &app.entity {
        Entity::Pet(pet) => pet.clone(),
        Entity::Ball(_) => panic!("the application shows a ball"),
    }
}

fn ball_app(x: i64, y: i64, dir_x: bool, dir_y: bool) -> App {
    let mut app = App::with_ball();
    app.entity = Entity::Ball(Ball { x, y, width: 10, height: 10, color: Color::Yellow });
    app.dir_x = dir_x;
    app.dir_y = dir_y;
    app
}

/// Where the ball stands on one axis after `n` ticks, if it was at step
/// `phase` of its run between 9 and 101 when the ticks began.
fn run_between_walls(n: i64, phase: i64) -> (i64, bool) {
    let step = (n + phase) % 184;
    let pos = if step <= 92 { 9 + step } else { 9 + 184 - step };
    (pos, 1 <= step && step <= 92)
}

#[test]
fn coord_max_is_two_to_the_53() {
    assert_eq!(COORD_MAX, 1i64 << 53);
}

#[test]
fn shift_adds_or_takes_away_the_speed() {
    assert_eq!(shift(10, 1, true), 11);
    assert_eq!(shift(10, 1, false), 9);
    assert_eq!(shift(-4, 7, true), 3);
    assert_eq!(shift(-4, 7, false), -11);
    assert_eq!(shift(5, -2, true), 3);
    assert_eq!(shift(5, 0, false), 5);
}

#[test]
fn shift_makes_no_move_off_the_coordinate_line() {
    assert_eq!(shift(COORD_MAX, 1, true), COORD_MAX);
    assert_eq!(shift(-COORD_MAX, 1, false), -COORD_MAX);
    assert_eq!(shift(COORD_MAX - 1, 1, true), COORD_MAX);
    assert_eq!(shift(COORD_MAX - 1, 2, true), COORD_MAX - 1);
    assert_eq!(shift(COORD_MAX, 1, false), COORD_MAX - 1);
    assert_eq!(shift(i64::MAX, i64::MAX, true), i64::MAX);
    assert_eq!(shift(i64::MIN, i64::MAX, false), i64::MIN);
    assert_eq!(shift(i64::MAX, 1, false), i64::MAX);
}

#[test]
fn crossing_tells_when_a_piece_reaches_past_a_wall() {
    assert!(!crossing(10, 10, 10, 110));
    assert!(!crossing(100, 10, 10, 110));
    assert!(crossing(101, 10, 10, 110));
    assert!(crossing(9, 10, 10, 110));
    assert!(crossing(-1, 0, 0, 0));
    assert!(!crossing(0, 0, 0, 0));
    assert!(crossing(i64::MAX, i64::MAX, 0, u16::MAX));
    assert!(crossing(i64::MIN, i64::MIN, 0, u16::MAX));
}

#[test]
fn pet_new_stands_at_50_50() {
    let pet = Pet::new(
        String::from("Kip"),
        [String::from("open"), String::from("shut")],
    );
    assert_eq!(pet.x, 50);
    assert_eq!(pet.y, 50);
    assert_eq!(pet.color, Color::Yellow);
    assert_eq!(pet.name, "Kip");
    assert_eq!(pet.body, [String::from("open"), String::from("shut")]);
}

#[test]
fn app_new_holds_the_pet_defaults() {
    let app = App::new();
    let pet = pet_of(&app);
    assert_eq!(pet.x, 100);
    assert_eq!(pet.y, 500);
    assert_eq!(pet.color, Color::Yellow);
    assert_eq!(pet.name, "Kip");
    assert_eq!(pet.name, PET_NAME);
    assert_eq!(pet.body[0], PET_FRAME_OPEN);
    assert_eq!(pet.body[1], PET_FRAME_SHUT);
    assert!(pet.body[0].starts_with(" .::::::::..     \n"));
    assert!(pet.body[1].ends_with("`::::::::::_,__o "));
    assert!(pet.body[1].contains('\u{2d7}'));
    assert_eq!(app.playground, Playground { x: 10, y: 10, width: 100, height: 100 });
    assert_eq!((app.vx, app.vy), (1, 1));
    assert!(app.dir_x && app.dir_y);
    assert_eq!((app.offset_x, app.offset_y), (0, 0));
}

#[test]
fn app_with_ball_holds_the_ball_defaults() {
    let app = App::with_ball();
    assert_eq!(
        ball_of(&app),
        Ball { x: 10, y: 30, width: 10, height: 10, color: Color::Yellow }
    );
    assert_eq!(app.playground, Playground { x: 10, y: 10, width: 100, height: 100 });
    assert_eq!((app.vx, app.vy), (1, 1));
    assert!(app.dir_x && app.dir_y);
    assert_eq!((app.offset_x, app.offset_y), (0, 0));
}

#[test]
fn ball_is_at_11_31_after_one_tick() {
    let mut app = App::with_ball();
    app.advance();
    let ball = ball_of(&app);
    assert_eq!((ball.x, ball.y), (11, 31));
    assert!(app.dir_x && app.dir_y);
    assert_eq!((ball.width, ball.height, ball.color), (10, 10, Color::Yellow));
}

#[test]
fn ball_turns_at_the_right_wall() {
    let mut app = App::with_ball();
    app.advance_by(91);
    assert_eq!(ball_of(&app).x, 101);
    assert!(app.dir_x);
    app.advance();
    assert_eq!(ball_of(&app).x, 100);
    assert!(!app.dir_x);
    app.advance();
    assert_eq!(ball_of(&app).x, 99);
    assert!(!app.dir_x);
}

#[test]
fn ball_turns_at_the_bottom_wall() {
    let mut app = App::with_ball();
    app.advance_by(71);
    assert_eq!(ball_of(&app).y, 101);
    assert!(app.dir_y);
    app.advance();
    assert_eq!(ball_of(&app).y, 100);
    assert!(!app.dir_y);
}

#[test]
fn ball_turns_at_the_left_and_the_top_wall() {
    let mut app = ball_app(9, 9, false, false);
    app.advance();
    let ball = ball_of(&app);
    assert_eq!((ball.x, ball.y), (10, 10));
    assert!(app.dir_x && app.dir_y);
}

#[test]
fn ball_follows_the_run_between_the_walls() {
    let mut app = App::with_ball();
    for n in 0..1000i64 {
        let ball = ball_of(&app);
        let (x, dir_x) = run_between_walls(n, 1);
        let (y, dir_y) = run_between_walls(n, 21);
        assert_eq!((ball.x, ball.y), (x, y), "after {} ticks", n);
        assert_eq!((app.dir_x, app.dir_y), (dir_x, dir_y), "after {} ticks", n);
        app.advance();
    }
}

#[test]
fn ball_is_back_at_the_start_after_184_ticks() {
    let mut app = App::with_ball();
    app.advance_by(184);
    assert_eq!(app, App::with_ball());
    app.advance_by(183);
    assert_eq!(ball_of(&app).x, 9);
    assert!(!app.dir_x);
}

#[test]
fn two_runs_of_the_same_length_agree() {
    let mut by_steps = App::with_ball();
    for _ in 0..500 {
        by_steps.advance();
    }
    let mut at_once = App::with_ball();
    at_once.advance_by(500);
    assert_eq!(by_steps, at_once);
}

#[test]
fn advance_by_nothing_changes_nothing() {
    let mut app = App::with_ball();
    app.advance_by(0);
    assert_eq!(app, App::with_ball());
    let mut pet = App::new();
    pet.advance_by(0);
    assert_eq!(pet, App::new());
}

#[test]
fn flag_flips_once_for_each_tick_outside_a_wall() {
    for (x, dir_x) in [(5i64, true), (5, false), (150, true), (150, false), (101, true)] {
        let mut app = ball_app(x, 50, dir_x, true);
        app.advance();
        assert_eq!(app.dir_x, !dir_x, "x = {}", x);
        assert!(app.dir_y);
        let moved = if app.dir_x { x + 1 } else { x - 1 };
        assert_eq!(ball_of(&app).x, moved);
    }
}

#[test]
fn flag_is_kept_inside_the_walls() {
    for (x, dir_x) in [(10i64, true), (10, false), (55, true), (100, false), (100, true)] {
        let mut app = ball_app(x, 50, dir_x, false);
        app.advance();
        assert_eq!(app.dir_x, dir_x, "x = {}", x);
        assert!(!app.dir_y);
        assert_eq!(ball_of(&app).y, 49);
    }
}

#[test]
fn ball_moves_by_its_speed() {
    let mut app = ball_app(20, 20, true, false);
    app.vx = 3;
    app.vy = 7;
    app.advance();
    let ball = ball_of(&app);
    assert_eq!((ball.x, ball.y), (23, 13));
    assert_eq!((app.vx, app.vy), (3, 7));
}

#[test]
fn ball_within_reach_stays_within_reach() {
    let mut app = ball_app(10, 100, false, true);
    app.vx = 4;
    app.vy = 9;
    for tick in 0..2000 {
        app.advance();
        let ball = ball_of(&app);
        assert!(10 - 4 <= ball.x && ball.x <= 100 + 4, "tick {}", tick);
        assert!(10 - 9 <= ball.y && ball.y <= 100 + 9, "tick {}", tick);
    }
}

#[test]
fn pet_is_100_further_right_after_100_ticks() {
    let mut app = App::new();
    for _ in 0..100 {
        app.advance();
    }
    let pet = pet_of(&app);
    assert_eq!(pet.x, 200);
    assert_eq!(pet.y, 500);
    let mut expected = App::new();
    expected.entity = Entity::Pet(Pet { x: 200, ..pet_of(&expected) });
    assert_eq!(app, expected);
}

#[test]
fn pet_ignores_walls_speeds_and_flags() {
    let mut app = App::new();
    app.vx = 5;
    app.vy = -3;
    app.dir_x = false;
    app.dir_y = false;
    app.advance_by(3);
    let pet = pet_of(&app);
    assert_eq!((pet.x, pet.y), (103, 500));
    assert!(!app.dir_x && !app.dir_y);
    assert_eq!((app.vx, app.vy), (5, -3));
}

#[test]
fn pet_rests_at_the_end_of_the_coordinate_line() {
    let mut app = App::new();
    app.entity = Entity::Pet(Pet { x: COORD_MAX - 2, ..pet_of(&app) });
    app.advance_by(5);
    assert_eq!(pet_of(&app).x, COORD_MAX);
    assert_eq!(pet_of(&app).y, 500);
}

#[test]
fn arrows_move_the_offset_of_a_ball() {
    let mut app = App::with_ball();
    app.on_key(Key::Right);
    assert_eq!((app.offset_x, app.offset_y), (1, 0));
    app.on_key(Key::Down);
    assert_eq!((app.offset_x, app.offset_y), (1, 1));
    app.on_key(Key::Left);
    app.on_key(Key::Left);
    assert_eq!((app.offset_x, app.offset_y), (-1, 1));
    app.on_key(Key::Up);
    app.on_key(Key::Up);
    assert_eq!((app.offset_x, app.offset_y), (-1, -1));
    let mut expected = App::with_ball();
    expected.offset_x = -1;
    expected.offset_y = -1;
    assert_eq!(app, expected);
}

#[test]
fn other_keys_leave_a_ball_alone() {
    let mut app = App::with_ball();
    for key in [Key::Char('x'), Key::Char('q'), Key::Esc, Key::Other] {
        app.on_key(key);
        assert_eq!(app, App::with_ball());
    }
}

#[test]
fn keys_leave_a_pet_alone() {
    let mut app = App::new();
    for key in [Key::Up, Key::Down, Key::Left, Key::Right, Key::Char('a'), Key::Other] {
        app.on_key(key);
        assert_eq!(app, App::new());
    }
}

#[test]
fn offset_stops_at_the_end_of_the_coordinate_line() {
    let mut app = App::with_ball();
    app.offset_x = COORD_MAX;
    app.offset_y = -COORD_MAX;
    app.on_key(Key::Right);
    app.on_key(Key::Up);
    assert_eq!((app.offset_x, app.offset_y), (COORD_MAX, -COORD_MAX));
}
