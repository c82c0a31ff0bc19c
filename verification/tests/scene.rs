use oxidatchi::entity::{Ball, Color, Entity};
use oxidatchi::scene::{render, Bar, Bounds, Label};
use oxidatchi::state::App;
use oxidatchi::text::to_decimal;

fn red(x: i64, y: i64, rows: i64, text: &str) -> Label {
    Label { x, y, rows, text: String::from(text), color: Some(Color::LightRed) }
}

#[test]
fn decimal_of_small_and_large_numbers() {
    assert_eq!(to_decimal(0), "0");
    assert_eq!(to_decimal(7), "7");
    assert_eq!(to_decimal(9), "9");
    assert_eq!(to_decimal(10), "10");
    assert_eq!(to_decimal(24), "24");
    assert_eq!(to_decimal(100), "100");
    assert_eq!(to_decimal(1905), "1905");
    assert_eq!(to_decimal(65535), "65535");
}

#[test]
fn decimal_agrees_with_the_standard_library() {
    for n in 0..=u16::MAX {
        assert_eq!(to_decimal(n), n.to_string());
        assert_eq!(to_decimal(n), f64::from(n).to_string());
    }
}

#[test]
fn pet_scene_shows_four_lines_and_the_height() {
    let scene = render(&App::new(), 24);
    assert_eq!(scene.canvas.title, "oxidatchi");
    assert_eq!(scene.canvas.x_bounds, Bounds { low: 0, high: 1000 });
    assert_eq!(scene.canvas.y_bounds, Bounds { low: 0, high: 1000 });
    assert_eq!(scene.canvas_share, 100);
    assert_eq!(scene.bar, None);
    assert!(scene.canvas.shapes.is_empty());
    assert_eq!(
        scene.canvas.labels,
        vec![
            red(100, 500, 1, " .::::::::.."),
            red(100, 500, -1, " :::::::::::::"),
            red(100, 500, -2, ":::::::::::' .\\"),
            red(100, 500, -3, "`::::::::::_,__o"),
            Label { x: 10, y: 10, rows: 0, text: String::from("24"), color: None },
        ]
    );
}

#[test]
fn pet_scene_follows_the_pet() {
    let mut app = App::new();
    app.advance_by(100);
    let scene = render(&app, 50);
    for label in &scene.canvas.labels[..4] {
        assert_eq!((label.x, label.y), (200, 500));
        assert_eq!(label.color, Some(Color::LightRed));
    }
    assert_eq!(scene.canvas.labels[4].text, "50");
    assert_eq!((scene.canvas.labels[4].x, scene.canvas.labels[4].y), (10, 10));
}

#[test]
fn pet_scene_on_a_terminal_without_rows() {
    let scene = render(&App::new(), 0);
    assert_eq!(scene.canvas.labels.len(), 5);
    assert_eq!(scene.canvas.labels[4].text, "0");
}

#[test]
fn ball_scene_shows_the_ball_and_a_half_full_bar() {
    let scene = render(&App::with_ball(), 40);
    assert_eq!(scene.canvas.title, "oxidatchi");
    assert_eq!(scene.canvas.x_bounds, Bounds { low: 10, high: 110 });
    assert_eq!(scene.canvas.y_bounds, Bounds { low: 10, high: 110 });
    assert!(scene.canvas.labels.is_empty());
    assert_eq!(
        scene.canvas.shapes,
        vec![Ball { x: 10, y: 30, width: 10, height: 10, color: Color::Yellow }]
    );
    assert_eq!(scene.canvas_share, 95);
    assert_eq!(scene.bar, Some(Bar { share: 5, fill: 50 }));
}

#[test]
fn ball_scene_bar_does_not_follow_the_state() {
    let mut app = App::with_ball();
    app.advance_by(333);
    app.offset_x = 12;
    let scene = render(&app, 40);
    assert_eq!(scene.bar, Some(Bar { share: 5, fill: 50 }));
    match &app.entity {
        Entity::Ball(ball) => assert_eq!(scene.canvas.shapes, vec![*ball]),
        Entity::Pet(_) => unreachable!(),
    }
}

#[test]
fn rendering_twice_gives_the_same_scene() {
    for mut app in [App::new(), App::with_ball()] {
        app.advance_by(17);
        let before = app.clone();
        let first = render(&app, 31);
        let second = render(&app, 31);
        assert_eq!(first, second);
        assert_eq!(app, before);
    }
}
