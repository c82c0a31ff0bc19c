//! What a frame shows.
//!
//! A scene lists what is to be painted and where, in the coordinates of the
//! canvas. It is made from the application state and the height of the
//! terminal and from nothing else, and making it leaves the state as it was:
//! two scenes of one state are equal.

use vstd::prelude::*;
use vstd::string::StringExecFns;
use crate::entity::{Ball, Color, Entity};
use crate::state::App;
use crate::text::{decimal, to_decimal};

verus! {

/// The title on the border of the canvas.
pub const TITLE: &'static str = "oxidatchi";

/// The four lines of the pet, from the top.
pub const PET_LINE_0: &'static str = " .::::::::..";

pub const PET_LINE_1: &'static str = " :::::::::::::";

pub const PET_LINE_2: &'static str = ":::::::::::' .\\";

pub const PET_LINE_3: &'static str = "`::::::::::_,__o";

/// The width and the height of the pet's canvas.
pub const PET_CANVAS_SIZE: i64 = 1000;

/// How much of the terminal's height the ball's canvas takes, in percent.
pub const BALL_CANVAS_SHARE: u16 = 95;

/// How much of it the bar below the canvas takes, in percent.
pub const BAR_SHARE: u16 = 5;

/// How far the bar is filled, in percent.
pub const BAR_FILL: u16 = 50;

/// A line of text on the canvas.
///
/// It is printed at `x` and at `y` plus `rows` rows, where a row is the
/// height of the canvas in its own units divided by the height of the
/// terminal in cells.
#[derive(Clone, Debug, PartialEq, Eq)]
pub struct Label {
    pub x: i64,
    pub y: i64,
    pub rows: i64,
    pub text: String,
    /// The colour of the text; `None` leaves it to the terminal.
    pub color: Option<Color>,
}

/// The coordinates of two opposite edges of a canvas.
#[derive(Clone, Copy, Debug, PartialEq, Eq)]
pub struct Bounds {
    pub low: i64,
    pub high: i64,
}

/// A bordered canvas with what is painted on it.
#[derive(Clone, Debug, PartialEq, Eq)]
pub struct Canvas {
    pub title: String,
    /// The left and the right edge.
    pub x_bounds: Bounds,
    /// The lower and the upper edge.
    pub y_bounds: Bounds,
    pub labels: Vec<Label>,
    pub shapes: Vec<Ball>,
}

/// A bar that is filled to a part.
#[derive(Clone, Copy, Debug, PartialEq, Eq)]
pub struct Bar {
    /// The part of the terminal's height that the bar takes, in percent.
    pub share: u16,
    /// The part of the bar that is filled, in percent.
    pub fill: u16,
}

/// One frame: the canvas at the top and, for a ball, a bar below it.
#[derive(Clone, Debug, PartialEq, Eq)]
pub struct Scene {
    pub canvas: Canvas,
    /// The part of the terminal's height that the canvas takes, in percent.
    pub canvas_share: u16,
    pub bar: Option<Bar>,
}

/// A label as a value of mathematics.
pub struct LabelView {
    pub x: int,
    pub y: int,
    pub rows: int,
    pub text: Seq<char>,
    pub color: Option<Color>,
}

/// A canvas as a value of mathematics.
pub struct CanvasView {
    pub title: Seq<char>,
    pub x_bounds: Bounds,
    pub y_bounds: Bounds,
    pub labels: Seq<LabelView>,
    pub shapes: Seq<Ball>,
}

/// A scene as a value of mathematics.
pub struct SceneView {
    pub canvas: CanvasView,
    pub canvas_share: int,
    pub bar: Option<Bar>,
}

impl View for Label {
    type V = LabelView;

    open spec fn view(&self) -> LabelView {
        LabelView {
            x: self.x as int,
            y: self.y as int,
            rows: self.rows as int,
            text: self.text@,
            color: self.color,
        }
    }
}

impl View for Canvas {
    type V = CanvasView;

    open spec fn view(&self) -> CanvasView {
        CanvasView {
            title: self.title@,
            x_bounds: self.x_bounds,
            y_bounds: self.y_bounds,
            labels: Seq::new(self.labels@.len(), |i: int| self.labels@[i]@),
            shapes: self.shapes@,
        }
    }
}

impl View for Scene {
    type V = SceneView;

    open spec fn view(&self) -> SceneView {
        SceneView {
            canvas: self.canvas@,
            canvas_share: self.canvas_share as int,
            bar: self.bar,
        }
    }
}

/// One of the pet's lines: red, at the pet's place, `rows` rows above it.
pub open spec fn pet_line(x: int, y: int, rows: int, text: Seq<char>) -> LabelView {
    LabelView { x, y, rows, text, color: Some(Color::LightRed) }
}

/// What is painted for a pet at (`x`, `y`) on a terminal of `height` rows:
/// its four lines, one row above it and one, two and three rows below it,
/// and the height of the terminal as a number near the lower left corner.
pub open spec fn pet_labels(x: int, y: int, height: u16) -> Seq<LabelView> {
    seq![
        pet_line(x, y, 1, PET_LINE_0@),
        pet_line(x, y, -1, PET_LINE_1@),
        pet_line(x, y, -2, PET_LINE_2@),
        pet_line(x, y, -3, PET_LINE_3@),
        LabelView { x: 10, y: 10, rows: 0, text: decimal(height as nat), color: None },
    ]
}

/// The scene of `app` on a terminal of `height` rows.
///
/// A pet is painted as text on a canvas of 1000 by 1000 that takes the whole
/// terminal. A ball is painted as a rectangle on a canvas whose bounds are
/// the walls of the playground and which takes 95 percent of the height; the
/// remaining 5 percent show a bar that is always half full.
pub open spec fn scene_of(app: App, height: u16) -> SceneView {
    match app.entity {
        Entity::Pet(pet) => SceneView {
            canvas: CanvasView {
                title: TITLE@,
                x_bounds: Bounds { low: 0, high: PET_CANVAS_SIZE },
                y_bounds: Bounds { low: 0, high: PET_CANVAS_SIZE },
                labels: pet_labels(pet.x as int, pet.y as int, height),
                shapes: Seq::empty(),
            },
            canvas_share: 100,
            bar: None,
        },
        Entity::Ball(ball) => SceneView {
            canvas: CanvasView {
                title: TITLE@,
                x_bounds: Bounds {
                    low: app.playground.left() as i64,
                    high: app.playground.right() as i64,
                },
                y_bounds: Bounds {
                    low: app.playground.top() as i64,
                    high: app.playground.bottom() as i64,
                },
                labels: Seq::empty(),
                shapes: seq![ball],
            },
            canvas_share: BALL_CANVAS_SHARE as int,
            bar: Some(Bar { share: BAR_SHARE, fill: BAR_FILL }),
        },
    }
}

/// A red line of the pet.
fn pet_label(x: i64, y: i64, rows: i64, text: &str) -> (label: Label)
    ensures
        label@ == pet_line(x as int, y as int, rows as int, text@),
{
    Label { x, y, rows, text: String::from_str(text), color: Some(Color::LightRed) }
}

/// Lays out the frame for `app` on a terminal of `height` rows.
///
/// The state is only read, and the scene depends on nothing but the state
/// and the height: rendering an unchanged state again gives an equal scene.
pub fn render(app: &App, height: u16) -> (scene: Scene)
    ensures
        scene@ == scene_of(*app, height),
{
    match &app.entity {
        Entity::Pet(pet) => {
            let mut labels: Vec<Label> = Vec::new();
            labels.push(pet_label(pet.x, pet.y, 1, PET_LINE_0));
            labels.push(pet_label(pet.x, pet.y, -1, PET_LINE_1));
            labels.push(pet_label(pet.x, pet.y, -2, PET_LINE_2));
            labels.push(pet_label(pet.x, pet.y, -3, PET_LINE_3));
            labels.push(Label { x: 10, y: 10, rows: 0, text: to_decimal(height), color: None });
            let canvas = Canvas {
                title: String::from_str(TITLE),
                x_bounds: Bounds { low: 0, high: PET_CANVAS_SIZE },
                y_bounds: Bounds { low: 0, high: PET_CANVAS_SIZE },
                labels,
                shapes: Vec::new(),
            };
            assert(canvas@.labels =~= pet_labels(pet.x as int, pet.y as int, height));
            assert(canvas@.shapes =~= Seq::empty());
            Scene { canvas, canvas_share: 100, bar: None }
        },
        Entity::Ball(ball) => {
            let mut shapes: Vec<Ball> = Vec::new();
            shapes.push(*ball);
            let canvas = Canvas {
                title: String::from_str(TITLE),
                x_bounds: Bounds {
                    low: app.playground.left() as i64,
                    high: app.playground.right() as i64,
                },
                y_bounds: Bounds {
                    low: app.playground.top() as i64,
                    high: app.playground.bottom() as i64,
                },
                labels: Vec::new(),
                shapes,
            };
            assert(canvas@.labels =~= Seq::empty());
            assert(canvas@.shapes =~= seq![*ball]);
            Scene {
                canvas,
                canvas_share: BALL_CANVAS_SHARE,
                bar: Some(Bar { share: BAR_SHARE, fill: BAR_FILL }),
            }
        },
    }
}

} // verus!
