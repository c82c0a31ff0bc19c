//! What is animated: a pet drawn as character art, or a ball drawn as a
//! rectangle.

use vstd::prelude::*;
use crate::motion::in_range;

verus! {

/// A terminal colour.
#[derive(Clone, Copy, Debug, PartialEq, Eq)]
pub enum Color {
    Reset,
    Black,
    Red,
    Green,
    Yellow,
    Blue,
    Magenta,
    Cyan,
    Gray,
    DarkGray,
    LightRed,
    LightGreen,
    LightYellow,
    LightBlue,
    LightMagenta,
    LightCyan,
    White,
    Rgb(u8, u8, u8),
    Indexed(u8),
}

/// The pet: where it stands, its colour, two frames of character art and its
/// name.
#[derive(Clone, Debug, PartialEq, Eq)]
pub struct Pet {
    pub x: i64,
    pub y: i64,
    pub color: Color,
    pub body: [String; 2],
    pub name: String,
}

/// The ball: a rectangle with its corner at (`x`, `y`).
#[derive(Clone, Copy, Debug, PartialEq, Eq)]
pub struct Ball {
    pub x: i64,
    pub y: i64,
    pub width: i64,
    pub height: i64,
    pub color: Color,
}

/// The one thing an application animates.
#[derive(Clone, Debug, PartialEq, Eq)]
pub enum Entity {
    Pet(Pet),
    Ball(Ball),
}

impl Pet {
    /// Whether the pet stands on the coordinate line.
    pub open spec fn wf(&self) -> bool {
        in_range(self.x as int) && in_range(self.y as int)
    }

    /// A yellow pet at (50, 50) with the given name and art.
    pub fn new(name: String, body: [String; 2]) -> (pet: Pet)
        ensures
            pet.x == 50,
            pet.y == 50,
            pet.color == Color::Yellow,
            pet.body == body,
            pet.name == name,
            pet.wf(),
    {
        Pet { x: 50, y: 50, color: Color::Yellow, body, name }
    }
}

impl Ball {
    /// Whether the ball's corner and size lie on the coordinate line.
    pub open spec fn wf(&self) -> bool {
        &&& in_range(self.x as int)
        &&& in_range(self.y as int)
        &&& in_range(self.width as int)
        &&& in_range(self.height as int)
    }
}

impl Entity {
    /// Whether the pet, or the ball, lies on the coordinate line.
    pub open spec fn wf(&self) -> bool {
        match self {
            Entity::Pet(pet) => pet.wf(),
            Entity::Ball(ball) => ball.wf(),
        }
    }
}

} // verus!
