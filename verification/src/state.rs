//! The application state and the one step that a tick makes.

use vstd::prelude::*;
use vstd::string::StringExecFns;
use crate::entity::{Ball, Color, Entity, Pet};
use crate::input::Key;
use crate::motion::{crosses, crossing, in_range, reflected, shift, shifted};
use crate::playground::Playground;

verus! {

/// The pet's name.
pub const PET_NAME: &'static str = "Kip";

/// The pet's art, eyes open.
pub const PET_FRAME_OPEN: &'static str =
    " .::::::::..     \n                :::::::::::::   \n               :::::::::::' .\\    \n               `::::::::::_,__o   \n               ";

/// The pet's art, eyes shut.
pub const PET_FRAME_SHUT: &'static str =
    " .::::::::..     \n               :::::::::::::   \n              :::::::::::' \u{2d7}\\   \n              `::::::::::_,__o ";

/// Everything the animation remembers between two frames.
///
/// A pet drifts to the right and ignores the walls, the speeds and the
/// direction flags. A ball bounces between the walls of the playground.
/// The offset is moved by the arrow keys while a ball is shown.
#[derive(Clone, Debug, PartialEq, Eq)]
pub struct App {
    pub entity: Entity,
    pub playground: Playground,
    /// How far the ball moves along `x` in one tick.
    pub vx: i64,
    /// How far the ball moves along `y` in one tick.
    pub vy: i64,
    /// Whether the ball moves towards larger `x`.
    pub dir_x: bool,
    /// Whether the ball moves towards larger `y`.
    pub dir_y: bool,
    /// Where the arrow keys have roamed to, along `x`.
    pub offset_x: i64,
    /// Where the arrow keys have roamed to, along `y`.
    pub offset_y: i64,
}

impl App {
    /// Whether every number of the state lies on the coordinate line.
    pub open spec fn wf(&self) -> bool {
        &&& self.entity.wf()
        &&& in_range(self.vx as int)
        &&& in_range(self.vy as int)
        &&& in_range(self.offset_x as int)
        &&& in_range(self.offset_y as int)
    }

    /// The state in which the ball starts: a yellow ball of 10 by 10
    /// at (10, 30), moving right and down at unit speed in a playground of
    /// 100 by 100 with its corner at (10, 10).
    pub open spec fn ball_start() -> App {
        App {
            entity: Entity::Ball(
                Ball { x: 10, y: 30, width: 10, height: 10, color: Color::Yellow },
            ),
            playground: Playground { x: 10, y: 10, width: 100, height: 100 },
            vx: 1,
            vy: 1,
            dir_x: true,
            dir_y: true,
            offset_x: 0,
            offset_y: 0,
        }
    }

    /// Whether the ball reaches past the left or the right wall.
    pub open spec fn crosses_x(self) -> bool {
        self.entity matches Entity::Ball(ball) && crosses(
            ball.x as int,
            ball.width as int,
            self.playground.left() as int,
            self.playground.right() as int,
        )
    }

    /// Whether the ball reaches past the top or the bottom wall.
    pub open spec fn crosses_y(self) -> bool {
        self.entity matches Entity::Ball(ball) && crosses(
            ball.y as int,
            ball.height as int,
            self.playground.top() as int,
            self.playground.bottom() as int,
        )
    }

    /// The state one tick later.
    ///
    /// A pet moves one unit to the right. A ball first turns round on each
    /// axis on which it reaches past a wall, then moves by its speed in the
    /// direction that its flags then show.
    pub open spec fn after_tick(self) -> App {
        match self.entity {
            Entity::Pet(pet) => App {
                entity: Entity::Pet(Pet { x: shifted(pet.x, 1, true), ..pet }),
                ..self
            },
            Entity::Ball(ball) => {
                let dir_x = reflected(self.dir_x, self.crosses_x());
                let dir_y = reflected(self.dir_y, self.crosses_y());
                App {
                    entity: Entity::Ball(
                        Ball {
                            x: shifted(ball.x, self.vx, dir_x),
                            y: shifted(ball.y, self.vy, dir_y),
                            ..ball
                        },
                    ),
                    dir_x,
                    dir_y,
                    ..self
                }
            },
        }
    }

    /// The state `n` ticks later.
    pub open spec fn after_ticks(self, n: nat) -> App
        decreases n,
    {
        if n == 0 {
            self
        } else {
            self.after_tick().after_ticks((n - 1) as nat)
        }
    }

    /// The state after a key.
    ///
    /// While a ball is shown, the arrow keys move the offset by one: right
    /// and down add, left and up take away. Every other key, and every key
    /// while a pet is shown, changes nothing.
    pub open spec fn after_key(self, key: Key) -> App {
        match self.entity {
            Entity::Pet(_) => self,
            Entity::Ball(_) => match key {
                Key::Right => App { offset_x: shifted(self.offset_x, 1, true), ..self },
                Key::Left => App { offset_x: shifted(self.offset_x, 1, false), ..self },
                Key::Down => App { offset_y: shifted(self.offset_y, 1, true), ..self },
                Key::Up => App { offset_y: shifted(self.offset_y, 1, false), ..self },
                _ => self,
            },
        }
    }

    /// The application with a pet, as it starts: the pet at (100, 500) in a
    /// playground of 100 by 100 with its corner at (10, 10).
    pub fn new() -> (app: App)
        ensures
            app.wf(),
            app.entity matches Entity::Pet(pet) && {
                &&& pet.x == 100
                &&& pet.y == 500
                &&& pet.color == Color::Yellow
                &&& pet.body[0]@ == PET_FRAME_OPEN@
                &&& pet.body[1]@ == PET_FRAME_SHUT@
                &&& pet.name@ == PET_NAME@
            },
            app.playground == (Playground { x: 10, y: 10, width: 100, height: 100 }),
            app.vx == 1,
            app.vy == 1,
            app.dir_x,
            app.dir_y,
            app.offset_x == 0,
            app.offset_y == 0,
    {
        App {
            entity: Entity::Pet(
                Pet {
                    x: 100,
                    y: 500,
                    color: Color::Yellow,
                    body: [String::from_str(PET_FRAME_OPEN), String::from_str(PET_FRAME_SHUT)],
                    name: String::from_str(PET_NAME),
                },
            ),
            playground: Playground::new(10, 10, 100, 100),
            vx: 1,
            vy: 1,
            dir_x: true,
            dir_y: true,
            offset_x: 0,
            offset_y: 0,
        }
    }

    /// The application with a ball, as it starts.
    pub fn with_ball() -> (app: App)
        ensures
            app == Self::ball_start(),
            app.wf(),
    {
        App {
            entity: Entity::Ball(
                Ball { x: 10, y: 30, width: 10, height: 10, color: Color::Yellow },
            ),
            playground: Playground::new(10, 10, 100, 100),
            vx: 1,
            vy: 1,
            dir_x: true,
            dir_y: true,
            offset_x: 0,
            offset_y: 0,
        }
    }

    /// Advances the animation by one tick.
    ///
    /// A wall turns the ball round at most once: the flag of an axis changes
    /// exactly if the ball reached past a wall of that axis when the tick
    /// began.
    pub fn advance(&mut self)
        ensures
            *final(self) == old(self).after_tick(),
            old(self).wf() ==> final(self).wf(),
            final(self).dir_x == reflected(old(self).dir_x, old(self).crosses_x()),
            final(self).dir_y == reflected(old(self).dir_y, old(self).crosses_y()),
    {
        match &mut self.entity {
            Entity::Pet(pet) => {
                pet.x = shift(pet.x, 1, true);
            },
            Entity::Ball(ball) => {
                if crossing(ball.x, ball.width, self.playground.left(), self.playground.right()) {
                    self.dir_x = !self.dir_x;
                }
                if crossing(ball.y, ball.height, self.playground.top(), self.playground.bottom()) {
                    self.dir_y = !self.dir_y;
                }
                ball.x = shift(ball.x, self.vx, self.dir_x);
                ball.y = shift(ball.y, self.vy, self.dir_y);
            },
        }
    }

    /// Advances the animation by `ticks` ticks, one after the other.
    pub fn advance_by(&mut self, ticks: u64)
        ensures
            *final(self) == old(self).after_ticks(ticks as nat),
            old(self).wf() ==> final(self).wf(),
    {
        let mut done: u64 = 0;
        while done < ticks
            invariant
                done <= ticks,
                *self == old(self).after_ticks(done as nat),
                old(self).wf() ==> self.wf(),
            decreases ticks - done,
        {
            proof {
                lemma_one_more_tick(*old(self), done as nat);
            }
            self.advance();
            done = done + 1;
        }
    }

    /// Applies a key to the state.
    pub fn on_key(&mut self, key: Key)
        ensures
            *final(self) == old(self).after_key(key),
            old(self).wf() ==> final(self).wf(),
    {
        match self.entity {
            Entity::Pet(_) => {},
            Entity::Ball(_) => match key {
                Key::Right => {
                    self.offset_x = shift(self.offset_x, 1, true);
                },
                Key::Left => {
                    self.offset_x = shift(self.offset_x, 1, false);
                },
                Key::Down => {
                    self.offset_y = shift(self.offset_y, 1, true);
                },
                Key::Up => {
                    self.offset_y = shift(self.offset_y, 1, false);
                },
                _ => {},
            },
        }
    }
}

/// A tick after `n` ticks is `n + 1` ticks.
pub proof fn lemma_one_more_tick(app: App, n: nat)
    ensures
        app.after_ticks(n + 1) == app.after_ticks(n).after_tick(),
    decreases n,
{
    if n > 0 {
        lemma_one_more_tick(app.after_tick(), (n - 1) as nat);
    } else {
        assert(app.after_tick().after_ticks(0) == app.after_tick());
    }
}

} // verus!
