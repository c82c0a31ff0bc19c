//! What holds of the animation over any number of ticks.

use vstd::prelude::*;
use vstd::arithmetic::div_mod::{
    lemma_fundamental_div_mod, lemma_fundamental_div_mod_converse_mod,
};
use crate::entity::{Ball, Entity, Pet};
use crate::motion::{crosses, in_range, reflected, shifted, COORD_MAX};
use crate::state::App;

verus! {

/// The height of step `r` of a run that climbs from 0 to `span` in `span`
/// steps and falls back to 0 in as many.
pub open spec fn folded(r: int, span: int) -> int {
    if r <= span {
        r
    } else {
        2 * span - r
    }
}

/// A triangle wave: the run up to `span` and back, over and over.
pub open spec fn wave(t: nat, span: int) -> int {
    folded((t as int) % (2 * span), span)
}

/// Whether step `t` of the wave was a climb.
pub open spec fn rising(t: nat, span: int) -> bool {
    1 <= (t as int) % (2 * span) <= span
}

impl App {
    /// A ball that fits between the walls and does not move backwards, with
    /// room on the coordinate line for one move past each wall.
    pub open spec fn bounces(self) -> bool {
        &&& self.entity matches Entity::Ball(ball)
        &&& 0 <= self.vx
        &&& 0 <= self.vy
        &&& self.playground.left() + ball.width <= self.playground.right()
        &&& self.playground.top() + ball.height <= self.playground.bottom()
        &&& in_range(self.playground.right() - ball.width + self.vx)
        &&& in_range(self.playground.bottom() - ball.height + self.vy)
    }

    /// Whether the ball is inside the playground, or one move outside it and
    /// about to turn back.
    pub open spec fn in_reach(self) -> bool {
        &&& self.entity matches Entity::Ball(ball)
        &&& self.playground.left() - self.vx <= ball.x <= self.playground.right() - ball.width
            + self.vx
        &&& self.playground.top() - self.vy <= ball.y <= self.playground.bottom() - ball.height
            + self.vy
        &&& ball.x < self.playground.left() ==> !self.dir_x
        &&& ball.x + ball.width > self.playground.right() ==> self.dir_x
        &&& ball.y < self.playground.top() ==> !self.dir_y
        &&& ball.y + ball.height > self.playground.bottom() ==> self.dir_y
    }

    /// A ball at unit speed that fits between the walls.
    pub open spec fn unit_bounce(self) -> bool {
        &&& self.entity matches Entity::Ball(ball)
        &&& self.vx == 1
        &&& self.vy == 1
        &&& 0 <= ball.width
        &&& 0 <= ball.height
        &&& self.playground.left() + ball.width <= self.playground.right()
        &&& self.playground.top() + ball.height <= self.playground.bottom()
    }

    /// The number of moves of a unit bounce from the far left to the far
    /// right: the free room between the walls, and one move past each.
    pub open spec fn span_x(self) -> int {
        match self.entity {
            Entity::Ball(ball) => self.playground.right() - ball.width - self.playground.left()
                + 2,
            Entity::Pet(_) => 0,
        }
    }

    /// The same from the top to the bottom.
    pub open spec fn span_y(self) -> int {
        match self.entity {
            Entity::Ball(ball) => self.playground.bottom() - ball.height - self.playground.top()
                + 2,
            Entity::Pet(_) => 0,
        }
    }

    /// The state of a unit bounce at step `tx` of its horizontal wave and
    /// step `ty` of its vertical wave. Step 0 is the turn one move outside
    /// the left, or the top, wall.
    pub open spec fn on_wave(self, tx: nat, ty: nat) -> App {
        match self.entity {
            Entity::Ball(ball) => App {
                entity: Entity::Ball(
                    Ball {
                        x: (self.playground.left() - 1 + wave(tx, self.span_x())) as i64,
                        y: (self.playground.top() - 1 + wave(ty, self.span_y())) as i64,
                        ..ball
                    },
                ),
                dir_x: rising(tx, self.span_x()),
                dir_y: rising(ty, self.span_y()),
                ..self
            },
            Entity::Pet(_) => self,
        }
    }
}

/// The step after `t` on a cycle of length `m`.
proof fn lemma_next_on_cycle(t: int, m: int)
    requires
        0 < m,
    ensures
        (t + 1) % m == if t % m + 1 == m {
            0
        } else {
            t % m + 1
        },
        0 <= t % m < m,
{
    let q = t / m;
    let r = t % m;
    lemma_fundamental_div_mod(t, m);
    assert(0 <= r < m) by (nonlinear_arith)
        requires
            r == t % m,
            0 < m,
    ;
    assert(t == q * m + r) by (nonlinear_arith)
        requires
            t == m * q + r,
    ;
    if r + 1 == m {
        assert(t + 1 == (q + 1) * m + 0) by (nonlinear_arith)
            requires
                t == q * m + r,
                r + 1 == m,
        ;
        lemma_fundamental_div_mod_converse_mod(t + 1, m, q + 1, 0);
    } else {
        lemma_fundamental_div_mod_converse_mod(t + 1, m, q, r + 1);
    }
}

/// One tick of a unit bounce along one axis takes the wave one step on.
proof fn lemma_wave_step(pos: i64, forward: bool, extent: int, low: int, high: int, t: nat)
    requires
        0 <= low <= u16::MAX,
        0 <= high <= u16::MAX,
        0 <= extent,
        low + extent <= high,
        pos == low - 1 + wave(t, high - extent - low + 2),
        forward == rising(t, high - extent - low + 2),
    ensures
        reflected(forward, crosses(pos as int, extent, low, high)) == rising(
            t + 1,
            high - extent - low + 2,
        ),
        shifted(pos, 1, reflected(forward, crosses(pos as int, extent, low, high))) == low - 1
            + wave(t + 1, high - extent - low + 2),
{
    let span = high - extent - low + 2;
    lemma_next_on_cycle(t as int, 2 * span);
}

/// The walls turn the ball round at most once a tick: after a tick the flag
/// of an axis differs from the flag before it exactly if the ball reached
/// past a wall of that axis when the tick began.
pub proof fn reflection_law(app: App)
    ensures
        app.after_tick().dir_x != app.dir_x <==> app.crosses_x(),
        app.after_tick().dir_y != app.dir_y <==> app.crosses_y(),
{
}

/// Ticks keep every number of the state on the coordinate line.
pub proof fn ticks_keep_wf(app: App, n: nat)
    requires
        app.wf(),
    ensures
        app.after_ticks(n).wf(),
    decreases n,
{
    if n > 0 {
        ticks_keep_wf(app.after_tick(), (n - 1) as nat);
    }
}

/// A pet drifts to the right and never turns: after `n` ticks it stands `n`
/// units further right, or at the end of the coordinate line if that is
/// nearer, and nothing else has changed.
pub proof fn pet_drifts_right(app: App, n: nat)
    requires
        app.wf(),
        app.entity is Pet,
    ensures
        app.entity matches Entity::Pet(pet) && app.after_ticks(n) == (App {
            entity: Entity::Pet(
                Pet {
                    x: (if pet.x + n <= COORD_MAX {
                        pet.x + n
                    } else {
                        COORD_MAX as int
                    }) as i64,
                    ..pet
                },
            ),
            ..app
        }),
    decreases n,
{
    if n > 0 {
        pet_drifts_right(app.after_tick(), (n - 1) as nat);
    }
}

/// A ball within reach of the playground stays within reach: it is inside
/// the walls, or one move outside and turned back by the next tick.
pub proof fn reach_is_kept(app: App, n: nat)
    requires
        app.bounces(),
        app.in_reach(),
    ensures
        app.after_ticks(n).bounces(),
        app.after_ticks(n).in_reach(),
    decreases n,
{
    if n > 0 {
        reach_is_kept(app.after_tick(), (n - 1) as nat);
    }
}

/// A unit bounce is a triangle wave on each axis: `n` ticks take the ball
/// `n` steps along both waves and change nothing else.
pub proof fn unit_bounce_is_wave(app: App, tx: nat, ty: nat, n: nat)
    requires
        app.unit_bounce(),
        app == app.on_wave(tx, ty),
    ensures
        app.after_ticks(n) == app.on_wave(tx + n, ty + n),
    decreases n,
{
    if n > 0 {
        let ball = app.entity->Ball_0;
        lemma_wave_step(
            ball.x,
            app.dir_x,
            ball.width as int,
            app.playground.left() as int,
            app.playground.right() as int,
            tx,
        );
        lemma_wave_step(
            ball.y,
            app.dir_y,
            ball.height as int,
            app.playground.top() as int,
            app.playground.bottom() as int,
            ty,
        );
        let next = app.after_tick();
        assert(next == app.on_wave(tx + 1, ty + 1));
        assert(next.on_wave(tx + 1, ty + 1) == next);
        unit_bounce_is_wave(next, tx + 1, ty + 1, (n - 1) as nat);
        assert(next.on_wave((tx + 1 + (n - 1)) as nat, (ty + 1 + (n - 1)) as nat) == app.on_wave(
            tx + n,
            ty + n,
        ));
    }
}

/// From its starting state the ball comes back to where it was every 184
/// ticks. On each axis it runs between 9 and 101: after `n` ticks it is at
/// step `(n + 1) % 184` of that run horizontally and at step
/// `(n + 21) % 184` vertically, where the first 92 steps lead away from 9
/// and the rest lead back.
pub proof fn ball_trajectory(n: nat)
    ensures
        App::ball_start().after_ticks(n) == (App {
            entity: Entity::Ball(
                Ball {
                    x: (9 + folded((n + 1) as int % 184, 92)) as i64,
                    y: (9 + folded((n + 21) as int % 184, 92)) as i64,
                    ..App::ball_start().entity->Ball_0
                },
            ),
            dir_x: 1 <= (n + 1) % 184 <= 92,
            dir_y: 1 <= (n + 21) % 184 <= 92,
            ..App::ball_start()
        }),
{
    let start = App::ball_start();
    assert(start.span_x() == 92 && start.span_y() == 92);
    assert(1int % 184 == 1 && 21int % 184 == 21);
    assert(wave(1, 92) == 1 && wave(21, 92) == 21);
    assert(rising(1, 92) && rising(21, 92));
    assert(start == start.on_wave(1, 21));
    unit_bounce_is_wave(start, 1, 21, n);
    assert(wave(n + 1, 92) == folded((n + 1) as int % 184, 92));
    assert(wave(n + 21, 92) == folded((n + 21) as int % 184, 92));
}

} // verus!
