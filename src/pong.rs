use vstd::prelude::*;
use crate::geometry::Rect;

verus! {

/// The largest size, paddle speed, spin or acceleration a game accepts.
pub const SIZE_LIMIT: i64 = 1000000000;

/// `x` held within the range of `i64`.
pub open spec fn clamp64(x: int) -> int {
    if x > i64::MAX {
        i64::MAX as int
    } else if x < i64::MIN {
        i64::MIN as int
    } else {
        x
    }
}

pub open spec fn sign(x: int) -> int {
    if x > 0 {
        1
    } else if x < 0 {
        -1
    } else {
        0
    }
}

/// `n / d` for `d > 0`, rounded toward zero.
pub open spec fn div_toward_zero(n: int, d: int) -> int {
    if n >= 0 {
        n / d
    } else {
        -((-n) / d)
    }
}

fn clamp_i64(x: i128) -> (r: i64)
    ensures
        r == clamp64(x as int),
{
    if x > i64::MAX as i128 {
        i64::MAX
    } else if x < i64::MIN as i128 {
        i64::MIN
    } else {
        x as i64
    }
}

/// A moving box: `(x, y)` is its top-left corner, `(vx, vy)` how far it
/// moves in one frame.
#[derive(Clone, Copy, Debug, PartialEq, Eq, Structural)]
pub struct Body {
    pub x: i64,
    pub y: i64,
    pub width: i64,
    pub height: i64,
    pub vx: i64,
    pub vy: i64,
}

/// The keys held for one paddle during a frame.
#[derive(Clone, Copy, Debug, PartialEq, Eq, Structural)]
pub struct Keys {
    pub up: bool,
    pub down: bool,
}

/// Constants of one game.
#[derive(Clone, Copy, Debug, PartialEq, Eq, Structural)]
pub struct PongConfig {
    pub window_width: i64,
    pub window_height: i64,
    pub paddle_speed: i64,
    pub spin: i64,
    pub acceleration: i64,
}

impl PongConfig {
    pub open spec fn wf(self) -> bool {
        &&& 0 <= self.paddle_speed <= SIZE_LIMIT
        &&& 0 <= self.spin <= SIZE_LIMIT
        &&& 0 <= self.acceleration <= SIZE_LIMIT
    }
}

impl Body {
    pub open spec fn wf(self) -> bool {
        0 <= self.width <= SIZE_LIMIT && 0 <= self.height <= SIZE_LIMIT
    }

    pub open spec fn bounds_spec(self) -> Rect {
        Rect { x: self.x, y: self.y, width: self.width, height: self.height }
    }

    /// Twice the vertical coordinate of the center.
    pub open spec fn center_y2(self) -> int {
        2 * self.y + self.height
    }

    /// A paddle after one frame of key input.
    pub open spec fn steered(self, keys: Keys, speed: int) -> Body {
        let y1 = if keys.up {
            clamp64(self.y - speed)
        } else {
            self.y as int
        };
        let y2 = if keys.down {
            clamp64(y1 + speed)
        } else {
            y1
        };
        Body { y: y2 as i64, ..self }
    }

    /// The body after one frame of motion.
    pub open spec fn moved_spec(self) -> Body {
        Body { x: clamp64(self.x + self.vx) as i64, y: clamp64(self.y + self.vy) as i64, ..self }
    }

    /// The ball sent back by `paddle`: the horizontal velocity is reversed
    /// and grows by `acceleration` in its new direction, and the vertical
    /// velocity gains `spin` times the ball's offset from the paddle's
    /// center, in paddle heights.
    pub open spec fn returned_spec(self, paddle: Body, c: PongConfig) -> Body {
        let nvx = -self.vx;
        Body {
            vx: clamp64(nvx + c.acceleration * sign(nvx)) as i64,
            vy: clamp64(
                self.vy + div_toward_zero(c.spin * (self.center_y2() - paddle.center_y2()), 2 * paddle.height),
            ) as i64,
            ..self
        }
    }

    /// The ball after the paddle test: the first paddle it touches, the
    /// first one before the second, sends it back.
    pub open spec fn after_paddles(self, p1: Body, p2: Body, c: PongConfig) -> Body {
        if self.bounds_spec().intersects_spec(p1.bounds_spec()) {
            self.returned_spec(p1, c)
        } else if self.bounds_spec().intersects_spec(p2.bounds_spec()) {
            self.returned_spec(p2, c)
        } else {
            self
        }
    }

    /// The ball touches or passes the top or the bottom edge.
    pub open spec fn at_wall(self, c: PongConfig) -> bool {
        self.y <= 0 || self.y + self.height >= c.window_height
    }

    /// The ball after the wall test.
    pub open spec fn after_walls(self, c: PongConfig) -> Body {
        if self.at_wall(c) {
            Body { vy: clamp64(-self.vy) as i64, ..self }
        } else {
            self
        }
    }

    pub fn new(x: i64, y: i64, width: i64, height: i64) -> (b: Body)
        requires
            0 <= width <= SIZE_LIMIT,
            0 <= height <= SIZE_LIMIT,
        ensures
            b.wf(),
            b == (Body { x, y, width, height, vx: 0, vy: 0 }),
    {
        Body { x, y, width, height, vx: 0, vy: 0 }
    }

    pub fn bounds(&self) -> (r: Rect)
        ensures
            r == self.bounds_spec(),
    {
        Rect::new(self.x, self.y, self.width, self.height)
    }

    /// Moves a paddle up and/or down by `speed`.
    pub fn steer(&mut self, keys: Keys, speed: i64)
        requires
            0 <= speed <= SIZE_LIMIT,
        ensures
            *final(self) == old(self).steered(keys, speed as int),
    {
        if keys.up {
            self.y = clamp_i64(self.y as i128 - speed as i128);
        }
        if keys.down {
            self.y = clamp_i64(self.y as i128 + speed as i128);
        }
    }

    /// Adds the velocity to the position.
    pub fn moved(&self) -> (b: Body)
        ensures
            b == self.moved_spec(),
    {
        Body {
            x: clamp_i64(self.x as i128 + self.vx as i128),
            y: clamp_i64(self.y as i128 + self.vy as i128),
            ..*self
        }
    }

    /// The ball after `paddle` sends it back.
    pub fn returned(&self, paddle: &Body, c: &PongConfig) -> (b: Body)
        requires
            self.wf(),
            paddle.wf(),
            paddle.height > 0,
            c.wf(),
        ensures
            b == self.returned_spec(*paddle, *c),
    {
        let nvx = -(self.vx as i128);
        let acc = c.acceleration as i128;
        let vx = if nvx > 0 {
            clamp_i64(nvx + acc)
        } else if nvx < 0 {
            clamp_i64(nvx - acc)
        } else {
            clamp_i64(nvx)
        };
        let offset2 = (2 * (self.y as i128) + self.height as i128) - (2 * (paddle.y as i128)
            + paddle.height as i128);
        let spin = c.spin as i128;
        proof {
            assert(-0x10_0000_0000_0000_0000 <= offset2 <= 0x10_0000_0000_0000_0000);
            assert(-0x1000_0000_0000_0000_0000_0000_0000 <= spin * offset2
                <= 0x1000_0000_0000_0000_0000_0000_0000) by (nonlinear_arith)
                requires
                    -0x10_0000_0000_0000_0000 <= offset2 <= 0x10_0000_0000_0000_0000,
                    0 <= spin <= SIZE_LIMIT,
            ;
        }
        let num = spin * offset2;
        let den = 2 * (paddle.height as i128);
        let turn = if num >= 0 {
            num / den
        } else {
            -((-num) / den)
        };
        proof {
            if num >= 0 {
                assert(0 <= num / den <= num) by (nonlinear_arith)
                    requires
                        num >= 0,
                        den >= 2,
                ;
            } else {
                assert(0 <= (-num) / (den as int) <= -num) by (nonlinear_arith)
                    requires
                        num < 0,
                        den >= 2,
                ;
            }
        }
        let vy = clamp_i64(self.vy as i128 + turn);
        Body { vx, vy, ..*self }
    }
}

/// Which player has won.
#[derive(Clone, Copy, Debug, PartialEq, Eq, Structural)]
pub enum Winner {
    PlayerOne,
    PlayerTwo,
}

/// The player who wins when the ball is where it is: player two once it has
/// left on the left, player one once it has left on the right.
pub open spec fn winner_of(ball: Body, c: PongConfig) -> Option<Winner> {
    if ball.x < 0 {
        Some(Winner::PlayerTwo)
    } else if ball.x > c.window_width {
        Some(Winner::PlayerOne)
    } else {
        None
    }
}

/// Two paddles under key control and a ball between them.
#[derive(Clone, Copy, Debug, PartialEq, Eq, Structural)]
pub struct Pong {
    pub paddle1: Body,
    pub paddle2: Body,
    pub ball: Body,
    pub config: PongConfig,
    pub over: bool,
}

impl Pong {
    pub open spec fn wf(self) -> bool {
        &&& self.paddle1.wf()
        &&& self.paddle2.wf()
        &&& self.ball.wf()
        &&& self.paddle1.height > 0
        &&& self.paddle2.height > 0
        &&& self.config.wf()
    }

    /// The ball as one frame leaves it, before the winner test.
    pub open spec fn next_ball(self, k1: Keys, k2: Keys) -> Body {
        let speed = self.config.paddle_speed as int;
        self.ball.moved_spec().after_paddles(
            self.paddle1.steered(k1, speed),
            self.paddle2.steered(k2, speed),
            self.config,
        ).after_walls(self.config)
    }

    /// The game after one frame. A game that is over stays as it is.
    pub open spec fn stepped(self, k1: Keys, k2: Keys) -> Pong {
        if self.over {
            self
        } else {
            let speed = self.config.paddle_speed as int;
            let ball = self.next_ball(k1, k2);
            Pong {
                paddle1: self.paddle1.steered(k1, speed),
                paddle2: self.paddle2.steered(k2, speed),
                ball,
                over: winner_of(ball, self.config) is Some,
                ..self
            }
        }
    }

    /// The win that one frame signals: only the frame that ends the game
    /// signals one.
    pub open spec fn outcome(self, k1: Keys, k2: Keys) -> Option<Winner> {
        if self.over {
            None
        } else {
            winner_of(self.next_ball(k1, k2), self.config)
        }
    }

    pub fn new(paddle1: Body, paddle2: Body, ball: Body, config: PongConfig) -> (p: Pong)
        requires
            paddle1.wf(),
            paddle2.wf(),
            ball.wf(),
            paddle1.height > 0,
            paddle2.height > 0,
            config.wf(),
        ensures
            p.wf(),
            p == (Pong { paddle1, paddle2, ball, config, over: false }),
    {
        Pong { paddle1, paddle2, ball, config, over: false }
    }

    /// One frame: the paddles move, the ball moves, a touched paddle sends
    /// it back, the top and bottom edges bounce it, and a ball past the left
    /// or right edge ends the game.
    pub fn update(&mut self, k1: Keys, k2: Keys) -> (w: Option<Winner>)
        requires
            old(self).wf(),
        ensures
            final(self).wf(),
            *final(self) == old(self).stepped(k1, k2),
            w == old(self).outcome(k1, k2),
    {
        if self.over {
            return None;
        }
        let speed = self.config.paddle_speed;
        self.paddle1.steer(k1, speed);
        self.paddle2.steer(k2, speed);
        let mut ball = self.ball.moved();
        if ball.bounds().intersects(&self.paddle1.bounds()) {
            ball = ball.returned(&self.paddle1, &self.config);
        } else if ball.bounds().intersects(&self.paddle2.bounds()) {
            ball = ball.returned(&self.paddle2, &self.config);
        }
        let bottom = ball.y as i128 + ball.height as i128;
        if ball.y <= 0 || bottom >= self.config.window_height as i128 {
            ball.vy = clamp_i64(-(ball.vy as i128));
        }
        self.ball = ball;
        let w = if ball.x < 0 {
            Some(Winner::PlayerTwo)
        } else if ball.x > self.config.window_width {
            Some(Winner::PlayerOne)
        } else {
            None
        };
        if w.is_some() {
            self.over = true;
        }
        w
    }
}

/// A ball moving right that, after its move, touches paddle two but not
/// paddle one, and no wall, comes back moving left and faster by
/// `acceleration`: `vx' == -vx - acceleration`. Its vertical velocity becomes
/// `vy + spin * -offset`, where `offset` is the paddle's center minus the
/// ball's center, vertically, in paddle heights, rounded toward zero: a
/// ball below the paddle's center is pushed down, one above it up, one at
/// it not at all. Holds while the velocities stay within `i64`.
pub proof fn lemma_paddle_two_return(p: Pong, k1: Keys, k2: Keys)
    requires
        p.wf(),
        !p.over,
        p.ball.vx > 0,
        p.ball.vx + p.config.acceleration <= i64::MAX,
        ({
            let ball = p.ball.moved_spec();
            let q1 = p.paddle1.steered(k1, p.config.paddle_speed as int);
            let q2 = p.paddle2.steered(k2, p.config.paddle_speed as int);
            let turn = div_toward_zero(p.config.spin * (ball.center_y2() - q2.center_y2()), 2 * q2.height);
            &&& !ball.bounds_spec().intersects_spec(q1.bounds_spec())
            &&& ball.bounds_spec().intersects_spec(q2.bounds_spec())
            &&& !ball.at_wall(p.config)
            &&& i64::MIN <= p.ball.vy + turn <= i64::MAX
        }),
    ensures
        ({
            let ball = p.ball.moved_spec();
            let q2 = p.paddle2.steered(k2, p.config.paddle_speed as int);
            let after = p.stepped(k1, k2).ball;
            &&& after.vx == -p.ball.vx - p.config.acceleration
            &&& after.vy == p.ball.vy + div_toward_zero(
                p.config.spin * (ball.center_y2() - q2.center_y2()),
                2 * q2.height,
            )
            &&& ball.center_y2() > q2.center_y2() ==> after.vy >= p.ball.vy
            &&& ball.center_y2() < q2.center_y2() ==> after.vy <= p.ball.vy
            &&& ball.center_y2() == q2.center_y2() ==> after.vy == p.ball.vy
        }),
{
    let ball = p.ball.moved_spec();
    let q2 = p.paddle2.steered(k2, p.config.paddle_speed as int);
    let num = p.config.spin * (ball.center_y2() - q2.center_y2());
    let den = 2 * q2.height;
    assert(den > 0);
    if ball.center_y2() > q2.center_y2() {
        assert(num >= 0) by (nonlinear_arith)
            requires
                num == p.config.spin * (ball.center_y2() - q2.center_y2()),
                p.config.spin >= 0,
                ball.center_y2() > q2.center_y2(),
        ;
        assert(num / den >= 0) by (nonlinear_arith)
            requires
                num >= 0,
                den > 0,
        ;
    } else if ball.center_y2() < q2.center_y2() {
        assert(num <= 0) by (nonlinear_arith)
            requires
                num == p.config.spin * (ball.center_y2() - q2.center_y2()),
                p.config.spin >= 0,
                ball.center_y2() < q2.center_y2(),
        ;
        assert((-num) / den >= 0) by (nonlinear_arith)
            requires
                num <= 0,
                den > 0,
        ;
    } else {
        assert(num == 0) by (nonlinear_arith)
            requires
                num == p.config.spin * (ball.center_y2() - q2.center_y2()),
                ball.center_y2() == q2.center_y2(),
        ;
    }
}

} // verus!
