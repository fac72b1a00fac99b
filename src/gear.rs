use vstd::prelude::*;

verus! {

/// Angular speed is counted in steps of `1 / SPEED_SCALE` half-turns per frame.
///
/// A gear's `rotation` is counted in steps of `1 / (SPEED_SCALE * teeth)`
/// half-turns, so that its angle in radians is
/// `PI * rotation / (SPEED_SCALE * teeth)`. In these units a gear driven at
/// `rotation_speed` advances by `rotation_speed * teeth` per frame, and two
/// meshed gears advance by the same amount: each frame moves the same number
/// of teeth past the contact point on both.
pub const SPEED_SCALE: u64 = 10000;

/// What a click does to a gear's angular speed.
#[derive(Clone, Copy, Debug, PartialEq, Eq, Structural)]
pub enum Boost {
    /// Add `step`, then cap the result at `max`.
    Add { step: u64, max: u64 },
    /// Replace the speed by `speed`.
    Assign { speed: u64 },
}

/// Angular speed after a click.
pub open spec fn boosted(speed: int, b: Boost) -> int {
    match b {
        Boost::Add { step, max } => if speed + step > max {
            max as int
        } else {
            speed + step
        },
        Boost::Assign { speed: s } => s as int,
    }
}

/// Angular speed after one frame of flat friction: never below zero.
pub open spec fn after_friction(speed: int, friction: int) -> int {
    if speed > friction {
        speed - friction
    } else {
        0
    }
}

/// An accumulated angle that would pass the largest `u128` stays there.
pub open spec fn saturate(x: int) -> int {
    if x > u128::MAX {
        u128::MAX as int
    } else {
        x
    }
}

/// A rotating textured entity. `(x, y)` is where the texture's center is
/// drawn; `width` and `height` are the texture's size.
#[derive(Clone, Copy, Debug, PartialEq, Eq, Structural)]
pub struct Gear {
    pub x: i64,
    pub y: i64,
    pub width: i64,
    pub height: i64,
    pub rotation: u128,
    pub rotation_speed: u64,
    pub friction: u64,
    pub teeth: u32,
}

impl Gear {
    pub open spec fn wf(self) -> bool {
        self.width >= 0 && self.height >= 0 && self.teeth > 0
    }

    /// The gear with its angle advanced by `amount` steps.
    pub open spec fn turned(self, amount: int) -> Gear {
        Gear { rotation: saturate(self.rotation + amount) as u128, ..self }
    }

    /// What one frame spent spinning on its own does to the gear: the angle
    /// advances by the current speed, then friction slows the gear.
    pub open spec fn spun(self) -> Gear {
        let t = self.turned(self.rotation_speed * self.teeth);
        Gear { rotation_speed: after_friction(t.rotation_speed as int, t.friction as int) as u64, ..t }
    }

    /// The point lies within the texture's axis-aligned bounds, which are
    /// centered on `(x, y)`. Coordinates are doubled to keep half pixels exact.
    pub open spec fn contains_spec(self, px: int, py: int) -> bool {
        &&& 2 * self.x - self.width <= 2 * px
        &&& 2 * px < 2 * self.x + self.width
        &&& 2 * self.y - self.height <= 2 * py
        &&& 2 * py < 2 * self.y + self.height
    }

    pub open spec fn new_spec(x: int, y: int, width: i64, height: i64, teeth: u32, friction: u64) -> Gear {
        Gear { x: x as i64, y: y as i64, width, height, rotation: 0, rotation_speed: 0, friction, teeth }
    }

    pub fn new(x: i64, y: i64, width: i64, height: i64, rotation: u128, teeth: u32, friction: u64) -> (g: Gear)
        requires
            width >= 0,
            height >= 0,
            teeth > 0,
        ensures
            g.wf(),
            g == (Gear { x, y, width, height, rotation, rotation_speed: 0, friction, teeth }),
    {
        Gear { x, y, width, height, rotation, rotation_speed: 0, friction, teeth }
    }

    pub fn contains_point(&self, px: i64, py: i64) -> (r: bool)
        ensures
            r == self.contains_spec(px as int, py as int),
    {
        let x2 = 2 * (self.x as i128);
        let y2 = 2 * (self.y as i128);
        let w = self.width as i128;
        let h = self.height as i128;
        let px2 = 2 * (px as i128);
        let py2 = 2 * (py as i128);
        x2 - w <= px2 && px2 < x2 + w && y2 - h <= py2 && py2 < y2 + h
    }

    /// Applies a click to the angular speed.
    pub fn boost(&mut self, b: Boost)
        ensures
            *final(self) == (Gear { rotation_speed: boosted(old(self).rotation_speed as int, b) as u64, ..*old(self) }),
    {
        match b {
            Boost::Add { step, max } => {
                let s = self.rotation_speed.saturating_add(step);
                self.rotation_speed = if s > max { max } else { s };
            },
            Boost::Assign { speed } => {
                self.rotation_speed = speed;
            },
        }
    }

    /// Advances the angle by `amount` steps.
    pub fn turn(&mut self, amount: u128)
        ensures
            *final(self) == old(self).turned(amount as int),
    {
        self.rotation = self.rotation.saturating_add(amount);
    }

    /// Subtracts one frame of friction from the angular speed, stopping at zero.
    pub fn apply_friction(&mut self)
        ensures
            *final(self) == (Gear {
                rotation_speed: after_friction(old(self).rotation_speed as int, old(self).friction as int) as u64,
                ..*old(self)
            }),
    {
        self.rotation_speed = self.rotation_speed.saturating_sub(self.friction);
    }

    /// How far the gear turns in one frame at its current speed.
    pub fn step_amount(&self) -> (r: u128)
        ensures
            r == self.rotation_speed * self.teeth,
    {
        let s = self.rotation_speed as u128;
        let t = self.teeth as u128;
        proof {
            assert(s * t <= u64::MAX * u32::MAX) by (nonlinear_arith)
                requires
                    s <= u64::MAX,
                    t <= u32::MAX,
            ;
        }
        s * t
    }

    /// One frame of a gear spinning on its own.
    pub fn spin(&mut self)
        ensures
            *final(self) == old(self).spun(),
            final(self).rotation >= old(self).rotation,
    {
        let amount = self.step_amount();
        self.turn(amount);
        self.apply_friction();
    }

    /// The angle in full turns, as a numerator and a positive denominator.
    pub fn turns(&self) -> (r: (u128, u128))
        requires
            self.wf(),
        ensures
            r.0 == self.rotation,
            r.1 == 2 * SPEED_SCALE * self.teeth,
            r.1 > 0,
    {
        (self.rotation, 2 * (SPEED_SCALE as u128) * (self.teeth as u128))
    }
}

/// The angular speed after `n` frames of friction alone.
pub open spec fn decayed(speed: int, friction: int, n: nat) -> int
    decreases n,
{
    if n == 0 {
        speed
    } else {
        after_friction(decayed(speed, friction, (n - 1) as nat), friction)
    }
}

/// `speed / friction` rounded up: how many frames friction needs to stop a
/// gear.
pub open spec fn frames_to_rest(speed: int, friction: int) -> int {
    (speed + friction - 1) / friction
}

/// A gear after `n` frames spinning on its own.
pub open spec fn spun_frames(g: Gear, n: nat) -> Gear
    decreases n,
{
    if n == 0 {
        g
    } else {
        spun_frames(g, (n - 1) as nat).spun()
    }
}

proof fn lemma_decayed_closed_form(s: int, f: int, n: nat)
    requires
        f > 0,
        s >= 0,
    ensures
        decayed(s, f, n) == if s - n * f > 0 {
            s - n * f
        } else {
            0
        },
    decreases n,
{
    if n > 0 {
        let m = (n - 1) as nat;
        lemma_decayed_closed_form(s, f, m);
        assert(m * f + f == n * f) by (nonlinear_arith)
            requires
                m + 1 == n,
        ;
        let prev = decayed(s, f, m);
        assert(decayed(s, f, n) == after_friction(prev, f));
    } else {
        assert(n * f == 0) by (nonlinear_arith)
            requires
                n == 0,
        ;
    }
}

/// Flat friction stops any gear: starting from speed `s` with friction
/// `f > 0`, the speed never goes below zero, stays positive for fewer than
/// `ceil(s / f)` frames, and is zero from then on.
pub proof fn lemma_friction_stops(s: int, f: int)
    requires
        f > 0,
        s >= 0,
    ensures
        frames_to_rest(s, f) >= 0,
        forall|n: nat| decayed(s, f, n) >= 0,
        forall|n: nat| n < frames_to_rest(s, f) ==> decayed(s, f, n) > 0,
        forall|n: nat| n >= frames_to_rest(s, f) ==> decayed(s, f, n) == 0,
{
    let c = frames_to_rest(s, f);
    let r = (s + f - 1) % f;
    assert(s + f - 1 == c * f + r && 0 <= r < f) by {
        vstd::arithmetic::div_mod::lemma_fundamental_div_mod(s + f - 1, f);
    }
    assert(c >= 0) by (nonlinear_arith)
        requires
            s + f - 1 == c * f + r,
            0 <= r < f,
            s >= 0,
    ;
    assert forall|n: nat| decayed(s, f, n) >= 0 by {
        lemma_decayed_closed_form(s, f, n);
    }
    assert forall|n: nat| n < c implies decayed(s, f, n) > 0 by {
        lemma_decayed_closed_form(s, f, n);
        assert(s - n * f > 0) by (nonlinear_arith)
            requires
                s + f - 1 == c * f + r,
                0 <= r < f,
                n < c,
                f > 0,
        ;
    }
    assert forall|n: nat| n >= c implies decayed(s, f, n) == 0 by {
        lemma_decayed_closed_form(s, f, n);
        assert(s - n * f <= 0) by (nonlinear_arith)
            requires
                s + f - 1 == c * f + r,
                0 <= r < f,
                n >= c,
                f > 0,
        ;
    }
}

/// A gear's angle never decreases from one frame to any later one.
pub proof fn lemma_rotation_never_decreases(g: Gear, m: nat, n: nat)
    requires
        m <= n,
    ensures
        spun_frames(g, m).rotation <= spun_frames(g, n).rotation,
    decreases n - m,
{
    if m < n {
        lemma_rotation_never_decreases(g, m, (n - 1) as nat);
    }
}

} // verus!
