use vstd::prelude::*;
use crate::gear::{Boost, Gear, SPEED_SCALE, boosted};

verus! {

/// `n / d` rounded to the nearest integer, halves rounding up.
pub open spec fn rounded_div(n: int, d: int) -> int {
    if 2 * (n % d) >= d {
        n / d + 1
    } else {
        n / d
    }
}

/// Half of `v`, rounded toward negative infinity.
fn half_down(v: i64) -> (r: i64)
    ensures
        r == v as int / 2,
{
    if v >= 0 {
        v / 2
    } else {
        let r = -((-(v as i128) + 1) / 2);
        r as i64
    }
}

/// Which gears lie under the pointer.
#[derive(Clone, Copy, Debug, PartialEq, Eq, Structural)]
pub struct Hover {
    pub driver: bool,
    pub driven: bool,
}

/// Two meshed gears: clicks speed up the driver, and the driven gear turns
/// with it through the ratio of their tooth counts. Only the driver has a
/// speed and friction of its own.
#[derive(Clone, Copy, Debug, PartialEq, Eq, Structural)]
pub struct MeshedGears {
    pub driver: Gear,
    pub driven: Gear,
    pub boost: Boost,
}

impl MeshedGears {
    pub open spec fn wf(self) -> bool {
        self.driver.wf() && self.driven.wf()
    }

    /// How far both gears turn in the next frame, in each gear's own steps.
    pub open spec fn mesh_amount(self) -> int {
        self.driver.rotation_speed * self.driver.teeth
    }

    /// The state after one frame's turning.
    pub open spec fn advanced(self) -> MeshedGears {
        MeshedGears {
            driver: self.driver.spun(),
            driven: self.driven.turned(self.mesh_amount()),
            ..self
        }
    }

    /// The state after a click, pressed or not, at `(px, py)`.
    pub open spec fn clicked(self, pressed: bool, px: int, py: int) -> MeshedGears {
        if pressed && self.driver.contains_spec(px, py) {
            MeshedGears {
                driver: Gear {
                    rotation_speed: boosted(self.driver.rotation_speed as int, self.boost) as u64,
                    ..self.driver
                },
                ..self
            }
        } else {
            self
        }
    }

    pub fn new(driver: Gear, driven: Gear, boost: Boost) -> (m: MeshedGears)
        requires
            driver.wf(),
            driven.wf(),
        ensures
            m.wf(),
            m == (MeshedGears { driver, driven, boost }),
    {
        MeshedGears { driver, driven, boost }
    }

    /// Two gears side by side, `spacing` apart, centered as a pair in the
    /// window; both use a texture of size `tex_width` by `tex_height`.
    pub fn centered(
        window_width: i64,
        window_height: i64,
        tex_width: i64,
        tex_height: i64,
        spacing: i64,
        driver_teeth: u32,
        driven_teeth: u32,
        friction: u64,
        boost: Boost,
    ) -> (m: MeshedGears)
        requires
            0 <= window_width <= u32::MAX,
            0 <= window_height <= u32::MAX,
            0 <= tex_width <= u32::MAX,
            0 <= tex_height <= u32::MAX,
            0 <= spacing <= u32::MAX,
            driver_teeth > 0,
            driven_teeth > 0,
        ensures
            m.wf(),
            m.boost == boost,
            m.driver == Gear::new_spec(
                (window_width - tex_width) / 2 - spacing / 2,
                (window_height - tex_height) / 2,
                tex_width,
                tex_height,
                driver_teeth,
                friction,
            ),
            m.driven == Gear::new_spec(
                (window_width - tex_width) / 2 - spacing / 2 + spacing,
                (window_height - tex_height) / 2,
                tex_width,
                tex_height,
                driven_teeth,
                friction,
            ),
    {
        let x = half_down(window_width - tex_width) - spacing / 2;
        let y = half_down(window_height - tex_height);
        let driver = Gear::new(x, y, tex_width, tex_height, 0, driver_teeth, friction);
        let driven = Gear::new(x + spacing, y, tex_width, tex_height, 0, driven_teeth, friction);
        MeshedGears { driver, driven, boost }
    }

    /// Handles the left button: a press over the driver speeds it up; a press
    /// anywhere else, the driven gear included, changes nothing.
    pub fn click(&mut self, pressed: bool, px: i64, py: i64)
        ensures
            *final(self) == old(self).clicked(pressed, px as int, py as int),
    {
        if pressed && self.driver.contains_point(px, py) {
            self.driver.boost(self.boost);
        }
    }

    /// Which gears the pointer at `(px, py)` is over.
    pub fn hover(&self, px: i64, py: i64) -> (h: Hover)
        ensures
            h.driver == self.driver.contains_spec(px as int, py as int),
            h.driven == self.driven.contains_spec(px as int, py as int),
    {
        Hover { driver: self.driver.contains_point(px, py), driven: self.driven.contains_point(px, py) }
    }

    /// One frame: both gears turn by the driver's speed, then friction slows
    /// the driver.
    pub fn advance(&mut self)
        ensures
            *final(self) == old(self).advanced(),
            final(self).driver.rotation >= old(self).driver.rotation,
            final(self).driven.rotation >= old(self).driven.rotation,
    {
        let amount = self.driver.step_amount();
        self.driven.turn(amount);
        self.driver.spin();
    }

    /// The driven gear's full turns divided by `depth`, rounded to the
    /// nearest integer.
    pub fn score(&self, depth: u64) -> (r: u128)
        requires
            self.wf(),
            depth > 0,
        ensures
            r == rounded_div(self.driven.rotation as int, 2 * SPEED_SCALE * self.driven.teeth * depth),
    {
        let t = self.driven.teeth as u128;
        let dp = depth as u128;
        proof {
            assert(t * dp <= u32::MAX * u64::MAX) by (nonlinear_arith)
                requires
                    t <= u32::MAX,
                    dp <= u64::MAX,
            ;
            assert(t * dp >= 1) by (nonlinear_arith)
                requires
                    t >= 1,
                    dp >= 1,
            ;
        }
        let d = 2 * (SPEED_SCALE as u128) * (t * dp);
        assert(d == 2 * SPEED_SCALE * self.driven.teeth * depth) by (nonlinear_arith)
            requires
                d == 2 * (SPEED_SCALE as u128) * (t * dp),
                t == self.driven.teeth,
                dp == depth,
        ;
        let n = self.driven.rotation;
        let q = n / d;
        let rem = n % d;
        if rem >= d - rem {
            assert(q < u128::MAX) by (nonlinear_arith)
                requires
                    q == n / d,
                    d >= 2,
                    n <= u128::MAX,
            ;
            q + 1
        } else {
            q
        }
    }

    /// The gear ratio as driver teeth over driven teeth; the driven gear is
    /// drawn scaled by its inverse.
    pub fn ratio(&self) -> (r: (u32, u32))
        ensures
            r == (self.driver.teeth, self.driven.teeth),
    {
        (self.driver.teeth, self.driven.teeth)
    }
}

/// The pair after `n` frames of turning.
pub open spec fn advanced_frames(m: MeshedGears, n: nat) -> MeshedGears
    decreases n,
{
    if n == 0 {
        m
    } else {
        advanced_frames(m, (n - 1) as nat).advanced()
    }
}

/// In one frame the driven gear turns by the driver's speed times the gear
/// ratio. With the driver at `s / SPEED_SCALE` half-turns per frame and
/// teeth `t1`, and the driven gear with teeth `t2`, the driven gear's angle
/// grows by `d` steps, that is `d / (SPEED_SCALE * t2)` half-turns, where
/// `d / (SPEED_SCALE * t2) == (s * t1) / (SPEED_SCALE * t2)`, which is
/// `(s / SPEED_SCALE) * (t1 / t2)`, stated below with the fractions
/// cross-multiplied; both gears
/// advance by the same `d`. Holds while the angle stays below the largest
/// `u128`.
pub proof fn lemma_driven_follows_ratio(m: MeshedGears)
    requires
        m.wf(),
        m.driven.rotation + m.driver.rotation_speed * m.driver.teeth <= u128::MAX,
        m.driver.rotation + m.driver.rotation_speed * m.driver.teeth <= u128::MAX,
    ensures
        ({
            let d = m.advanced().driven.rotation - m.driven.rotation;
            let s = m.driver.rotation_speed as int;
            let t1 = m.driver.teeth as int;
            let t2 = m.driven.teeth as int;
            &&& d == s * t1
            &&& d * (SPEED_SCALE * t2) == (s * t1) * (SPEED_SCALE * t2)
            &&& m.advanced().driver.rotation - m.driver.rotation == d
        }),
{
    let s = m.driver.rotation_speed as int;
    let t1 = m.driver.teeth as int;
    let t2 = m.driven.teeth as int;
    let d = m.advanced().driven.rotation - m.driven.rotation;
    assert(d == s * t1);
}

/// Neither gear's angle ever decreases from one frame to any later one.
pub proof fn lemma_pair_rotation_never_decreases(m: MeshedGears, a: nat, b: nat)
    requires
        a <= b,
    ensures
        advanced_frames(m, a).driver.rotation <= advanced_frames(m, b).driver.rotation,
        advanced_frames(m, a).driven.rotation <= advanced_frames(m, b).driven.rotation,
    decreases b - a,
{
    if a < b {
        lemma_pair_rotation_never_decreases(m, a, (b - 1) as nat);
    }
}

} // verus!
