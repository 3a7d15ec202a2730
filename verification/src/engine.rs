//! The engine model: in which direction each engine pushes the body, which
//! way it turns it, where it is mounted and where its jet points.
//!
//! All of it is a matter of signs. How hard an engine pushes and turns is a
//! magnitude that the caller computes in its own arithmetic and then applies
//! with the signs given here.
//!
//! What the signs amount to is stated here in exact arithmetic, over the real
//! numbers: firing the two side engines in turn cancels, and a body at rest
//! that coasts through one time step falls by what gravity gives it.

use vstd::prelude::*;

verus! {

/// One of the three engines of the lander.
#[derive(Clone, Copy, Debug, PartialEq, Eq, Structural)]
pub enum Engine {
    /// Side engine on the left: pushes the body along its own x-axis.
    Left,
    /// Side engine on the right: the mirror image of `Left`.
    Right,
    /// Bottom engine: pushes the body along its own y-axis, without torque.
    Down,
}

/// The effect of an engine as signed unit factors, each -1, 0 or 1.
///
/// With the body tilted by an angle of cosine `c` and sine `s`, an engine
/// that accelerates by `a` for a time `dt` changes the velocity by
/// `((vx_cos * c + vx_sin * s) * a * dt, (vy_cos * c + vy_sin * s) * a * dt)`
/// and, turning with the angular acceleration `w`, the angular velocity by
/// `spin * w * dt`.
#[derive(Clone, Copy, Debug, PartialEq, Eq, Structural)]
pub struct Thrust {
    /// Factor of the cosine of the tilt in the change of the x-velocity.
    pub vx_cos: i8,
    /// Factor of the sine of the tilt in the change of the x-velocity.
    pub vx_sin: i8,
    /// Factor of the cosine of the tilt in the change of the y-velocity.
    pub vy_cos: i8,
    /// Factor of the sine of the tilt in the change of the y-velocity.
    pub vy_sin: i8,
    /// Sign of the change of the angular velocity.
    pub spin: i8,
}

/// Where an engine sits on the body and where its jet points.
#[derive(Clone, Copy, Debug, PartialEq, Eq, Structural)]
pub struct Mount {
    /// Side of the body, along its own x-axis, on which the engine sits: the
    /// engine's centre is this factor times half the body's width plus half
    /// the engine's size away from the body's centre.
    pub side: i8,
    /// Whether the engine sits above or below the body's centre: its centre
    /// is this factor times half the body's height away from it.
    pub level: i8,
    /// Direction of the jet as a number of quarter turns added to the tilt.
    pub jet_quarter_turns: i8,
}

impl Thrust {
    /// The thrust with every factor reversed.
    pub open spec fn reversed(self) -> Thrust {
        Thrust {
            vx_cos: (-self.vx_cos) as i8,
            vx_sin: (-self.vx_sin) as i8,
            vy_cos: (-self.vy_cos) as i8,
            vy_sin: (-self.vy_sin) as i8,
            spin: (-self.spin) as i8,
        }
    }
}

impl Engine {
    /// The thrust of each engine. The right engine pushes against the body's
    /// own x-axis and turns it clockwise, the left engine does the reverse,
    /// and the bottom engine pushes along the body's own y-axis and does not
    /// turn it.
    pub open spec fn thrust_spec(self) -> Thrust {
        match self {
            Engine::Right => Thrust {
                vx_cos: -1i8,
                vx_sin: 0,
                vy_cos: 0,
                vy_sin: -1i8,
                spin: -1i8,
            },
            Engine::Left => Thrust { vx_cos: 1, vx_sin: 0, vy_cos: 0, vy_sin: 1, spin: 1 },
            Engine::Down => Thrust { vx_cos: 0, vx_sin: -1i8, vy_cos: 1, vy_sin: 0, spin: 0 },
        }
    }

    /// The mount of each engine. The side engines sit on their sides of the
    /// body, above its centre, and the bottom engine in the middle below it.
    /// Each jet points away from the push: the right engine's along the
    /// body's x-axis, the left engine's against it, the bottom engine's
    /// against the body's y-axis.
    pub open spec fn mount_spec(self) -> Mount {
        match self {
            Engine::Right => Mount { side: 1, level: 1, jet_quarter_turns: 0 },
            Engine::Left => Mount { side: -1i8, level: 1, jet_quarter_turns: -2i8 },
            Engine::Down => Mount { side: 0, level: -1i8, jet_quarter_turns: -1i8 },
        }
    }

    /// The signs with which the engine changes velocity and angular
    /// velocity.
    pub fn thrust(self) -> (t: Thrust)
        ensures
            t == self.thrust_spec(),
    {
        match self {
            Engine::Right => Thrust { vx_cos: -1, vx_sin: 0, vy_cos: 0, vy_sin: -1, spin: -1 },
            Engine::Left => Thrust { vx_cos: 1, vx_sin: 0, vy_cos: 0, vy_sin: 1, spin: 1 },
            Engine::Down => Thrust { vx_cos: 0, vx_sin: -1, vy_cos: 1, vy_sin: 0, spin: 0 },
        }
    }

    /// Where the engine sits and where its jet points.
    pub fn mount(self) -> (m: Mount)
        ensures
            m == self.mount_spec(),
    {
        match self {
            Engine::Right => Mount { side: 1, level: 1, jet_quarter_turns: 0 },
            Engine::Left => Mount { side: -1, level: 1, jet_quarter_turns: -2 },
            Engine::Down => Mount { side: 0, level: -1, jet_quarter_turns: -1 },
        }
    }
}

/// Velocity and angular velocity of a body, as real numbers.
pub struct Motion {
    /// Velocity along the world's x-axis.
    pub vx: real,
    /// Velocity along the world's y-axis.
    pub vy: real,
    /// Angular velocity.
    pub spin: real,
}

/// What firing an engine once makes of a motion in exact arithmetic. `cos`
/// and `sin` give the tilt, `push` is the change of speed that the engine
/// brings about in one step, and `turn` the change of angular velocity.
pub open spec fn fired(
    m: Motion,
    thrust: Thrust,
    cos: real,
    sin: real,
    push: real,
    turn: real,
) -> Motion {
    Motion {
        vx: m.vx + (thrust.vx_cos as real * cos + thrust.vx_sin as real * sin) * push,
        vy: m.vy + (thrust.vy_cos as real * cos + thrust.vy_sin as real * sin) * push,
        spin: m.spin + thrust.spin as real * turn,
    }
}

/// Where a body is and how far it is turned, as real numbers.
pub struct Position {
    /// Position along the world's x-axis.
    pub x: real,
    /// Position along the world's y-axis, which points up.
    pub y: real,
    /// Tilt, counterclockwise.
    pub tilt: real,
}

/// What one time step of length `dt` under the gravity `gravity` makes of a
/// motion and a position in exact arithmetic, when no engine fires: gravity
/// takes its share off the vertical velocity first, and position and tilt
/// then move on by the velocities as they are after that.
pub open spec fn integrated(m: Motion, p: Position, gravity: real, dt: real) -> (Motion, Position) {
    let vy = m.vy - gravity * dt;
    (
        Motion { vx: m.vx, vy, spin: m.spin },
        Position { x: p.x + m.vx * dt, y: p.y + vy * dt, tilt: p.tilt + m.spin * dt },
    )
}

/// The side engines mirror each other, and the bottom engine does not turn
/// the body.
pub proof fn lemma_side_engines_mirror()
    ensures
        Engine::Left.thrust_spec() == Engine::Right.thrust_spec().reversed(),
        Engine::Right.thrust_spec() == Engine::Left.thrust_spec().reversed(),
        Engine::Left.mount_spec().side == -Engine::Right.mount_spec().side,
        Engine::Left.mount_spec().level == Engine::Right.mount_spec().level,
        Engine::Down.thrust_spec().spin == 0,
{
}

/// Firing one side engine and then the other, at the same tilt and with the
/// same strength, brings velocity and angular velocity back to what they
/// were. The order of the two does not matter.
pub proof fn lemma_opposite_firings_cancel(
    m: Motion,
    cos: real,
    sin: real,
    push: real,
    turn: real,
)
    ensures
        fired(
            fired(m, Engine::Right.thrust_spec(), cos, sin, push, turn),
            Engine::Left.thrust_spec(),
            cos,
            sin,
            push,
            turn,
        ) == m,
        fired(
            fired(m, Engine::Left.thrust_spec(), cos, sin, push, turn),
            Engine::Right.thrust_spec(),
            cos,
            sin,
            push,
            turn,
        ) == m,
{
    let right = Engine::Right.thrust_spec();
    let left = Engine::Left.thrust_spec();
    let there = fired(m, right, cos, sin, push, turn);
    let back = fired(there, left, cos, sin, push, turn);
    assert(back.vx == m.vx && back.vy == m.vy && back.spin == m.spin) by (nonlinear_arith)
        requires
            there == fired(m, right, cos, sin, push, turn),
            back == fired(there, left, cos, sin, push, turn),
            right == Engine::Right.thrust_spec(),
            left == Engine::Left.thrust_spec(),
    ;
    let here = fired(m, left, cos, sin, push, turn);
    let again = fired(here, right, cos, sin, push, turn);
    assert(again.vx == m.vx && again.vy == m.vy && again.spin == m.spin) by (nonlinear_arith)
        requires
            here == fired(m, left, cos, sin, push, turn),
            again == fired(here, right, cos, sin, push, turn),
            right == Engine::Right.thrust_spec(),
            left == Engine::Left.thrust_spec(),
    ;
}

/// A body at rest that coasts through one time step falls: its vertical
/// velocity is then the gravity times the length of the step, downwards,
/// and it has neither moved sideways nor turned.
pub proof fn lemma_free_fall_from_rest(p: Position, gravity: real, dt: real)
    ensures
        integrated(Motion { vx: 0real, vy: 0real, spin: 0real }, p, gravity, dt).0 == (Motion {
            vx: 0real,
            vy: -(gravity * dt),
            spin: 0real,
        }),
        integrated(Motion { vx: 0real, vy: 0real, spin: 0real }, p, gravity, dt).1.x == p.x,
        integrated(Motion { vx: 0real, vy: 0real, spin: 0real }, p, gravity, dt).1.tilt == p.tilt,
        integrated(Motion { vx: 0real, vy: 0real, spin: 0real }, p, gravity, dt).1.y == p.y - gravity
            * dt * dt,
{
    let rest = Motion { vx: 0real, vy: 0real, spin: 0real };
    let after = integrated(rest, p, gravity, dt);
    assert(after.0.vy == -(gravity * dt) && after.1.x == p.x && after.1.tilt == p.tilt
        && after.1.y == p.y - gravity * dt * dt) by (nonlinear_arith)
        requires
            after == integrated(rest, p, gravity, dt),
            rest == (Motion { vx: 0real, vy: 0real, spin: 0real }),
    ;
}

} // verus!
