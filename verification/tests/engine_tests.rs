use lunar_lander_rl::engine::{Engine, Mount, Thrust};

#[test]
fn the_right_engine_pushes_left_and_turns_clockwise() {
    assert_eq!(
        Engine::Right.thrust(),
        Thrust { vx_cos: -1, vx_sin: 0, vy_cos: 0, vy_sin: -1, spin: -1 }
    );
}

#[test]
fn the_left_engine_mirrors_the_right() {
    let left = Engine::Left.thrust();
    let right = Engine::Right.thrust();
    assert_eq!(left, Thrust { vx_cos: 1, vx_sin: 0, vy_cos: 0, vy_sin: 1, spin: 1 });
    assert_eq!(left.vx_cos, -right.vx_cos);
    assert_eq!(left.vx_sin, -right.vx_sin);
    assert_eq!(left.vy_cos, -right.vy_cos);
    assert_eq!(left.vy_sin, -right.vy_sin);
    assert_eq!(left.spin, -right.spin);
}

#[test]
fn the_bottom_engine_pushes_up_the_body_axis_without_torque() {
    assert_eq!(
        Engine::Down.thrust(),
        Thrust { vx_cos: 0, vx_sin: -1, vy_cos: 1, vy_sin: 0, spin: 0 }
    );
}

#[test]
fn engines_are_mounted_where_their_jets_leave() {
    assert_eq!(Engine::Right.mount(), Mount { side: 1, level: 1, jet_quarter_turns: 0 });
    assert_eq!(Engine::Left.mount(), Mount { side: -1, level: 1, jet_quarter_turns: -2 });
    assert_eq!(Engine::Down.mount(), Mount { side: 0, level: -1, jet_quarter_turns: -1 });
}

fn fire(motion: (f32, f32, f32), engine: Engine, tilt: f32, push: f32, turn: f32) -> (f32, f32, f32) {
    let t = engine.thrust();
    let (sin, cos) = tilt.sin_cos();
    (
        motion.0 + (t.vx_cos as f32 * cos + t.vx_sin as f32 * sin) * push,
        motion.1 + (t.vy_cos as f32 * cos + t.vy_sin as f32 * sin) * push,
        motion.2 + t.spin as f32 * turn,
    )
}

#[test]
fn right_then_left_returns_to_the_motion_before() {
    let push: f32 = 0.901;
    let turn: f32 = 0.36;
    for tilt in [0.0f32, 0.3, -1.2, 2.5] {
        for start in [(0.0f32, 0.0f32, 0.0f32), (1.5, -2.25, 0.125), (-40.0, 3.0, -1.0)] {
            let there = fire(start, Engine::Right, tilt, push, turn);
            let back = fire(there, Engine::Left, tilt, push, turn);
            assert!((back.0 - start.0).abs() <= 1e-5);
            assert!((back.1 - start.1).abs() <= 1e-5);
            assert!((back.2 - start.2).abs() <= 1e-6);
            if tilt != 0.0 || start.0 != 0.0 {
                assert_ne!(there, start);
            }
        }
    }
}

#[test]
fn upright_right_engine_slows_the_body_to_the_left() {
    let after = fire((2.0, 0.0, 0.0), Engine::Right, 0.0, 0.5, 0.25);
    assert_eq!(after, (1.5, 0.0, -0.25));
    let after = fire((2.0, 0.0, 0.0), Engine::Left, 0.0, 0.5, 0.25);
    assert_eq!(after, (2.5, 0.0, 0.25));
    let after = fire((2.0, 1.0, 0.5), Engine::Down, 0.0, 0.5, 0.25);
    assert_eq!(after, (2.0, 1.5, 0.5));
}
