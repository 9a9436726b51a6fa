use launch_sim::body::Body;
use launch_sim::charge::{ButtonInput, POWER_MIN};
use launch_sim::feedback::{update_power_bar, MIN_FILL};
use launch_sim::fixed::Fixed;
use launch_sim::focus::CaptureMode;
use launch_sim::sim::{FrameInput, Simulation};
use launch_sim::vector::Vec3;

fn vec3(x: i64, y: i64, z: i64) -> Vec3 {
    Vec3 { x: Fixed { raw: x }, y: Fixed { raw: y }, z: Fixed { raw: z } }
}

fn frame(pressed: bool, just_pressed: bool, just_released: bool, elapsed: i64) -> FrameInput {
    FrameInput {
        button: ButtonInput { pressed, just_pressed, just_released },
        forward: vec3(0, 0, -1_000_000),
        elapsed: Fixed { raw: elapsed },
        focus_events: Vec::new(),
        toggle: false,
    }
}

fn captured_simulation() -> Simulation {
    let mut sim = Simulation::new(vec3(0, 2_000_000, 0));
    let mut gain = frame(false, false, false, 16_000);
    gain.focus_events = vec![true];
    sim.frame(&gain);
    sim
}

#[test]
fn new_simulation_is_at_rest() {
    let sim = Simulation::new(vec3(1, 2, 3));
    assert!(!sim.power.charging);
    assert_eq!(sim.power.current.raw, POWER_MIN);
    assert!(sim.focus.focused);
    assert_eq!(sim.capture, CaptureMode { pointer_visible: true, pointer_locked: false });
    assert_eq!(sim.spawns.len(), 0);
    assert!(sim.bodies.is_empty());
    assert_eq!(sim.position, vec3(1, 2, 3));
    assert_eq!(sim.view.yaw.raw, 0);
    assert_eq!(sim.view.pitch.raw, 0);
}

#[test]
fn press_is_ignored_until_the_pointer_is_captured() {
    let mut sim = Simulation::new(vec3(0, 2_000_000, 0));
    sim.frame(&frame(true, true, false, 16_000));
    assert!(!sim.power.charging);
    sim.frame(&frame(true, false, false, 1_000_000));
    assert_eq!(sim.power.current.raw, POWER_MIN);
}

#[test]
fn focus_signal_takes_effect_after_the_launch_controller_of_its_frame() {
    let mut sim = Simulation::new(vec3(0, 2_000_000, 0));
    let mut input = frame(true, true, false, 16_000);
    input.focus_events = vec![false, true];
    sim.frame(&input);
    assert_eq!(sim.capture, CaptureMode { pointer_visible: false, pointer_locked: true });
    assert!(sim.focus.focused);
    assert!(!sim.power.charging);
    sim.frame(&frame(true, true, false, 16_000));
    assert!(sim.power.charging);
}

#[test]
fn charge_and_release_creates_one_body_in_the_same_frame() {
    let mut sim = captured_simulation();
    assert_eq!(sim.frame(&frame(true, true, false, 16_000)).created, 0);
    for _ in 0..125 {
        let report = sim.frame(&frame(true, false, false, 16_000));
        assert_eq!(report.created, 0);
        assert_eq!(report.bar, update_power_bar(&sim.power));
    }
    assert_eq!(sim.power.current.raw, 3_000_000);
    let report = sim.frame(&frame(false, false, true, 16_000));
    assert_eq!(report.created, 1);
    assert_eq!(report.bar.fill.raw, MIN_FILL);
    assert_eq!(sim.spawns.len(), 0);
    assert_eq!(
        sim.bodies,
        vec![Body { position: vec3(0, 2_000_000, 0), velocity: vec3(0, 0, -30_000_000) }]
    );
    assert!(!sim.power.charging);
    assert_eq!(sim.power.current.raw, POWER_MIN);
    assert_eq!(sim.frame(&frame(false, false, false, 16_000)).created, 0);
    assert_eq!(sim.bodies.len(), 1);
}

#[test]
fn request_left_in_the_channel_is_drained_by_the_next_frame() {
    let mut sim = captured_simulation();
    sim.spawns.write(launch_sim::spawn::BallSpawn {
        position: vec3(5, 5, 5),
        direction: vec3(1_000_000, 0, 0),
        power: Fixed { raw: 2_000_000 },
    });
    sim.power.charging = true;
    sim.power.current = Fixed { raw: 4_000_000 };
    let report = sim.frame(&frame(false, false, true, 16_000));
    assert_eq!(report.created, 2);
    assert_eq!(
        sim.bodies,
        vec![
            Body { position: vec3(5, 5, 5), velocity: vec3(20_000_000, 0, 0) },
            Body { position: vec3(0, 2_000_000, 0), velocity: vec3(0, 0, -40_000_000) },
        ]
    );
}

#[test]
fn toggle_releases_the_pointer_and_freezes_the_charge() {
    let mut sim = captured_simulation();
    sim.frame(&frame(true, true, false, 16_000));
    sim.frame(&frame(true, false, false, 500_000));
    assert_eq!(sim.power.current.raw, 1_500_000);
    let mut escape = frame(true, false, false, 500_000);
    escape.toggle = true;
    sim.frame(&escape);
    assert_eq!(sim.power.current.raw, 2_000_000);
    assert!(!sim.focus.focused);
    assert_eq!(sim.capture, CaptureMode { pointer_visible: true, pointer_locked: false });
    sim.frame(&frame(true, false, false, 500_000));
    assert_eq!(sim.power.current.raw, 2_000_000);
    assert_eq!(sim.frame(&frame(false, false, true, 500_000)).created, 0);
    assert!(sim.power.charging);
}

#[test]
fn fixed_tick_moves_bodies_and_nothing_else() {
    let mut sim = captured_simulation();
    sim.bodies.push(Body { position: vec3(0, 5_000_000, 0), velocity: vec3(0, -2_000_000, 0) });
    sim.power.charging = true;
    sim.power.current = Fixed { raw: 2_000_000 };
    sim.fixed_tick(Fixed { raw: 1_000_000 });
    assert_eq!(
        sim.bodies,
        vec![Body { position: vec3(0, -6_800_000, 0), velocity: vec3(0, 11_800_000, 0) }]
    );
    assert!(sim.power.charging);
    assert_eq!(sim.power.current.raw, 2_000_000);
    assert_eq!(sim.position, vec3(0, 2_000_000, 0));
    assert_eq!(sim.capture, CaptureMode { pointer_visible: false, pointer_locked: true });
}

#[test]
fn launched_body_falls_and_bounces_under_fixed_ticks() {
    let mut sim = captured_simulation();
    sim.frame(&frame(true, true, false, 16_000));
    sim.frame(&frame(false, false, true, 16_000));
    assert_eq!(sim.bodies.len(), 1);
    let mut bounced = false;
    for _ in 0..600 {
        let before = sim.bodies[0];
        sim.fixed_tick(Fixed { raw: 16_667 });
        let after = sim.bodies[0];
        assert!(!(after.position.y.raw < 0 && after.velocity.y.raw < 0));
        assert_eq!(after.velocity.z.raw, -10_000_000);
        if before.velocity.y.raw < 0 && after.velocity.y.raw > 0 {
            bounced = true;
        }
    }
    assert!(bounced);
}
