use flappy::player::Player;
use flappy::{FLAP_IMPULSE, FRAME_COUNT, SCALE, TERMINAL_VELOCITY};

#[test]
fn gravity_increment_exact() {
    let mut p = Player::new(5, 25);
    assert_eq!(p.y, 25 * SCALE);
    assert_eq!(p.velocity, 0);
    p.grav_and_move();
    assert_eq!(p.velocity, 1);
    assert_eq!(p.y, 25 * SCALE + 1);
    assert_eq!(p.x, 6);
}

#[test]
fn gravity_cap_and_monotone() {
    let mut p = Player::new(5, 25);
    let mut last = p.velocity;
    for _ in 0..50 {
        p.grav_and_move();
        assert!(p.velocity >= last);
        assert!(p.velocity <= TERMINAL_VELOCITY);
        last = p.velocity;
    }
    assert_eq!(p.velocity, TERMINAL_VELOCITY);
}

#[test]
fn velocity_is_step_count_until_cap() {
    let mut p = Player::new(5, 25);
    for n in 1..=TERMINAL_VELOCITY {
        p.grav_and_move();
        assert_eq!(p.velocity, n);
    }
    p.grav_and_move();
    assert_eq!(p.velocity, TERMINAL_VELOCITY);
}

#[test]
fn floor_clamp_after_advance() {
    let mut p = Player {
        x: 0,
        y: 5,
        velocity: 0,
        frame: 0,
    };
    p.flap();
    p.flap();
    assert_eq!(p.velocity, -2 * FLAP_IMPULSE);
    p.grav_and_move();
    // 5 + (-19) would be negative: clamped to the floor
    assert_eq!(p.y, 0);
    for _ in 0..30 {
        p.grav_and_move();
        assert!(p.y >= 0);
    }
}

#[test]
fn flap_impulse_exact() {
    let mut p = Player::new(5, 25);
    p.flap();
    assert_eq!(p.velocity, -FLAP_IMPULSE);
    p.flap();
    assert_eq!(p.velocity, -2 * FLAP_IMPULSE);
    let mut q = Player {
        x: 0,
        y: 100,
        velocity: TERMINAL_VELOCITY,
        frame: 0,
    };
    q.flap();
    assert_eq!(q.velocity, TERMINAL_VELOCITY - FLAP_IMPULSE);
    assert_eq!(q.y, 100);
    assert_eq!(q.x, 0);
    assert_eq!(q.frame, 0);
}

#[test]
fn animation_frame_is_step_count_mod_six() {
    let mut p = Player::new(5, 25);
    for n in 1..40usize {
        p.grav_and_move();
        assert_eq!(p.frame, n % FRAME_COUNT);
        assert!(p.frame < FRAME_COUNT);
    }
}

#[test]
fn animation_wraps_after_full_cycle() {
    let mut p = Player::new(5, 25);
    for _ in 0..FRAME_COUNT {
        p.grav_and_move();
    }
    assert_eq!(p.frame, 0);
    p.grav_and_move();
    assert_eq!(p.frame, 1);
}
