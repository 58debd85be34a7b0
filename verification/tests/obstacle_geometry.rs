use flappy::obstacle::Obstacle;
use flappy::player::Player;
use flappy::state::State;
use flappy::{BASE_GAP_SIZE, GAP_CENTER_MAX, GAP_CENTER_MIN, MIN_GAP_SIZE, SCREEN_HEIGHT};

#[test]
fn gap_size_follows_score() {
    let mut s = State::seeded(1);
    for (score, expected) in [(0, 10), (1, 9), (5, 5), (8, 2), (9, 2), (10, 2), (1000, 2)] {
        let o = Obstacle::new(40, score, &mut s.rng);
        assert_eq!(o.size, expected);
        assert_eq!(o.x, 40);
    }
}

#[test]
fn gap_size_monotone_and_floored() {
    let mut s = State::seeded(2);
    let mut last = BASE_GAP_SIZE + 1;
    for score in 0..30 {
        let o = Obstacle::new(0, score, &mut s.rng);
        assert!(o.size <= last);
        assert!(o.size >= MIN_GAP_SIZE);
        last = o.size;
    }
}

#[test]
fn gap_center_always_in_range() {
    let mut s = State::seeded(3);
    for score in 0..100 {
        let o = Obstacle::new(7, score, &mut s.rng);
        assert!(o.gap_y >= GAP_CENTER_MIN);
        assert!(o.gap_y < GAP_CENTER_MAX);
    }
}

#[test]
fn collision_concrete_cases() {
    let o = Obstacle {
        x: 45,
        gap_y: 12,
        size: 4,
    };
    // row 7 is strictly above the gap span [10, 14]
    let below_gap = Player {
        x: 45,
        y: 70,
        velocity: 0,
        frame: 0,
    };
    assert!(o.hit_obstacle(&below_gap));
    // row 12 is the gap center
    let in_gap = Player {
        x: 45,
        y: 120,
        velocity: 0,
        frame: 0,
    };
    assert!(!o.hit_obstacle(&in_gap));
    // one column short of the obstacle: never a hit, whatever the row
    let not_there = Player {
        x: 44,
        y: 0,
        velocity: 0,
        frame: 0,
    };
    assert!(!o.hit_obstacle(&not_there));
}

#[test]
fn collision_span_boundaries() {
    let o = Obstacle {
        x: 45,
        gap_y: 12,
        size: 4,
    };
    // rows 10 and 14 are the inclusive edges of the gap span
    let top_edge = Player {
        x: 45,
        y: 100,
        velocity: 0,
        frame: 0,
    };
    assert!(!o.hit_obstacle(&top_edge));
    let bottom_edge = Player {
        x: 45,
        y: 140,
        velocity: 0,
        frame: 0,
    };
    assert!(!o.hit_obstacle(&bottom_edge));
    let above_top = Player {
        x: 45,
        y: 99,
        velocity: 0,
        frame: 0,
    };
    assert!(o.hit_obstacle(&above_top));
    let below_bottom = Player {
        x: 45,
        y: 150,
        velocity: 0,
        frame: 0,
    };
    assert!(o.hit_obstacle(&below_bottom));
}

#[test]
fn render_spans_exact() {
    let o = Obstacle {
        x: 45,
        gap_y: 12,
        size: 4,
    };
    let g = o.render_spans(40);
    assert_eq!(g.screen_x, 5);
    assert_eq!(g.top_end, 10);
    assert_eq!(g.bottom_start, 14);
    assert_eq!(g.floor_row, SCREEN_HEIGHT - 1);
}

#[test]
fn render_spans_odd_size_uses_floored_half() {
    let o = Obstacle {
        x: 10,
        gap_y: 12,
        size: 5,
    };
    let g = o.render_spans(10);
    assert_eq!(g.screen_x, 0);
    assert_eq!(g.top_end, 10);
    assert_eq!(g.bottom_start, 14);
}
