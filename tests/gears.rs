use ratio_pulling::{Boost, Gear, Hover, MeshedGears, Rect, SPEED_SCALE};

fn pair() -> MeshedGears {
    let driver = Gear::new(380, 310, 100, 100, 0, 9, 20);
    let driven = Gear::new(780, 310, 100, 100, 0, 52, 20);
    MeshedGears::new(driver, driven, Boost::Add { step: 500, max: 10000 })
}

#[test]
fn rect_contains_point_edges() {
    let r = Rect::new(2, 2, 4, 4);
    assert!(r.contains_point(2, 2));
    assert!(r.contains_point(4, 4));
    assert!(!r.contains_point(6, 2));
    assert!(!r.contains_point(2, 6));
    assert!(!r.contains_point(1, 1));
}

#[test]
fn rect_intersects_but_not_when_adjacent() {
    let base = Rect::new(2, 2, 4, 4);
    assert!(base.intersects(&base));
    assert!(base.intersects(&Rect::new(3, 3, 4, 4)));
    assert!(!base.intersects(&Rect::new(6, 2, 4, 4)));
    assert!(!base.intersects(&Rect::new(20, 20, 4, 4)));
}

#[test]
fn gear_bounds_are_centered_on_position() {
    let g = Gear::new(100, 100, 11, 11, 0, 1, 0);
    assert!(g.contains_point(95, 95));
    assert!(!g.contains_point(94, 100));
    assert!(g.contains_point(105, 105));
    assert!(!g.contains_point(106, 100));
}

#[test]
fn boost_adds_and_caps() {
    let mut g = Gear::new(0, 0, 10, 10, 0, 1, 20);
    let b = Boost::Add { step: 500, max: 1200 };
    g.boost(b);
    assert_eq!(g.rotation_speed, 500);
    g.boost(b);
    g.boost(b);
    assert_eq!(g.rotation_speed, 1200);
}

#[test]
fn boost_assign_replaces_speed() {
    let mut g = Gear::new(0, 0, 10, 10, 0, 1, 20);
    g.rotation_speed = 700;
    g.boost(Boost::Assign { speed: 1000 });
    assert_eq!(g.rotation_speed, 1000);
}

#[test]
fn friction_stops_at_zero_after_ceiling_frames() {
    let mut g = Gear::new(0, 0, 10, 10, 0, 1, 30);
    g.rotation_speed = 100;
    let mut frames = 0;
    while g.rotation_speed > 0 {
        g.apply_friction();
        frames += 1;
    }
    assert_eq!(frames, 4);
    g.apply_friction();
    assert_eq!(g.rotation_speed, 0);
}

#[test]
fn single_gear_score_matches_sum_of_speeds() {
    let mut g = Gear::new(0, 0, 10, 10, 0, 1, 20);
    g.boost(Boost::Assign { speed: 500 });
    let mut expected: u128 = 0;
    let mut speed: u64 = 500;
    for _ in 0..30 {
        expected += speed as u128;
        speed = speed.saturating_sub(20);
        g.spin();
    }
    assert_eq!(expected, 6500);
    assert_eq!(g.rotation, 6500);
    assert_eq!(g.rotation_speed, 0);
    let (num, den) = g.turns();
    assert_eq!((num, den), (6500, 2 * SPEED_SCALE as u128));
    let turns = num as f64 / den as f64;
    assert!((turns - 0.325).abs() < 1e-12);
}

#[test]
fn rotation_never_decreases_while_spinning() {
    let mut g = Gear::new(0, 0, 10, 10, 0, 3, 7);
    g.rotation_speed = 100;
    let mut last = g.rotation;
    for _ in 0..40 {
        g.spin();
        assert!(g.rotation >= last);
        last = g.rotation;
    }
    assert_eq!(g.rotation, 3 * (100 + 93 + 86 + 79 + 72 + 65 + 58 + 51 + 44 + 37 + 30 + 23 + 16 + 9 + 2));
}

#[test]
fn centered_pair_layout() {
    let m = MeshedGears::centered(1260, 720, 100, 100, 400, 9, 52, 20, Boost::Add { step: 500, max: 10000 });
    assert_eq!((m.driver.x, m.driver.y), (380, 310));
    assert_eq!((m.driven.x, m.driven.y), (780, 310));
    assert_eq!(m.driver.teeth, 9);
    assert_eq!(m.driven.teeth, 52);
    assert_eq!(m.ratio(), (9, 52));
    let odd = MeshedGears::centered(10, 10, 13, 13, 0, 1, 1, 0, Boost::Assign { speed: 1 });
    assert_eq!((odd.driver.x, odd.driver.y), (-2, -2));
}

#[test]
fn click_on_driver_speeds_it_up() {
    let mut m = pair();
    m.click(true, 380, 310);
    assert_eq!(m.driver.rotation_speed, 500);
    m.click(false, 380, 310);
    assert_eq!(m.driver.rotation_speed, 500);
}

#[test]
fn click_on_driven_or_elsewhere_does_nothing() {
    let mut m = pair();
    m.click(true, 780, 310);
    m.click(true, 10, 10);
    assert_eq!(m.driver.rotation_speed, 0);
    assert_eq!(m.driven.rotation_speed, 0);
}

#[test]
fn click_speed_is_capped() {
    let mut m = pair();
    for _ in 0..25 {
        m.click(true, 380, 310);
    }
    assert_eq!(m.driver.rotation_speed, 10000);
}

#[test]
fn hover_reports_gears_under_pointer() {
    let m = pair();
    assert_eq!(m.hover(380, 310), Hover { driver: true, driven: false });
    assert_eq!(m.hover(780, 300), Hover { driver: false, driven: true });
    assert_eq!(m.hover(580, 310), Hover { driver: false, driven: false });
}

#[test]
fn driven_gear_follows_the_ratio() {
    let mut m = pair();
    m.click(true, 380, 310);
    m.advance();
    // Both advance by 500 * 9 steps; for the driven gear that is
    // 4500 / (10000 * 52) half-turns, i.e. 0.05 * 9 / 52.
    assert_eq!(m.driver.rotation, 4500);
    assert_eq!(m.driven.rotation, 4500);
    let half_turns = m.driven.rotation as f64 / (SPEED_SCALE as f64 * 52.0);
    assert!((half_turns - 0.05 * 9.0 / 52.0).abs() < 1e-12);
    assert_eq!(m.driver.rotation_speed, 480);
    assert_eq!(m.driven.rotation_speed, 0);
    m.advance();
    assert_eq!(m.driven.rotation, 4500 + 480 * 9);
}

#[test]
fn score_rounds_to_nearest() {
    let mut m = pair();
    // One point is 20 full turns of the driven gear: 2 * 10000 * 52 * 20 steps.
    m.driven.rotation = 10_399_999;
    assert_eq!(m.score(20), 0);
    m.driven.rotation = 10_400_000;
    assert_eq!(m.score(20), 1);
    m.driven.rotation = 20_800_000 * 7 + 3;
    assert_eq!(m.score(20), 7);
    m.driven.rotation = 0;
    assert_eq!(m.score(20), 0);
}

#[test]
fn rotation_saturates_instead_of_wrapping() {
    let mut g = Gear::new(0, 0, 10, 10, u128::MAX - 5, 4, 0);
    g.rotation_speed = 10;
    g.spin();
    assert_eq!(g.rotation, u128::MAX);
}
