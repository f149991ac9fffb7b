use ufo_plugins::ufo::{
    animation_frame, encounter_ufo, hit_ufo, ufo_destroyed, ufo_interval_for_draw, NextUfoScore, ProjectileHit,
    ShipHealth, ShipHitOutcome, UfoEncounter, UfoHitOutcome, MAX_UFO_SCORE_INTERVAL, MIN_UFO_SCORE_INTERVAL,
    UFO_INITIAL_LIFE,
};

#[test]
fn interval_of_smallest_draw_is_the_minimum() {
    assert_eq!(ufo_interval_for_draw(0), MIN_UFO_SCORE_INTERVAL);
}

#[test]
fn interval_of_largest_draw_stays_below_the_maximum() {
    assert_eq!(ufo_interval_for_draw(u32::MAX), MAX_UFO_SCORE_INTERVAL - 1);
}

#[test]
fn interval_of_middle_draw_is_halfway() {
    assert_eq!(ufo_interval_for_draw(1 << 31), 2000);
    assert_eq!(ufo_interval_for_draw(1 << 30), 1500);
}

#[test]
fn new_threshold_is_an_interval_above_zero() {
    for _ in 0..100 {
        let next = NextUfoScore::new();
        assert!(next.0 >= MIN_UFO_SCORE_INTERVAL && next.0 < MAX_UFO_SCORE_INTERVAL);
    }
}

#[test]
fn default_threshold_is_zero() {
    assert_eq!(NextUfoScore::default().0, 0);
}

#[test]
fn bump_below_threshold_does_nothing() {
    let mut next = NextUfoScore(500);
    assert!(!next.bump(499));
    assert_eq!(next.0, 500);
}

#[test]
fn bump_at_threshold_spawns_once() {
    let mut next = NextUfoScore(500);
    assert!(next.bump(500));
    assert!(next.0 >= 1500 && next.0 < 3500);
    assert!(!next.bump(500));
    assert!(!next.bump(1499));
}

#[test]
fn bump_past_threshold_moves_it_above_the_score() {
    let mut next = NextUfoScore(100);
    assert!(next.bump(4000));
    assert!(next.0 >= 5000 && next.0 < 7000);
}

#[test]
fn gun_shots_take_one_point() {
    assert_eq!(
        hit_ufo(20, ProjectileHit::Rapid),
        UfoHitOutcome { life: 19, projectile_consumed: true }
    );
    assert_eq!(
        hit_ufo(1, ProjectileHit::Spread),
        UfoHitOutcome { life: 0, projectile_consumed: true }
    );
    assert_eq!(
        hit_ufo(0, ProjectileHit::Rapid),
        UfoHitOutcome { life: 0, projectile_consumed: true }
    );
    assert_eq!(
        hit_ufo(-3, ProjectileHit::Spread),
        UfoHitOutcome { life: -3, projectile_consumed: true }
    );
}

#[test]
fn plasma_takes_its_overlap_but_not_below_zero() {
    assert_eq!(
        hit_ufo(20, ProjectileHit::Plasma { overlap: 5 }),
        UfoHitOutcome { life: 15, projectile_consumed: false }
    );
    assert_eq!(
        hit_ufo(20, ProjectileHit::Plasma { overlap: 25 }),
        UfoHitOutcome { life: 0, projectile_consumed: false }
    );
    assert_eq!(
        hit_ufo(20, ProjectileHit::Plasma { overlap: u32::MAX }),
        UfoHitOutcome { life: 0, projectile_consumed: false }
    );
    assert_eq!(
        hit_ufo(0, ProjectileHit::Plasma { overlap: 5 }),
        UfoHitOutcome { life: 0, projectile_consumed: false }
    );
    assert_eq!(
        hit_ufo(7, ProjectileHit::Plasma { overlap: 0 }),
        UfoHitOutcome { life: 7, projectile_consumed: false }
    );
}

#[test]
fn beam_strikes_whatever_the_life() {
    assert_eq!(
        hit_ufo(5, ProjectileHit::Beam { strikes: true }),
        UfoHitOutcome { life: 4, projectile_consumed: false }
    );
    assert_eq!(
        hit_ufo(0, ProjectileHit::Beam { strikes: true }),
        UfoHitOutcome { life: -1, projectile_consumed: false }
    );
    assert_eq!(
        hit_ufo(5, ProjectileHit::Beam { strikes: false }),
        UfoHitOutcome { life: 5, projectile_consumed: false }
    );
}

#[test]
fn fresh_ufo_falls_to_exactly_its_life_in_shots() {
    let mut life: i32 = UFO_INITIAL_LIFE;
    for _ in 0..UFO_INITIAL_LIFE - 1 {
        life = hit_ufo(life, ProjectileHit::Rapid).life;
        assert!(!ufo_destroyed(life));
    }
    life = hit_ufo(life, ProjectileHit::Rapid).life;
    assert!(ufo_destroyed(life));
    assert_eq!(life, 0);
    assert_eq!(hit_ufo(life, ProjectileHit::Rapid).life, 0);
}

#[test]
fn destroyed_means_no_life_left() {
    assert!(ufo_destroyed(0));
    assert!(ufo_destroyed(-4));
    assert!(!ufo_destroyed(1));
}

#[test]
fn shield_takes_the_hit_first() {
    let mut ship = ShipHealth { shield_level: 2, lives: 3 };
    assert_eq!(ship.take_hit(), ShipHitOutcome::Shielded);
    assert_eq!(ship, ShipHealth { shield_level: 1, lives: 3 });
    assert_eq!(ship.take_hit(), ShipHitOutcome::Shielded);
    assert_eq!(ship.take_hit(), ShipHitOutcome::Destroyed);
    assert_eq!(ship, ShipHealth { shield_level: 0, lives: 2 });
}

#[test]
fn ship_without_lives_keeps_none() {
    let mut ship = ShipHealth { shield_level: 0, lives: 0 };
    assert_eq!(ship.take_hit(), ShipHitOutcome::Destroyed);
    assert_eq!(ship, ShipHealth { shield_level: 0, lives: 0 });
}

#[test]
fn animation_loops_over_its_frames() {
    assert_eq!(animation_frame(0, 3), 0);
    assert_eq!(animation_frame(7, 3), 1);
    assert_eq!(animation_frame(5, 1), 0);
}

#[test]
fn first_threshold_follows_the_draw() {
    assert_eq!(NextUfoScore::from_draw(0).0, 1000);
    assert_eq!(NextUfoScore::from_draw(1 << 31).0, 2000);
    assert_eq!(NextUfoScore::from_draw(u32::MAX).0, 2999);
}

#[test]
fn bump_with_draw_moves_threshold_by_the_drawn_interval() {
    let mut next = NextUfoScore(500);
    assert!(!next.bump_with_draw(499, 0));
    assert_eq!(next.0, 500);
    assert!(next.bump_with_draw(500, 0));
    assert_eq!(next.0, 1500);
    assert!(next.bump_with_draw(1600, 1 << 31));
    assert_eq!(next.0, 3600);
}

#[test]
fn checked_bump_reports_overflow_instead_of_moving() {
    let mut next = NextUfoScore(0);
    assert_eq!(next.checked_bump(u32::MAX), None);
    assert_eq!(next.0, 0);
    let mut next = NextUfoScore(100);
    assert_eq!(next.checked_bump(50), Some(false));
    assert_eq!(next.0, 100);
    assert_eq!(next.checked_bump(1000), Some(true));
    assert!(next.0 >= 2000 && next.0 < 4000);
}

#[test]
fn encounter_checks_destruction_with_or_without_a_hit() {
    assert_eq!(
        encounter_ufo(1, Some(ProjectileHit::Rapid)),
        UfoEncounter { life: 0, projectile_consumed: true, destroyed: true }
    );
    assert_eq!(
        encounter_ufo(0, None),
        UfoEncounter { life: 0, projectile_consumed: false, destroyed: true }
    );
    assert_eq!(
        encounter_ufo(5, None),
        UfoEncounter { life: 5, projectile_consumed: false, destroyed: false }
    );
    assert_eq!(
        encounter_ufo(5, Some(ProjectileHit::Plasma { overlap: 9 })),
        UfoEncounter { life: 0, projectile_consumed: false, destroyed: true }
    );
    assert_eq!(
        encounter_ufo(5, Some(ProjectileHit::Beam { strikes: false })),
        UfoEncounter { life: 5, projectile_consumed: false, destroyed: false }
    );
}

#[test]
fn checked_bump_with_draw_follows_the_draw() {
    let mut next = NextUfoScore(500);
    assert_eq!(next.checked_bump_with_draw(499, 0), Some(false));
    assert_eq!(next.0, 500);
    assert_eq!(next.checked_bump_with_draw(500, 0), Some(true));
    assert_eq!(next.0, 1500);
    let mut near_top = NextUfoScore(0);
    let score: u32 = u32::MAX - 1500;
    assert_eq!(near_top.checked_bump_with_draw(score, 0), Some(true));
    assert_eq!(near_top.0, u32::MAX - 500);
    let mut near_top = NextUfoScore(0);
    assert_eq!(near_top.checked_bump_with_draw(score, u32::MAX), None);
    assert_eq!(near_top.0, 0);
}
