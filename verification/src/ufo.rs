use vstd::prelude::*;
use crate::arith::{max_u32, min_int};
use crate::random::random_u32;
use vstd::arithmetic::div_mod::{
    lemma_div_is_ordered, lemma_fundamental_div_mod, lemma_fundamental_div_mod_converse,
    lemma_mod_pos_bound,
};

verus! {

/// Fewest points of score between two UFO appearances.
pub const MIN_UFO_SCORE_INTERVAL: u32 = 1000;

/// Bound (excluded) on the points of score between two UFO appearances.
pub const MAX_UFO_SCORE_INTERVAL: u32 = 3000;

/// Number of equally likely draws of a `u32`.
pub const DRAW_RANGE: u64 = 0x1_0000_0000;

/// The interval that a draw of a `u32` selects: the draw, read as a fraction
/// of the whole `u32` range, interpolates between the smallest and the largest
/// interval, and the result is rounded down.
pub open spec fn ufo_interval_of_draw(draw: u32) -> int {
    MIN_UFO_SCORE_INTERVAL + ((MAX_UFO_SCORE_INTERVAL - MIN_UFO_SCORE_INTERVAL) * draw) / (
    DRAW_RANGE as int)
}

/// An interval of score that may separate two UFO appearances.
pub open spec fn ufo_interval_in_range(interval: int) -> bool {
    MIN_UFO_SCORE_INTERVAL <= interval < MAX_UFO_SCORE_INTERVAL
}

/// Turns a draw of a `u32` into the score interval before the next UFO.
pub fn ufo_interval_for_draw(draw: u32) -> (interval: u32)
    ensures
        interval == ufo_interval_of_draw(draw),
        ufo_interval_in_range(interval as int),
{
    let span: u64 = (MAX_UFO_SCORE_INTERVAL - MIN_UFO_SCORE_INTERVAL) as u64;
    let scaled: u64 = span * (draw as u64);
    let offset: u64 = scaled / DRAW_RANGE;
    assert(offset < span) by (nonlinear_arith)
        requires
            scaled == span * draw,
            draw < DRAW_RANGE,
            offset == scaled / DRAW_RANGE,
            DRAW_RANGE > 0,
            span > 0,
    ;
    MIN_UFO_SCORE_INTERVAL + (offset as u32)
}

/// The interval a draw selects is the floor of the interpolation: its part
/// above the smallest interval, times the number of draws, is within one
/// draw-range below the span of intervals times the draw. So the smallest draw
/// gives the smallest interval, the largest draw the largest interval below the
/// bound, and a larger draw never gives a smaller interval.
pub proof fn law_interval_interpolates_the_draw(draw: u32, other: u32)
    ensures
        (ufo_interval_of_draw(draw) - MIN_UFO_SCORE_INTERVAL) * DRAW_RANGE <= (
        MAX_UFO_SCORE_INTERVAL - MIN_UFO_SCORE_INTERVAL) * draw,
        (MAX_UFO_SCORE_INTERVAL - MIN_UFO_SCORE_INTERVAL) * draw < (ufo_interval_of_draw(draw)
            - MIN_UFO_SCORE_INTERVAL + 1) * DRAW_RANGE,
        ufo_interval_of_draw(0) == MIN_UFO_SCORE_INTERVAL,
        ufo_interval_of_draw(u32::MAX) == MAX_UFO_SCORE_INTERVAL - 1,
        draw <= other ==> ufo_interval_of_draw(draw) <= ufo_interval_of_draw(other),
{
    let span: int = (MAX_UFO_SCORE_INTERVAL - MIN_UFO_SCORE_INTERVAL) as int;
    let n: int = DRAW_RANGE as int;
    let x: int = span * draw;
    lemma_fundamental_div_mod(x, n);
    lemma_mod_pos_bound(x, n);
    lemma_fundamental_div_mod_converse(span * u32::MAX, n, span - 1, n - span);
    lemma_fundamental_div_mod_converse(span * 0, n, 0, 0);
    if draw <= other {
        assert(x <= span * other) by (nonlinear_arith)
            requires
                x == span * draw,
                span > 0,
                draw <= other,
        ;
        lemma_div_is_ordered(x, span * other, n);
    }
}

/// A random score interval before the next UFO.
fn random_ufo_interval() -> (interval: u32)
    ensures
        ufo_interval_in_range(interval as int),
{
    ufo_interval_for_draw(random_u32())
}

/// The score at which the next UFO appears.
#[derive(Debug)]
pub struct NextUfoScore(pub u32);

/// A score that has reached the threshold of the next UFO.
pub open spec fn ufo_due(threshold: u32, score: u32) -> bool {
    score >= threshold
}

/// What one call of `bump` may do: when the score has reached the threshold,
/// a UFO appears and the threshold moves to the score plus an interval in
/// range; otherwise nothing happens.
pub open spec fn bump_step(before: u32, score: u32, spawned: bool, after: u32) -> bool {
    &&& spawned == ufo_due(before, score)
    &&& spawned ==> ufo_interval_in_range(after - score)
    &&& !spawned ==> after == before
}

/// The scores on which `bump` can run without the new threshold overflowing.
pub open spec fn bump_fits(threshold: u32, score: u32) -> bool {
    ufo_due(threshold, score) ==> score + MAX_UFO_SCORE_INTERVAL <= u32::MAX
}

impl NextUfoScore {
    /// A first threshold: a random interval above a score of zero.
    pub fn new() -> (next: Self)
        ensures
            ufo_interval_in_range(next.0 as int),
    {
        NextUfoScore(random_ufo_interval())
    }

    /// The first threshold that a given draw selects.
    pub fn from_draw(draw: u32) -> (next: Self)
        ensures
            next.0 == ufo_interval_of_draw(draw),
    {
        NextUfoScore(ufo_interval_for_draw(draw))
    }

    /// Tells whether a UFO appears at `score`, and if it does, moves the
    /// threshold a random interval above `score`.
    pub fn bump(&mut self, score: u32) -> (spawned: bool)
        requires
            bump_fits(old(self).0, score),
        ensures
            bump_step(old(self).0, score, spawned, final(self).0),
            final(self).0 >= old(self).0,
    {
        if score >= self.0 {
            self.bump_with_draw(score, random_u32())
        } else {
            false
        }
    }

    /// `bump` with the draw that selects the interval given: when a UFO
    /// appears, the threshold moves to `score` plus the interval of `draw`.
    pub fn bump_with_draw(&mut self, score: u32, draw: u32) -> (spawned: bool)
        requires
            ufo_due(old(self).0, score) ==> score + ufo_interval_of_draw(draw) <= u32::MAX,
        ensures
            spawned == ufo_due(old(self).0, score),
            spawned ==> final(self).0 == score + ufo_interval_of_draw(draw),
            !spawned ==> final(self).0 == old(self).0,
            bump_step(old(self).0, score, spawned, final(self).0),
    {
        if score >= self.0 {
            self.0 = score + ufo_interval_for_draw(draw);
            true
        } else {
            false
        }
    }

    /// `bump` for any score: returns `None`, leaving the threshold as it was,
    /// when a UFO is due and the drawn interval would carry the threshold past
    /// `u32::MAX`; otherwise `Some` of whether a UFO appears, as `bump`. A draw
    /// is made only when a UFO is due.
    pub fn checked_bump(&mut self, score: u32) -> (spawned: Option<bool>)
        ensures
            match spawned {
                Some(s) => bump_step(old(self).0, score, s, final(self).0),
                None => ufo_due(old(self).0, score) && !bump_fits(old(self).0, score)
                    && final(self).0 == old(self).0,
            },
            bump_fits(old(self).0, score) ==> spawned is Some,
    {
        if score >= self.0 {
            self.checked_bump_with_draw(score, random_u32())
        } else {
            Some(false)
        }
    }

    /// `checked_bump` with the draw that selects the interval given.
    pub fn checked_bump_with_draw(&mut self, score: u32, draw: u32) -> (spawned: Option<bool>)
        ensures
            !ufo_due(old(self).0, score) ==> spawned == Some(false) && final(self).0 == old(
                self,
            ).0,
            ufo_due(old(self).0, score) && score + ufo_interval_of_draw(draw) <= u32::MAX
                ==> spawned == Some(true) && final(self).0 == score + ufo_interval_of_draw(draw),
            ufo_due(old(self).0, score) && score + ufo_interval_of_draw(draw) > u32::MAX
                ==> spawned is None && final(self).0 == old(self).0,
    {
        if score >= self.0 {
            let interval: u32 = ufo_interval_for_draw(draw);
            if score <= u32::MAX - interval {
                self.0 = score + interval;
                Some(true)
            } else {
                None
            }
        } else {
            Some(false)
        }
    }
}

impl Default for NextUfoScore {
    fn default() -> (next: Self)
        ensures
            next.0 == 0,
    {
        NextUfoScore(0)
    }
}

/// Once a UFO has appeared at `score`, it does not appear again before the
/// score has grown by the smallest interval; in particular not at the same
/// score.
pub proof fn law_ufo_not_repeated(before: u32, score: u32, after: u32, later: u32)
    requires
        bump_step(before, score, true, after),
        later < score + MIN_UFO_SCORE_INTERVAL,
    ensures
        !ufo_due(after, later),
        !ufo_due(after, score),
{
}

/// Two UFO appearances in a row are at least the smallest interval of score
/// apart, and less than the largest interval apart when the second comes at
/// the first score that reaches the threshold.
pub proof fn law_ufo_spacing(t0: u32, s1: u32, t1: u32, s2: u32, t2: u32)
    requires
        bump_step(t0, s1, true, t1),
        bump_step(t1, s2, true, t2),
    ensures
        s2 >= s1 + MIN_UFO_SCORE_INTERVAL,
        s2 == t1 ==> s2 < s1 + MAX_UFO_SCORE_INTERVAL,
{
}

/// Life of a UFO when it appears.
pub const UFO_INITIAL_LIFE: i32 = 20;

/// Life that one strike of a beam takes from a UFO.
pub const BEAM_DAMAGE_PER_HIT: i32 = 1;

/// Score awarded for destroying a UFO.
pub const UFO_DESTROYED_SCORE: u32 = 100;

/// A projectile of the ship that touches a UFO.
#[derive(Clone, Copy, Debug, PartialEq, Eq, Structural)]
pub enum ProjectileHit {
    /// A shot of the rapid-fire gun.
    Rapid,
    /// A shot of the spread gun.
    Spread,
    /// A plasma ball, with how deep it overlaps the UFO, rounded up.
    Plasma { overlap: u32 },
    /// A beam; `strikes` tells whether it is attached and its cooldown is over.
    Beam { strikes: bool },
}

/// What a hit does to a UFO and to the projectile.
#[derive(Clone, Copy, Debug, PartialEq, Eq, Structural)]
pub struct UfoHitOutcome {
    /// The UFO's life after the hit.
    pub life: i32,
    /// Whether the hit itself uses the projectile up (gun shots). A plasma
    /// ball is not used up by the hit rule; it loses power with each overlap
    /// and the caller removes it once its power has run out.
    pub projectile_consumed: bool,
}

/// The inputs on which a hit leaves the UFO's life within `i32`.
pub open spec fn hit_fits(life: i32, hit: ProjectileHit) -> bool {
    hit == (ProjectileHit::Beam { strikes: true }) ==> life - BEAM_DAMAGE_PER_HIT >= i32::MIN
}

/// The life a UFO has after a hit: a gun shot takes one point from a living
/// UFO; a plasma ball takes its overlap from a living UFO, but no more than the
/// UFO has; a striking beam takes its damage whatever the UFO's life.
pub open spec fn life_after_hit(life: int, hit: ProjectileHit) -> int {
    match hit {
        ProjectileHit::Rapid | ProjectileHit::Spread => if life > 0 { life - 1 } else { life },
        ProjectileHit::Plasma { overlap } => if life > 0 {
            life - min_int(overlap as int, life)
        } else {
            life
        },
        ProjectileHit::Beam { strikes } => if strikes { life - BEAM_DAMAGE_PER_HIT } else { life },
    }
}

/// Whether the hit rule uses the projectile up: gun shots vanish on impact.
/// A beam is never used up by a hit. A plasma ball is not used up by the hit
/// rule either, but it loses power with each overlap, and the caller removes
/// it once its power has run out; that power is not part of this rule.
pub open spec fn consumes_projectile(hit: ProjectileHit) -> bool {
    hit is Rapid || hit is Spread
}

/// Applies a projectile's hit to a UFO of the given life.
pub fn hit_ufo(life: i32, hit: ProjectileHit) -> (outcome: UfoHitOutcome)
    requires
        hit_fits(life, hit),
    ensures
        outcome.life == life_after_hit(life as int, hit),
        outcome.projectile_consumed == consumes_projectile(hit),
{
    match hit {
        ProjectileHit::Rapid | ProjectileHit::Spread => {
            let new_life: i32 = if life > 0 { life - 1 } else { life };
            UfoHitOutcome { life: new_life, projectile_consumed: true }
        },
        ProjectileHit::Plasma { overlap } => {
            let new_life: i32 = if life > 0 {
                if (overlap as i64) < (life as i64) {
                    life - (overlap as i32)
                } else {
                    0
                }
            } else {
                life
            };
            UfoHitOutcome { life: new_life, projectile_consumed: false }
        },
        ProjectileHit::Beam { strikes } => {
            let new_life: i32 = if strikes { life - BEAM_DAMAGE_PER_HIT } else { life };
            UfoHitOutcome { life: new_life, projectile_consumed: false }
        },
    }
}

/// A UFO is destroyed once its life is used up.
pub fn ufo_destroyed(life: i32) -> (destroyed: bool)
    ensures
        destroyed == (life <= 0),
{
    life <= 0
}

/// What one projectile does to one UFO in a frame: the hit, if the two touch,
/// and whether the UFO is then destroyed, which ends the projectile's pass.
#[derive(Clone, Copy, Debug, PartialEq, Eq, Structural)]
pub struct UfoEncounter {
    /// The UFO's life afterwards.
    pub life: i32,
    /// Whether the hit rule uses the projectile up (see `consumes_projectile`).
    pub projectile_consumed: bool,
    /// Whether the UFO is destroyed: the score grows by `UFO_DESTROYED_SCORE`,
    /// the UFO is removed, and the projectile meets no further UFO this frame.
    pub destroyed: bool,
}

/// The life of a UFO after a projectile passes it, touching it or not.
pub open spec fn life_after_encounter(life: int, hit: Option<ProjectileHit>) -> int {
    match hit {
        Some(h) => life_after_hit(life, h),
        None => life,
    }
}

/// The inputs on which an encounter leaves the UFO's life within `i32`.
pub open spec fn encounter_fits(life: i32, hit: Option<ProjectileHit>) -> bool {
    match hit {
        Some(h) => hit_fits(life, h),
        None => true,
    }
}

/// One projectile meets one UFO: applies the hit if they touch, then tells
/// whether the UFO is destroyed, which is checked whether they touched or not.
pub fn encounter_ufo(life: i32, hit: Option<ProjectileHit>) -> (encounter: UfoEncounter)
    requires
        encounter_fits(life, hit),
    ensures
        encounter.life == life_after_encounter(life as int, hit),
        encounter.projectile_consumed == (hit is Some && consumes_projectile(hit->0)),
        encounter.destroyed == (encounter.life <= 0),
{
    let (new_life, consumed) = match hit {
        Some(h) => {
            let outcome = hit_ufo(life, h);
            (outcome.life, outcome.projectile_consumed)
        },
        None => (life, false),
    };
    UfoEncounter { life: new_life, projectile_consumed: consumed, destroyed: ufo_destroyed(new_life) }
}

/// Model of one projectile's pass over the UFOs from index `i` on, built from
/// the rule of `encounter_ufo`: each UFO in turn meets the projectile
/// (`hits[j]` is its hit, if they touch), and the pass stops at the first UFO
/// left with no life. Gives the lives afterwards and whether the pass
/// destroyed a UFO. The pass itself runs in the game's system, whose hits come
/// from floating-point geometry; it follows this model by calling
/// `encounter_ufo` for each UFO and stopping on `destroyed`.
pub open spec fn pass_from(lives: Seq<int>, hits: Seq<Option<ProjectileHit>>, i: nat) -> (Seq<int>, bool)
    decreases lives.len() - i,
{
    if i >= lives.len() {
        (lives, false)
    } else {
        let life = life_after_encounter(lives[i as int], hits[i as int]);
        let after = lives.update(i as int, life);
        if life <= 0 {
            (after, true)
        } else {
            pass_from(after, hits, i + 1)
        }
    }
}

/// Model of a frame of the projectile-UFO system: the projectiles' passes (as
/// `pass_from`) in turn, each destroying at most one UFO and adding
/// `UFO_DESTROYED_SCORE` to the score when it does. Gives the lives and the
/// score afterwards.
pub open spec fn projectile_round(lives: Seq<int>, score: int, passes: Seq<Seq<Option<ProjectileHit>>>) -> (Seq<int>, int)
    decreases passes.len(),
{
    if passes.len() == 0 {
        (lives, score)
    } else {
        let (lives1, score1) = projectile_round(lives, score, passes.drop_last());
        let (lives2, destroyed) = pass_from(lives1, passes.last(), 0);
        (lives2, if destroyed { score1 + UFO_DESTROYED_SCORE } else { score1 })
    }
}

/// The score after `kills` UFOs were destroyed, starting from `score`.
pub open spec fn score_after_kills(score: int, kills: int) -> int {
    score + UFO_DESTROYED_SCORE * kills
}

/// In the model of a pass, the number of UFOs stays the same and none of
/// them gains life.
pub proof fn law_pass_never_heals(lives: Seq<int>, hits: Seq<Option<ProjectileHit>>, i: nat)
    ensures
        pass_from(lives, hits, i).0.len() == lives.len(),
        forall|j: int| 0 <= j < lives.len() ==> #[trigger] pass_from(lives, hits, i).0[j] <= lives[j],
    decreases lives.len() - i,
{
    if i < lives.len() {
        let life = life_after_encounter(lives[i as int], hits[i as int]);
        match hits[i as int] {
            Some(h) => law_hit_never_heals(lives[i as int], h),
            None => {},
        }
        let after = lives.update(i as int, life);
        if life > 0 {
            law_pass_never_heals(after, hits, i + 1);
            assert forall|j: int| 0 <= j < lives.len() implies #[trigger] pass_from(lives, hits, i).0[j] <= lives[j] by {
                assert(pass_from(after, hits, i + 1).0[j] <= after[j]);
            }
        }
    }
}

/// In the model of a frame of the projectile-UFO system no UFO gains life,
/// and the score grows by `UFO_DESTROYED_SCORE` for each destroyed UFO, at
/// most one per projectile.
pub proof fn law_round_scores_per_destroyed_ufo(lives: Seq<int>, score: int, passes: Seq<Seq<Option<ProjectileHit>>>)
    ensures
        projectile_round(lives, score, passes).0.len() == lives.len(),
        forall|j: int| 0 <= j < lives.len() ==> #[trigger] projectile_round(lives, score, passes).0[j] <= lives[j],
        exists|k: int| 0 <= k <= passes.len() && projectile_round(lives, score, passes).1 == #[trigger] score_after_kills(score, k),
    decreases passes.len(),
{
    if passes.len() > 0 {
        let rest = passes.drop_last();
        law_round_scores_per_destroyed_ufo(lives, score, rest);
        let (lives1, score1) = projectile_round(lives, score, rest);
        let k1 = choose|k: int| 0 <= k <= rest.len() && score1 == #[trigger] score_after_kills(score, k);
        law_pass_never_heals(lives1, passes.last(), 0);
        let (lives2, destroyed) = pass_from(lives1, passes.last(), 0);
        assert forall|j: int| 0 <= j < lives.len() implies #[trigger] projectile_round(lives, score, passes).0[j] <= lives[j] by {
            assert(lives2[j] <= lives1[j]);
            assert(lives1[j] <= lives[j]);
        }
        if destroyed {
            assert(projectile_round(lives, score, passes).1 == score_after_kills(score, k1 + 1));
        } else {
            assert(projectile_round(lives, score, passes).1 == score_after_kills(score, k1));
        }
    } else {
        assert(projectile_round(lives, score, passes).1 == score_after_kills(score, 0));
    }
}

/// A gun shot, rapid or spread alike, takes exactly one point from a living
/// UFO and leaves a UFO with no life as it is; either shot is used up.
pub proof fn law_gun_shot_takes_one_point(life: int)
    ensures
        life > 0 ==> life_after_hit(life, ProjectileHit::Rapid) == life - 1,
        life > 0 ==> life_after_hit(life, ProjectileHit::Spread) == life - 1,
        life <= 0 ==> life_after_hit(life, ProjectileHit::Rapid) == life,
        life <= 0 ==> life_after_hit(life, ProjectileHit::Spread) == life,
        consumes_projectile(ProjectileHit::Rapid),
        consumes_projectile(ProjectileHit::Spread),
{
}

/// A plasma ball takes its overlap from a living UFO, or the UFO's whole life
/// when the overlap is as deep as that; it leaves a UFO with no life as it is,
/// and is not used up by the hit rule.
pub proof fn law_plasma_takes_its_overlap(life: int, overlap: u32)
    ensures
        life > 0 && overlap < life ==> life_after_hit(life, ProjectileHit::Plasma { overlap })
            == life - overlap,
        life > 0 && overlap >= life ==> life_after_hit(life, ProjectileHit::Plasma { overlap })
            == 0,
        life <= 0 ==> life_after_hit(life, ProjectileHit::Plasma { overlap }) == life,
        !consumes_projectile(ProjectileHit::Plasma { overlap }),
{
}

/// A striking beam takes `BEAM_DAMAGE_PER_HIT` whatever the UFO's life; a beam
/// that does not strike takes nothing; a beam is never used up by a hit.
pub proof fn law_beam_strike_takes_its_damage(life: int, strikes: bool)
    ensures
        strikes ==> life_after_hit(life, ProjectileHit::Beam { strikes }) == life
            - BEAM_DAMAGE_PER_HIT,
        !strikes ==> life_after_hit(life, ProjectileHit::Beam { strikes }) == life,
        BEAM_DAMAGE_PER_HIT > 0,
        !consumes_projectile(ProjectileHit::Beam { strikes }),
{
}

/// An encounter applies exactly the projectile's hit when the two touch, and
/// leaves the UFO as it is when they do not: a striking beam lowers the life
/// by `BEAM_DAMAGE_PER_HIT`, a gun shot lowers a living UFO's life by one.
pub proof fn law_encounter_applies_the_hit(life: int, hit: ProjectileHit)
    ensures
        life_after_encounter(life, Some(hit)) == life_after_hit(life, hit),
        life_after_encounter(life, None) == life,
        life_after_encounter(life, Some(ProjectileHit::Beam { strikes: true })) == life
            - BEAM_DAMAGE_PER_HIT,
        life > 0 ==> life_after_encounter(life, Some(ProjectileHit::Rapid)) == life - 1,
        life > 0 ==> life_after_encounter(life, Some(ProjectileHit::Spread)) == life - 1,
{
}

/// No hit gives a UFO life.
pub proof fn law_hit_never_heals(life: int, hit: ProjectileHit)
    ensures
        life_after_hit(life, hit) <= life,
{
}

/// Guns and plasma never take a living UFO below zero life, so they destroy
/// it exactly when they take its last point.
pub proof fn law_guns_and_plasma_stop_at_zero(life: int, hit: ProjectileHit)
    requires
        life > 0,
        !(hit is Beam),
    ensures
        life_after_hit(life, hit) >= 0,
{
}

/// A hit from a gun or a plasma ball, or no hit.
pub open spec fn beamless(hit: Option<ProjectileHit>) -> bool {
    !(hit is Some && hit->0 is Beam)
}

/// Lives that are all zero or more.
pub open spec fn all_non_negative(lives: Seq<int>) -> bool {
    forall|j: int| 0 <= j < lives.len() ==> #[trigger] lives[j] >= 0
}

/// Hits of a pass that come from guns or plasma only.
pub open spec fn pass_beamless(hits: Seq<Option<ProjectileHit>>) -> bool {
    forall|j: int| 0 <= j < hits.len() ==> beamless(#[trigger] hits[j])
}

/// In the model of a pass with no beam, UFOs with life zero or more keep it
/// zero or more.
pub proof fn law_beamless_pass_keeps_lives_non_negative(lives: Seq<int>, hits: Seq<Option<ProjectileHit>>, i: nat)
    requires
        all_non_negative(lives),
        hits.len() == lives.len(),
        pass_beamless(hits),
    ensures
        all_non_negative(pass_from(lives, hits, i).0),
    decreases lives.len() - i,
{
    if i < lives.len() {
        let life = life_after_encounter(lives[i as int], hits[i as int]);
        assert(beamless(hits[i as int]));
        match hits[i as int] {
            Some(h) => {
                if lives[i as int] > 0 {
                    law_guns_and_plasma_stop_at_zero(lives[i as int], h);
                }
            },
            None => {},
        }
        assert(life >= 0);
        let after = lives.update(i as int, life);
        assert(all_non_negative(after));
        if life > 0 {
            law_beamless_pass_keeps_lives_non_negative(after, hits, i + 1);
        }
    }
}

/// In the model of a frame with no beam, every UFO whose life was zero or more
/// ends the frame with a life between zero and what it had.
pub proof fn law_beamless_round_keeps_lives_in_range(lives: Seq<int>, score: int, passes: Seq<Seq<Option<ProjectileHit>>>)
    requires
        all_non_negative(lives),
        forall|p: int| 0 <= p < passes.len() ==> (#[trigger] passes[p]).len() == lives.len()
            && pass_beamless(passes[p]),
    ensures
        projectile_round(lives, score, passes).0.len() == lives.len(),
        forall|j: int| 0 <= j < lives.len() ==> 0 <= #[trigger] projectile_round(lives, score, passes).0[j] <= lives[j],
    decreases passes.len(),
{
    law_round_scores_per_destroyed_ufo(lives, score, passes);
    if passes.len() > 0 {
        let rest = passes.drop_last();
        assert forall|p: int| 0 <= p < rest.len() implies (#[trigger] rest[p]).len() == lives.len()
            && pass_beamless(rest[p]) by {
            assert(rest[p] == passes[p]);
        }
        law_beamless_round_keeps_lives_in_range(lives, score, rest);
        let (lives1, score1) = projectile_round(lives, score, rest);
        assert(all_non_negative(lives1)) by {
            assert forall|j: int| 0 <= j < lives1.len() implies #[trigger] lives1[j] >= 0 by {
                assert(0 <= projectile_round(lives, score, rest).0[j]);
            }
        }
        assert(passes[passes.len() - 1] == passes.last());
        law_beamless_pass_keeps_lives_non_negative(lives1, passes.last(), 0);
        let (lives2, d) = pass_from(lives1, passes.last(), 0);
        assert forall|j: int| 0 <= j < lives.len() implies 0 <= #[trigger] projectile_round(lives, score, passes).0[j] by {
            assert(lives2[j] >= 0);
        }
    }
}

/// The life of a UFO after `n` gun shots.
pub open spec fn life_after_shots(life: int, n: nat) -> int
    decreases n,
{
    if n == 0 {
        life
    } else {
        life_after_hit(life_after_shots(life, (n - 1) as nat), ProjectileHit::Rapid)
    }
}

/// Each gun shot takes one point of life until none is left: after `n` shots
/// a UFO of life `life` has `life - n` left, but never less than zero.
pub proof fn law_shots_count_down(life: int, n: nat)
    requires
        life >= 0,
    ensures
        life_after_shots(life, n) == if life >= n { life - n } else { 0 },
    decreases n,
{
    if n > 0 {
        law_shots_count_down(life, (n - 1) as nat);
    }
}

/// The shield level and the lives of the ship.
#[derive(Clone, Copy, Debug, PartialEq, Eq, Structural)]
pub struct ShipHealth {
    pub shield_level: u32,
    pub lives: u32,
}

/// What a collision with a UFO or a UFO's laser does to the ship.
#[derive(Clone, Copy, Debug, PartialEq, Eq, Structural)]
pub enum ShipHitOutcome {
    /// The shield took the hit and lost one level; the ship bounces off.
    Shielded,
    /// The ship was destroyed and lost a life (none when it had none).
    Destroyed,
}

/// The ship's health after a hit: a shield level is lost while there is one;
/// otherwise a life is lost, and no life is left once there is none.
pub open spec fn health_after_hit(before: ShipHealth) -> ShipHealth {
    if before.shield_level > 0 {
        ShipHealth { shield_level: (before.shield_level - 1) as u32, lives: before.lives }
    } else {
        ShipHealth { shield_level: 0, lives: (if before.lives > 0 { before.lives - 1 } else { 0 }) as u32 }
    }
}

impl ShipHealth {
    /// Applies a collision of the ship with a UFO or a UFO's laser.
    pub fn take_hit(&mut self) -> (outcome: ShipHitOutcome)
        ensures
            *final(self) == health_after_hit(*old(self)),
            outcome == (if old(self).shield_level > 0 {
                ShipHitOutcome::Shielded
            } else {
                ShipHitOutcome::Destroyed
            }),
    {
        if self.shield_level > 0 {
            self.shield_level = self.shield_level - 1;
            ShipHitOutcome::Shielded
        } else {
            self.lives = max_u32(self.lives, 1) - 1;
            ShipHitOutcome::Destroyed
        }
    }
}

/// Each hit costs the ship exactly one point of shield or one life, shield
/// first, until it has neither left.
pub proof fn law_hit_costs_one_point(before: ShipHealth)
    ensures
        ({
            let after = health_after_hit(before);
            &&& before.shield_level + before.lives > 0 ==> after.shield_level + after.lives
                == before.shield_level + before.lives - 1
            &&& before.shield_level + before.lives == 0 ==> after == before
            &&& before.shield_level > 0 ==> after.lives == before.lives
        }),
{
}

/// A hit with no shield left costs the ship a life, one at most and none when
/// it has none, and leaves the shield at zero; a hit with a shield costs one
/// shield level and no life. Neither the shield nor the lives ever grow.
pub proof fn law_hit_splits_between_shield_and_lives(before: ShipHealth)
    ensures
        before.shield_level == 0 ==> health_after_hit(before).shield_level == 0,
        before.shield_level == 0 && before.lives > 0 ==> health_after_hit(before).lives
            == before.lives - 1,
        before.shield_level == 0 && before.lives == 0 ==> health_after_hit(before).lives == 0,
        before.shield_level > 0 ==> health_after_hit(before).shield_level == before.shield_level
            - 1,
        before.shield_level > 0 ==> health_after_hit(before).lives == before.lives,
        health_after_hit(before).shield_level <= before.shield_level,
        health_after_hit(before).lives <= before.lives,
{
}

/// The frame of a looping animation of `frame_count` frames that shows after
/// `elapsed_frames` frame durations.
pub fn animation_frame(elapsed_frames: usize, frame_count: usize) -> (frame: usize)
    requires
        frame_count > 0,
    ensures
        frame == elapsed_frames % frame_count,
        frame < frame_count,
{
    elapsed_frames % frame_count
}

} // verus!
