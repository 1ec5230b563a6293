use vstd::prelude::*;
use crate::body::{BodyId, body_lookup, lookup_body};
use crate::geometry::{Vec3, distance_sq};

verus! {

/// Full-scale volume, in thousandths.
pub const FULL_VOLUME: u64 = 1000;

/// Relative speed, in milli-units per second, per thousandth of volume:
/// 10 units per second give full volume.
pub const SPEED_PER_VOLUME_STEP: u64 = 10;

/// A tick's loudest impact is heard when its squared relative speed, in
/// (milli-units per second) squared, exceeds this: a speed of 2 units per
/// second, the speed whose volume is one fifth of full scale.
pub const TRIGGER_SPEED_SQ: u64 = 4_000_000;

/// Squared relative speed from which on the volume is full (10 units per
/// second); larger speeds are counted as this one.
pub const FULL_SPEED_SQ: u64 = 100_000_000;

/// Minimum time, in microseconds, that must have been counted since the
/// last sound before another one is played.
pub const COOLDOWN_US: u64 = 20_000;

/// A contact between two bodies starting or ending, as the physics world
/// reports it.
#[derive(Clone, Copy, Debug, PartialEq, Eq, Structural)]
pub enum CollisionEvent {
    Started(BodyId, BodyId),
    Stopped(BodyId, BodyId),
}

/// The two participants of an event, and whether the contact started.
pub open spec fn event_parts(e: CollisionEvent) -> (BodyId, BodyId, bool) {
    match e {
        CollisionEvent::Started(a, b) => (a, b, true),
        CollisionEvent::Stopped(a, b) => (a, b, false),
    }
}

pub fn unpack_collision_event(event: &CollisionEvent) -> (r: (BodyId, BodyId, bool))
    ensures
        r == event_parts(*event),
{
    match event {
        CollisionEvent::Started(a, b) => (*a, *b, true),
        CollisionEvent::Stopped(a, b) => (*a, *b, false),
    }
}

/// The volume for squared relative speed `speed_sq`, searching upwards from
/// `v`: the first step whose next one would need more speed than there is.
pub open spec fn volume_search(speed_sq: int, v: nat) -> nat
    decreases FULL_VOLUME - v,
{
    if v >= FULL_VOLUME {
        FULL_VOLUME as nat
    } else if (SPEED_PER_VOLUME_STEP * (v + 1)) * (SPEED_PER_VOLUME_STEP * (v + 1)) <= speed_sq {
        volume_search(speed_sq, v + 1)
    } else {
        v
    }
}

/// The volume, in thousandths, of an impact whose relative velocity has
/// squared length `speed_sq`: the relative speed divided by ten units per
/// second, rounded down and capped at full volume.
pub open spec fn volume_of(speed_sq: int) -> nat {
    volume_search(speed_sq, 0)
}

/// The volume of an impact between bodies moving at `a` and `b`.
pub open spec fn impact_volume_spec(a: Vec3, b: Vec3) -> nat {
    volume_of(distance_sq(a, b))
}


/// The squared relative speed of bodies moving at `a` and `b`, counted no
/// higher than `FULL_SPEED_SQ`.
pub open spec fn capped_speed_sq(a: Vec3, b: Vec3) -> nat {
    if distance_sq(a, b) >= FULL_SPEED_SQ {
        FULL_SPEED_SQ as nat
    } else {
        distance_sq(a, b) as nat
    }
}

/// The squared speed an event contributes: nothing unless both bodies have a
/// velocity.
pub open spec fn event_speed_sq(e: CollisionEvent, velocities: Seq<(BodyId, Vec3)>) -> nat {
    let (a, b, _started) = event_parts(e);
    match (body_lookup(velocities, a), body_lookup(velocities, b)) {
        (Some(va), Some(vb)) => capped_speed_sq(va, vb),
        _ => 0,
    }
}

/// The (capped) squared speed of the loudest impact among `events`, or zero.
pub open spec fn max_speed_sq(events: Seq<CollisionEvent>, velocities: Seq<(BodyId, Vec3)>) -> nat
    decreases events.len(),
{
    if events.len() == 0 {
        0
    } else {
        let prev = max_speed_sq(events.drop_last(), velocities);
        let cur = event_speed_sq(events.last(), velocities);
        if cur > prev {
            cur
        } else {
            prev
        }
    }
}

proof fn lemma_volume_search_bounds(s: int, v: nat)
    requires
        v <= FULL_VOLUME,
    ensures
        v <= volume_search(s, v) <= FULL_VOLUME,
    decreases FULL_VOLUME - v,
{
    if v < FULL_VOLUME && (SPEED_PER_VOLUME_STEP * (v + 1)) * (SPEED_PER_VOLUME_STEP * (v + 1)) <= s {
        lemma_volume_search_bounds(s, v + 1);
    }
}

proof fn lemma_volume_search_monotone(s1: int, s2: int, v: nat)
    requires
        s1 <= s2,
        v <= FULL_VOLUME,
    ensures
        volume_search(s1, v) <= volume_search(s2, v),
    decreases FULL_VOLUME - v,
{
    lemma_volume_search_bounds(s2, v);
    if v < FULL_VOLUME && (SPEED_PER_VOLUME_STEP * (v + 1)) * (SPEED_PER_VOLUME_STEP * (v + 1)) <= s1 {
        lemma_volume_search_monotone(s1, s2, v + 1);
    }
}

proof fn lemma_volume_search_exact(s: int, v: nat)
    requires
        v <= FULL_VOLUME,
        (SPEED_PER_VOLUME_STEP * v) * (SPEED_PER_VOLUME_STEP * v) <= s,
    ensures
        ({
            let r = volume_search(s, v);
            &&& (SPEED_PER_VOLUME_STEP * r) * (SPEED_PER_VOLUME_STEP * r) <= s
            &&& r < FULL_VOLUME ==> s < (SPEED_PER_VOLUME_STEP * (r + 1)) * (SPEED_PER_VOLUME_STEP * (r + 1))
        }),
    decreases FULL_VOLUME - v,
{
    if v < FULL_VOLUME && (SPEED_PER_VOLUME_STEP * (v + 1)) * (SPEED_PER_VOLUME_STEP * (v + 1)) <= s {
        lemma_volume_search_exact(s, v + 1);
    }
}

/// Impact volumes lie between zero and full volume, never decrease as the
/// relative speed grows, and are exactly the relative speed over ten units
/// per second, rounded down, below saturation: `r` is the largest step not
/// above full volume whose speed `10 * r` (milli-units per second) is reached.
pub proof fn lemma_volume_bounded_monotone(s1: int, s2: int)
    requires
        0 <= s1 <= s2,
    ensures
        0 <= volume_of(s1) <= volume_of(s2) <= FULL_VOLUME,
        (SPEED_PER_VOLUME_STEP * volume_of(s1)) * (SPEED_PER_VOLUME_STEP * volume_of(s1)) <= s1,
        volume_of(s1) < FULL_VOLUME ==> s1 < (SPEED_PER_VOLUME_STEP * (volume_of(s1) + 1)) * (
        SPEED_PER_VOLUME_STEP * (volume_of(s1) + 1)),
{
    lemma_volume_search_bounds(s2, 0);
    lemma_volume_search_monotone(s1, s2, 0);
    assert((SPEED_PER_VOLUME_STEP * 0) * (SPEED_PER_VOLUME_STEP * 0) == 0) by (nonlinear_arith);
    lemma_volume_search_exact(s1, 0);
}

/// Once the relative speed reaches ten units per second the volume is full.
proof fn lemma_volume_saturates(s: int)
    requires
        s >= FULL_SPEED_SQ,
    ensures
        volume_of(s) == FULL_VOLUME,
{
    assert(FULL_SPEED_SQ == (SPEED_PER_VOLUME_STEP * FULL_VOLUME) * (SPEED_PER_VOLUME_STEP * FULL_VOLUME))
        by (nonlinear_arith);
    lemma_volume_search_bounds(s, 0);
    assert((SPEED_PER_VOLUME_STEP * 0) * (SPEED_PER_VOLUME_STEP * 0) == 0) by (nonlinear_arith);
    lemma_volume_search_exact(s, 0);
    let r = volume_of(s);
    if r < FULL_VOLUME {
        assert((SPEED_PER_VOLUME_STEP * (r + 1)) * (SPEED_PER_VOLUME_STEP * (r + 1))
            <= (SPEED_PER_VOLUME_STEP * FULL_VOLUME) * (SPEED_PER_VOLUME_STEP * FULL_VOLUME))
            by (nonlinear_arith)
            requires
                r + 1 <= FULL_VOLUME,
        ;
    }
}


/// The volume for a squared relative speed, found by stepping up one
/// thousandth at a time below saturation.
pub fn volume_for_speed_sq(speed_sq: u64) -> (r: u64)
    ensures
        r == volume_of(speed_sq as int),
        r <= FULL_VOLUME,
{
    proof {
        lemma_volume_search_bounds(speed_sq as int, 0);
    }
    if speed_sq >= FULL_SPEED_SQ {
        proof {
            lemma_volume_saturates(speed_sq as int);
        }
        return FULL_VOLUME;
    }
    let mut v: u64 = 0;
    while v < FULL_VOLUME
        invariant
            v <= FULL_VOLUME,
            volume_search(speed_sq as int, v as nat) == volume_of(speed_sq as int),
        decreases FULL_VOLUME - v,
    {
        let step: u64 = SPEED_PER_VOLUME_STEP * (v + 1);
        assert(step * step <= 100_000_000) by (nonlinear_arith)
            requires
                step <= 10_000,
        ;
        if step * step > speed_sq {
            return v;
        }
        v = v + 1;
    }
    v
}

/// The squared relative speed of bodies moving at `a` and `b` (milli-units
/// per second), capped at `FULL_SPEED_SQ`.
pub fn impact_speed_sq(a: Vec3, b: Vec3) -> (r: u64)
    ensures
        r == capped_speed_sq(a, b),
        r <= FULL_SPEED_SQ,
{
    let dx: i128 = a.x as i128 - b.x as i128;
    let dy: i128 = a.y as i128 - b.y as i128;
    let dz: i128 = a.z as i128 - b.z as i128;
    let full: i128 = (SPEED_PER_VOLUME_STEP * FULL_VOLUME) as i128;
    proof {
        assert(dx * dx >= 0) by (nonlinear_arith);
        assert(dy * dy >= 0) by (nonlinear_arith);
        assert(dz * dz >= 0) by (nonlinear_arith);
    }
    if dx >= full || dx <= -full || dy >= full || dy <= -full || dz >= full || dz <= -full {
        proof {
            let f = full as int;
            assert(dx * dx >= f * f || dy * dy >= f * f || dz * dz >= f * f) by (nonlinear_arith)
                requires
                    f > 0,
                    dx >= f || dx <= -f || dy >= f || dy <= -f || dz >= f || dz <= -f,
            ;
        }
        return FULL_SPEED_SQ;
    }
    proof {
        let f = full as int;
        assert(dx * dx < f * f && dy * dy < f * f && dz * dz < f * f) by (nonlinear_arith)
            requires
                -f < dx < f,
                -f < dy < f,
                -f < dz < f,
        ;
    }
    let s: i128 = dx * dx + dy * dy + dz * dz;
    if s >= FULL_SPEED_SQ as i128 {
        FULL_SPEED_SQ
    } else {
        s as u64
    }
}

/// The volume, in thousandths, of an impact between bodies moving at `a` and
/// `b` (milli-units per second).
pub fn impact_volume(a: Vec3, b: Vec3) -> (r: u64)
    ensures
        r == impact_volume_spec(a, b),
        r <= FULL_VOLUME,
{
    let s = impact_speed_sq(a, b);
    proof {
        let (dx, dy, dz) = (a.x - b.x, a.y - b.y, a.z - b.z);
        assert(dx * dx >= 0 && dy * dy >= 0 && dz * dz >= 0) by (nonlinear_arith);
        if distance_sq(a, b) >= FULL_SPEED_SQ {
            lemma_volume_saturates(distance_sq(a, b));
            lemma_volume_saturates(FULL_SPEED_SQ as int);
        }
    }
    volume_for_speed_sq(s)
}

/// The (capped) squared relative speed of the loudest impact among `events`
/// between bodies that both have a velocity in `velocities`; zero when there
/// is none.
pub fn max_impact_speed_sq(events: &Vec<CollisionEvent>, velocities: &Vec<(BodyId, Vec3)>) -> (r: u64)
    ensures
        r == max_speed_sq(events@, velocities@),
        r <= FULL_SPEED_SQ,
{
    let mut max: u64 = 0;
    let mut i: usize = 0;
    while i < events.len()
        invariant
            i <= events@.len(),
            max == max_speed_sq(events@.take(i as int), velocities@),
            max <= FULL_SPEED_SQ,
        decreases events@.len() - i,
    {
        assert(events@.take(i as int + 1).drop_last() =~= events@.take(i as int));
        let (a, b, _started) = unpack_collision_event(&events[i]);
        let va = lookup_body(velocities, a);
        let vb = lookup_body(velocities, b);
        let cur: u64 = match (va, vb) {
            (Some(va), Some(vb)) => impact_speed_sq(va, vb),
            _ => 0,
        };
        assert(cur == event_speed_sq(events@[i as int], velocities@));
        if cur > max {
            max = cur;
        }
        i = i + 1;
    }
    assert(events@.take(i as int) =~= events@);
    max
}

/// Whether a tick whose loudest impact has squared speed `speed_sq` plays a
/// sound, when `elapsed_us` has been counted since the last one.
pub open spec fn fires(elapsed_us: u64, speed_sq: nat) -> bool {
    speed_sq > TRIGGER_SPEED_SQ && elapsed_us > COOLDOWN_US
}

/// The time counted after a tick of length `delta_us`: restarted from zero
/// when the tick played a sound, and saturating at `u64::MAX`.
pub open spec fn next_elapsed(elapsed_us: u64, speed_sq: nat, delta_us: u64) -> u64 {
    if fires(elapsed_us, speed_sq) {
        delta_us
    } else if elapsed_us + delta_us > u64::MAX {
        u64::MAX
    } else {
        (elapsed_us + delta_us) as u64
    }
}

/// A run of ticks as successive calls see it: `elapsed[k]` is the time
/// counted before tick `k`, whose loudest squared speed and length are
/// `ticks[k]`, and each call takes `elapsed[k]` to `elapsed[k + 1]`.
pub open spec fn is_run(elapsed: Seq<u64>, ticks: Seq<(nat, u64)>) -> bool {
    &&& elapsed.len() == ticks.len() + 1
    &&& forall|k: int|
        0 <= k < ticks.len() ==> #[trigger] elapsed[k + 1] == next_elapsed(elapsed[k], ticks[k].0, ticks[k].1)
}

/// Total length of ticks `i` up to, not including, `j`.
pub open spec fn duration(ticks: Seq<(nat, u64)>, i: nat, j: nat) -> int
    decreases j,
{
    if j <= i {
        0
    } else {
        duration(ticks, i, (j - 1) as nat) + ticks[j - 1].1
    }
}

proof fn lemma_elapsed_bounded_since_sound(elapsed: Seq<u64>, ticks: Seq<(nat, u64)>, i: nat, m: nat)
    requires
        is_run(elapsed, ticks),
        i < m <= ticks.len(),
        fires(elapsed[i as int], ticks[i as int].0),
    ensures
        elapsed[m as int] <= duration(ticks, i, m),
    decreases m,
{
    let p = (m - 1) as nat;
    assert(elapsed[p + 1int] == next_elapsed(elapsed[p as int], ticks[p as int].0, ticks[p as int].1));
    assert(duration(ticks, i, m) == duration(ticks, i, p) + ticks[p as int].1);
    if p > i {
        lemma_elapsed_bounded_since_sound(elapsed, ticks, i, p);
    } else {
        assert(duration(ticks, i, p) == 0);
    }
}

/// No two sounds are played closer together than the cooldown: in a run of
/// calls, between two ticks that both play one, more than `COOLDOWN_US`
/// microseconds of ticks have been counted, however many collisions occurred
/// in between.
pub proof fn lemma_no_retrigger_within_cooldown(elapsed: Seq<u64>, ticks: Seq<(nat, u64)>, i: nat, j: nat)
    requires
        is_run(elapsed, ticks),
        i < j < ticks.len(),
        fires(elapsed[i as int], ticks[i as int].0),
        fires(elapsed[j as int], ticks[j as int].0),
    ensures
        duration(ticks, i, j) > COOLDOWN_US,
{
    lemma_elapsed_bounded_since_sound(elapsed, ticks, i, j);
}

/// A tick is heard exactly when the volume of its loudest impact, before
/// rounding to thousandths, exceeds one fifth of full scale: its relative
/// speed exceeds 2 units per second. The volume played is then at least a
/// fifth of full scale.
pub proof fn lemma_trigger_speed_is_fifth_volume(speed_sq: nat)
    ensures
        speed_sq > TRIGGER_SPEED_SQ ==> volume_of(speed_sq as int) >= FULL_VOLUME / 5,
        speed_sq <= TRIGGER_SPEED_SQ ==> volume_of(speed_sq as int) <= FULL_VOLUME / 5,
{
    lemma_volume_bounded_monotone(speed_sq as int, speed_sq as int);
    let v = volume_of(speed_sq as int);
    if speed_sq > TRIGGER_SPEED_SQ && v < FULL_VOLUME / 5 {
        assert((SPEED_PER_VOLUME_STEP * (v + 1)) * (SPEED_PER_VOLUME_STEP * (v + 1)) <= TRIGGER_SPEED_SQ)
            by (nonlinear_arith)
            requires
                v + 1 <= 200,
        ;
    }
    if speed_sq <= TRIGGER_SPEED_SQ && v > FULL_VOLUME / 5 {
        assert((SPEED_PER_VOLUME_STEP * v) * (SPEED_PER_VOLUME_STEP * v) > TRIGGER_SPEED_SQ)
            by (nonlinear_arith)
            requires
                v >= 201,
        ;
    }
}

/// The debounce state of impact sounds: the time counted since the last one.
#[derive(Clone, Copy, Debug, PartialEq, Eq, Structural)]
pub struct ImpactAudioState {
    pub elapsed_us: u64,
}

impl ImpactAudioState {
    /// A new session's state, with no time counted yet.
    pub fn new() -> (r: ImpactAudioState)
        ensures
            r.elapsed_us == 0,
    {
        ImpactAudioState { elapsed_us: 0 }
    }

    /// Decides one tick, whose loudest impact has squared relative speed
    /// `speed_sq`: returns the volume to play, if any, and counts the tick's
    /// length `delta_us`.
    pub fn trigger(&mut self, speed_sq: u64, delta_us: u64) -> (r: Option<u64>)
        ensures
            r.is_some() == fires(old(self).elapsed_us, speed_sq as nat),
            r.is_some() ==> r == Some(volume_of(speed_sq as int) as u64),
            final(self).elapsed_us == next_elapsed(old(self).elapsed_us, speed_sq as nat, delta_us),
    {
        let fired = speed_sq > TRIGGER_SPEED_SQ && self.elapsed_us > COOLDOWN_US;
        if fired {
            self.elapsed_us = 0;
        }
        self.elapsed_us = self.elapsed_us.saturating_add(delta_us);
        if fired {
            Some(volume_for_speed_sq(speed_sq))
        } else {
            None
        }
    }

    /// Runs once per tick after the physics step: merges this tick's
    /// collision events into their loudest impact and returns the volume of
    /// the sound to play, if any.
    pub fn handle_ball_impact_sounds(
        &mut self,
        events: &Vec<CollisionEvent>,
        velocities: &Vec<(BodyId, Vec3)>,
        delta_us: u64,
    ) -> (r: Option<u64>)
        ensures
            ({
                let m = max_speed_sq(events@, velocities@);
                &&& r.is_some() == fires(old(self).elapsed_us, m)
                &&& r.is_some() ==> r == Some(volume_of(m as int) as u64)
                &&& final(self).elapsed_us == next_elapsed(old(self).elapsed_us, m, delta_us)
            }),
    {
        let speed_sq = max_impact_speed_sq(events, velocities);
        self.trigger(speed_sq, delta_us)
    }
}

} // verus!
