use vstd::prelude::*;
use crate::body::{BodyId, body_lookup, lookup_body};
use crate::geometry::{Vec3, clamp_i64, saturating_offset};

verus! {

/// Farthest distance, in whole units, at which a ray from the cursor picks a
/// body.
pub const PICK_MAX_DISTANCE: u32 = 1000;

/// Whether a ball is being dragged, and which.
#[derive(Clone, Copy, Debug, PartialEq, Eq, Structural)]
pub enum DragState {
    Idle,
    Dragging { target: BodyId },
}

/// The pointer's side of the session: the body under the cursor, the drag in
/// progress, and the position (micro-units) of the kinematic body that
/// stands for the pointer in the world. A joint ties that body to the
/// dragged ball exactly while the state is `Dragging`.
#[derive(Clone, Copy, Debug, PartialEq, Eq, Structural)]
pub struct CursorState {
    pub current_hit_entity: Option<BodyId>,
    pub drag: DragState,
    pub interactor_position: Vec3,
}

/// The state after recording the result of this tick's pick.
pub open spec fn with_hover(s: CursorState, hit: Option<BodyId>) -> CursorState {
    CursorState { current_hit_entity: hit, ..s }
}

/// `p` moved by `(dx, -dy) * dt_us`, each coordinate saturating.
pub open spec fn moved_by(p: Vec3, motion: (i32, i32), dt_us: u32) -> Vec3 {
    Vec3 {
        x: clamp_i64(p.x + motion.0 * dt_us),
        y: clamp_i64(p.y - motion.1 * dt_us),
        z: p.z,
    }
}

/// `p` moved by each of `motions` in turn.
pub open spec fn dragged_position(p: Vec3, motions: Seq<(i32, i32)>, dt_us: u32) -> Vec3
    decreases motions.len(),
{
    if motions.len() == 0 {
        p
    } else {
        moved_by(dragged_position(p, motions.drop_last(), dt_us), motions.last(), dt_us)
    }
}

/// The start of a press: the next state, and the ball that a joint is to tie
/// to the pointer's body, if any.
pub open spec fn selection_step(
    s: CursorState,
    just_pressed: bool,
    positions: Seq<(BodyId, Vec3)>,
) -> (CursorState, Option<BodyId>) {
    match (just_pressed, s.drag, s.current_hit_entity) {
        (true, DragState::Idle, Some(t)) => (
            CursorState {
                drag: DragState::Dragging { target: t },
                interactor_position: match body_lookup(positions, t) {
                    Some(p) => p,
                    None => s.interactor_position,
                },
                ..s
            },
            Some(t),
        ),
        _ => (s, None),
    }
}

/// The end of a press: the next state, and the ball whose joint is to be
/// removed, if any.
pub open spec fn release_step(s: CursorState, just_released: bool) -> (CursorState, Option<BodyId>) {
    match (just_released, s.drag) {
        (true, DragState::Dragging { target }) => (CursorState { drag: DragState::Idle, ..s }, Some(target)),
        _ => (s, None),
    }
}

/// How many drag joints the world holds in state `s`.
pub open spec fn joints_in(s: CursorState) -> nat {
    match s.drag {
        DragState::Idle => 0,
        DragState::Dragging { .. } => 1,
    }
}

impl CursorState {
    /// The session's start: nothing hovered, no drag, and the pointer's body
    /// at the world origin.
    pub fn setup_cursor_entity() -> (r: CursorState)
        ensures
            r.current_hit_entity.is_none(),
            r.drag == DragState::Idle,
            r.interactor_position == (Vec3 { x: 0, y: 0, z: 0 }),
    {
        CursorState {
            current_hit_entity: None,
            drag: DragState::Idle,
            interactor_position: Vec3::zero(),
        }
    }

    /// Records the nearest body hit by the ray through the cursor, or `None`
    /// when nothing was hit or there was no ray (cursor outside the window).
    pub fn my_cursor_system(&mut self, hit: Option<BodyId>)
        ensures
            *final(self) == with_hover(*old(self), hit),
    {
        self.current_hit_entity = hit;
    }

    pub fn is_dragging(&self) -> (r: bool)
        ensures
            r == (self.drag != DragState::Idle),
    {
        match self.drag {
            DragState::Idle => false,
            DragState::Dragging { .. } => true,
        }
    }

    /// The start of a press: when idle with a body under the cursor, starts
    /// dragging it, moves the pointer's body onto it (its position taken from
    /// `positions`, if there) and returns it: a joint is to be made between
    /// the two. Otherwise nothing changes.
    pub fn handle_drag_selection(
        &mut self,
        just_pressed: bool,
        positions: &Vec<(BodyId, Vec3)>,
    ) -> (r: Option<BodyId>)
        ensures
            (*final(self), r) == selection_step(*old(self), just_pressed, positions@),
    {
        if !just_pressed {
            return None;
        }
        match (self.drag, self.current_hit_entity) {
            (DragState::Idle, Some(t)) => {
                self.drag = DragState::Dragging { target: t };
                if let Some(p) = lookup_body(positions, t) {
                    self.interactor_position = p;
                }
                Some(t)
            },
            _ => None,
        }
    }

    /// The end of a press: when dragging, stops and returns the dragged ball,
    /// whose joint to the pointer's body is to be removed. Otherwise nothing
    /// changes.
    pub fn handle_drag_release(&mut self, just_released: bool) -> (r: Option<BodyId>)
        ensures
            (*final(self), r) == release_step(*old(self), just_released),
    {
        if !just_released {
            return None;
        }
        match self.drag {
            DragState::Dragging { target } => {
                self.drag = DragState::Idle;
                Some(target)
            },
            DragState::Idle => None,
        }
    }

    /// While dragging, moves the pointer's body by this tick's pointer
    /// motions `(dx, dy)`, each scaled by the tick's length `dt_us`, with
    /// the screen's downward y turned upward. Idle, nothing changes.
    pub fn handle_drag(&mut self, motions: &Vec<(i32, i32)>, dt_us: u32)
        ensures
            old(self).drag == DragState::Idle ==> *final(self) == *old(self),
            old(self).drag != DragState::Idle ==> *final(self) == (CursorState {
                interactor_position: dragged_position(old(self).interactor_position, motions@, dt_us),
                ..*old(self)
            }),
    {
        if !self.is_dragging() {
            return;
        }
        let ghost start = self.interactor_position;
        let mut i: usize = 0;
        while i < motions.len()
            invariant
                i <= motions@.len(),
                self.drag == old(self).drag,
                self.current_hit_entity == old(self).current_hit_entity,
                self.interactor_position == dragged_position(start, motions@.take(i as int), dt_us),
            decreases motions@.len() - i,
        {
            assert(motions@.take(i as int + 1).drop_last() =~= motions@.take(i as int));
            let (dx, dy) = motions[i];
            proof {
                let (a, b, t) = (dx as int, dy as int, dt_us as int);
                assert(i64::MIN < a * t <= i64::MAX && i64::MIN < b * t <= i64::MAX)
                    by (nonlinear_arith)
                    requires
                        i32::MIN <= a <= i32::MAX,
                        i32::MIN <= b <= i32::MAX,
                        0 <= t <= u32::MAX,
                ;
            }
            let step_x: i64 = dx as i64 * dt_us as i64;
            let step_y: i64 = -(dy as i64 * dt_us as i64);
            let p = self.interactor_position;
            self.interactor_position = Vec3::new(
                saturating_offset(p.x, step_x),
                saturating_offset(p.y, step_y),
                p.z,
            );
            assert(motions@.take(i as int + 1).last() == motions@[i as int]);
            i = i + 1;
        }
        assert(motions@.take(i as int) =~= motions@);
    }
}

/// Recording the same pick twice leaves the state as recording it once: the
/// hovered slot depends on this tick's pick alone.
pub proof fn lemma_pick_idempotent(s: CursorState, hit: Option<BodyId>)
    ensures
        with_hover(with_hover(s, hit), hit) == with_hover(s, hit),
        with_hover(s, hit).current_hit_entity == hit,
{
}

/// A drag joint exists exactly while dragging, so there is never more than
/// one: from a world that holds `joints` drag joints, in agreement with the
/// state, making the joint that a press asks for, or removing the one that a
/// release names, leaves the world in agreement with the new state.
pub proof fn lemma_one_joint_exactly_while_dragging(
    s: CursorState,
    joints: nat,
    just_pressed: bool,
    just_released: bool,
    positions: Seq<(BodyId, Vec3)>,
)
    requires
        joints == joints_in(s),
    ensures
        ({
            let (next, made) = selection_step(s, just_pressed, positions);
            &&& joints + (if made.is_some() { 1nat } else { 0nat }) == joints_in(next)
            &&& joints_in(next) <= 1
            &&& made.is_some() ==> next.drag == (DragState::Dragging { target: made.unwrap() })
        }),
        ({
            let (next, removed) = release_step(s, just_released);
            &&& removed.is_some() ==> joints >= 1
            &&& joints - (if removed.is_some() { 1int } else { 0int }) == joints_in(next)
        }),
        !just_released ==> release_step(s, just_released).0 == s,
        s.drag == DragState::Idle ==> release_step(s, just_released) == (s, None::<BodyId>),
        s.current_hit_entity.is_none() ==> selection_step(s, just_pressed, positions) == (s, None::<BodyId>),
{
}

/// Total horizontal travel, in micro-units, of `motions` over a tick of
/// length `dt_us`.
pub open spec fn travel_x(motions: Seq<(i32, i32)>, dt_us: u32) -> int
    decreases motions.len(),
{
    if motions.len() == 0 {
        0
    } else {
        travel_x(motions.drop_last(), dt_us) + motions.last().0 * dt_us
    }
}

/// Total vertical screen travel, in micro-units, of `motions` over a tick of
/// length `dt_us` (screen y grows downward).
pub open spec fn travel_y(motions: Seq<(i32, i32)>, dt_us: u32) -> int
    decreases motions.len(),
{
    if motions.len() == 0 {
        0
    } else {
        travel_y(motions.drop_last(), dt_us) + motions.last().1 * dt_us
    }
}

pub open spec fn fits_i64(v: int) -> bool {
    i64::MIN <= v <= i64::MAX
}

/// No coordinate of the pointer's body leaves the range of `i64` while it
/// moves from `p` by each of `motions` in turn.
pub open spec fn stays_in_range(p: Vec3, motions: Seq<(i32, i32)>, dt_us: u32) -> bool {
    forall|k: int|
        0 <= k <= motions.len() ==> fits_i64(p.x + #[trigger] travel_x(motions.take(k), dt_us))
            && fits_i64(p.y - travel_y(motions.take(k), dt_us))
}

/// Within one tick, away from the bounds of `i64`, the pointer's body moves
/// by exactly the sum of its motions times the tick's length.
pub proof fn lemma_tick_travel(p: Vec3, motions: Seq<(i32, i32)>, dt_us: u32)
    requires
        stays_in_range(p, motions, dt_us),
    ensures
        dragged_position(p, motions, dt_us) == (Vec3 {
            x: (p.x + travel_x(motions, dt_us)) as i64,
            y: (p.y - travel_y(motions, dt_us)) as i64,
            z: p.z,
        }),
        fits_i64(p.x + travel_x(motions, dt_us)),
        fits_i64(p.y - travel_y(motions, dt_us)),
    decreases motions.len(),
{
    assert(motions.take(motions.len() as int) =~= motions);
    assert(fits_i64(p.x + travel_x(motions.take(motions.len() as int), dt_us)));
    if motions.len() > 0 {
        let rest = motions.drop_last();
        assert forall|k: int| 0 <= k <= rest.len() implies fits_i64(p.x + #[trigger] travel_x(rest.take(k), dt_us))
            && fits_i64(p.y - travel_y(rest.take(k), dt_us)) by {
            assert(rest.take(k) =~= motions.take(k));
            assert(fits_i64(p.x + travel_x(motions.take(k), dt_us)));
            assert(fits_i64(p.y - travel_y(motions.take(k), dt_us)));
        }
        assert(stays_in_range(p, rest, dt_us));
        lemma_tick_travel(p, rest, dt_us);
    }
}

/// Total horizontal travel over a run of ticks, each its motions and length.
pub open spec fn run_travel_x(ticks: Seq<(Seq<(i32, i32)>, u32)>) -> int
    decreases ticks.len(),
{
    if ticks.len() == 0 {
        0
    } else {
        run_travel_x(ticks.drop_last()) + travel_x(ticks.last().0, ticks.last().1)
    }
}

/// Total vertical screen travel over a run of ticks.
pub open spec fn run_travel_y(ticks: Seq<(Seq<(i32, i32)>, u32)>) -> int
    decreases ticks.len(),
{
    if ticks.len() == 0 {
        0
    } else {
        run_travel_y(ticks.drop_last()) + travel_y(ticks.last().0, ticks.last().1)
    }
}

/// Over a run of drag ticks, as successive calls of `handle_drag` while
/// dragging see them (`positions[k]` before tick `k`, `positions[k + 1]`
/// after), and away from the bounds of `i64`, the pointer's body ends up
/// displaced by exactly the run's total travel, with screen y turned upward:
/// dragging 10 units right over any split of one second moves it by
/// (10, 0, 0).
pub proof fn lemma_drag_run_displacement(positions: Seq<Vec3>, ticks: Seq<(Seq<(i32, i32)>, u32)>)
    requires
        positions.len() == ticks.len() + 1,
        forall|k: int|
            0 <= k < ticks.len() ==> #[trigger] positions[k + 1] == dragged_position(
                positions[k],
                ticks[k].0,
                ticks[k].1,
            ),
        forall|k: int| 0 <= k < ticks.len() ==> #[trigger] stays_in_range(positions[k], ticks[k].0, ticks[k].1),
    ensures
        positions.last().x == positions[0].x + run_travel_x(ticks),
        positions.last().y == positions[0].y - run_travel_y(ticks),
        positions.last().z == positions[0].z,
    decreases ticks.len(),
{
    if ticks.len() > 0 {
        let n = ticks.len() - 1;
        let ps = positions.drop_last();
        let ts = ticks.drop_last();
        assert forall|k: int| 0 <= k < ts.len() implies #[trigger] ps[k + 1] == dragged_position(ps[k], ts[k].0, ts[k].1) by {
            assert(positions[k + 1] == dragged_position(positions[k], ticks[k].0, ticks[k].1));
        }
        assert forall|k: int| 0 <= k < ts.len() implies #[trigger] stays_in_range(ps[k], ts[k].0, ts[k].1) by {
            assert(stays_in_range(positions[k], ticks[k].0, ticks[k].1));
        }
        lemma_drag_run_displacement(ps, ts);
        assert(positions[n + 1] == dragged_position(positions[n], ticks[n].0, ticks[n].1));
        assert(stays_in_range(positions[n], ticks[n].0, ticks[n].1));
        lemma_tick_travel(positions[n], ticks[n].0, ticks[n].1);
        assert(ps.last() == positions[n]);
        assert(ticks.last() == ticks[n]);
        assert(positions.last() == positions[n + 1]);
        assert(ps[0] == positions[0]);
    }
}

} // verus!
