use vstd::prelude::*;
use crate::geometry::Vec3;

verus! {

/// Half the edge of an anchor cube, and the radius of a ball (micro-units).
pub const BALL_RADIUS: i64 = 1_000_000;

/// Distance of each anchor from the unit's origin along the z axis.
pub const ANCHOR_OFFSET: i64 = 15_000_000;

/// Maximum length of a rope.
pub const ROPE_MAX: i64 = 15_000_000;

/// How far below the unit's origin the ball hangs at rest.
pub const BALL_DROP: i64 = 20_000_000;

/// Lateral displacement along x of the ball of the unit that starts struck.
pub const STRUCK_OFFSET: i64 = -12_000_000;

/// Height of the rope attachment points below the ball's centre.
pub const ROPE_ATTACH_HEIGHT: i64 = 300_000;

/// Distance along z, in the ball's frame, of each rope's attachment point
/// from the ball's centre, on the side of its anchor.
pub const ROPE_ATTACH_DEPTH: i64 = 1_100_000;

/// Ball density, in thousandths.
pub const BALL_DENSITY_MILLI: u32 = 2000;

/// Ball restitution, in thousandths: fully elastic.
pub const BALL_RESTITUTION_MILLI: u32 = 1000;

/// Ball friction coefficient, in thousandths.
pub const BALL_FRICTION_MILLI: u32 = 500;

/// Ball linear damping (air resistance), in thousandths.
pub const BALL_LINEAR_DAMPING_MILLI: u32 = 0;

/// Ball angular damping, in thousandths.
pub const BALL_ANGULAR_DAMPING_MILLI: u32 = 0;

/// Number of pendulum units in a cradle.
pub const UNIT_COUNT: usize = 5;

/// x coordinate of the first unit's origin.
pub const FIRST_UNIT_X: i64 = 5_000_000;

/// Spacing between neighbouring unit origins along x: one ball diameter, so
/// that neighbouring balls touch at rest.
pub const UNIT_SPACING: i64 = 2 * BALL_RADIUS;

/// Height of every unit's origin.
pub const UNIT_HEIGHT: i64 = 10_000_000;

/// Largest coordinate magnitude accepted for a unit's origin, so that every
/// body of the unit has coordinates that fit in `i64`.
pub const ORIGIN_LIMIT: i64 = 9_000_000_000_000_000_000;

/// Which of the two fixed anchors of a unit a rope hangs from.
#[derive(Clone, Copy, Debug, PartialEq, Eq, Structural)]
pub enum AnchorSide {
    Front,
    Back,
}

/// A one-sided distance joint from an anchor to the unit's ball: slack below
/// `max_length`, rigid at it. `ball_attach` is the attachment point in the
/// ball's local frame.
#[derive(Clone, Copy, Debug, PartialEq, Eq, Structural)]
pub struct RopeJoint {
    pub anchor: AnchorSide,
    pub ball_attach: Vec3,
    pub min_length: i64,
    pub max_length: i64,
}

/// The dynamic body of a unit: a sphere. `velocity` is its initial linear
/// velocity; `sounding` marks it as a source of impact sounds, and
/// `collision_events` asks the physics world to report its contacts.
#[derive(Clone, Copy, Debug, PartialEq, Eq, Structural)]
pub struct Ball {
    pub position: Vec3,
    pub radius: i64,
    pub velocity: Vec3,
    pub density_milli: u32,
    pub restitution_milli: u32,
    pub friction_milli: u32,
    pub linear_damping_milli: u32,
    pub angular_damping_milli: u32,
    pub sounding: bool,
    pub collision_events: bool,
}

/// One pendulum: two fixed cube anchors, one ball, and the ropes that hang
/// the ball from the anchors.
pub struct CradleUnit {
    pub front_anchor: Vec3,
    pub back_anchor: Vec3,
    pub anchor_half_extent: i64,
    pub ball: Ball,
    pub ropes: Vec<RopeJoint>,
}

pub open spec fn origin_in_range(origin: Vec3) -> bool {
    -ORIGIN_LIMIT <= origin.x <= ORIGIN_LIMIT
    && -ORIGIN_LIMIT <= origin.y <= ORIGIN_LIMIT
    && -ORIGIN_LIMIT <= origin.z <= ORIGIN_LIMIT
}

/// The rope from the front anchor, attached on the ball's front side.
pub open spec fn front_rope() -> RopeJoint {
    RopeJoint {
        anchor: AnchorSide::Front,
        ball_attach: Vec3 { x: 0, y: (-ROPE_ATTACH_HEIGHT) as i64, z: (-ROPE_ATTACH_DEPTH) as i64 },
        min_length: 0,
        max_length: ROPE_MAX,
    }
}

/// The rope from the back anchor, attached on the ball's back side.
pub open spec fn back_rope() -> RopeJoint {
    RopeJoint {
        anchor: AnchorSide::Back,
        ball_attach: Vec3 { x: 0, y: (-ROPE_ATTACH_HEIGHT) as i64, z: ROPE_ATTACH_DEPTH },
        min_length: 0,
        max_length: ROPE_MAX,
    }
}

/// What the unit with origin `origin` is made of; `struck` moves its ball
/// sideways to give it an initial swing.
pub open spec fn is_unit_at(u: CradleUnit, origin: Vec3, struck: bool) -> bool {
    &&& u.front_anchor == (Vec3 { x: origin.x, y: origin.y, z: (origin.z - ANCHOR_OFFSET) as i64 })
    &&& u.back_anchor == (Vec3 { x: origin.x, y: origin.y, z: (origin.z + ANCHOR_OFFSET) as i64 })
    &&& u.anchor_half_extent == BALL_RADIUS
    &&& u.ball == (Ball {
        position: Vec3 {
            x: (origin.x + if struck { STRUCK_OFFSET } else { 0 }) as i64,
            y: (origin.y - BALL_DROP) as i64,
            z: origin.z,
        },
        radius: BALL_RADIUS,
        velocity: Vec3 { x: 0, y: 0, z: 0 },
        density_milli: BALL_DENSITY_MILLI,
        restitution_milli: BALL_RESTITUTION_MILLI,
        friction_milli: BALL_FRICTION_MILLI,
        linear_damping_milli: BALL_LINEAR_DAMPING_MILLI,
        angular_damping_milli: BALL_ANGULAR_DAMPING_MILLI,
        sounding: true,
        collision_events: true,
    })
    &&& u.ropes@ == seq![front_rope(), back_rope()]
}

/// The origin of the `i`-th unit of the cradle.
pub open spec fn unit_origin(i: int) -> Vec3 {
    Vec3 { x: (FIRST_UNIT_X + i * UNIT_SPACING) as i64, y: UNIT_HEIGHT, z: 0 }
}

/// Builds one pendulum unit around `origin`.
pub fn create_rope_joints(origin: Vec3, use_dz: bool) -> (r: CradleUnit)
    requires
        origin_in_range(origin),
    ensures
        is_unit_at(r, origin, use_dz),
{
    let front_anchor = Vec3::new(origin.x, origin.y, origin.z - ANCHOR_OFFSET);
    let back_anchor = Vec3::new(origin.x, origin.y, origin.z + ANCHOR_OFFSET);
    let dz: i64 = if use_dz { STRUCK_OFFSET } else { 0 };
    let front = RopeJoint {
        anchor: AnchorSide::Front,
        ball_attach: Vec3::new(0, -ROPE_ATTACH_HEIGHT, -ROPE_ATTACH_DEPTH),
        min_length: 0,
        max_length: ROPE_MAX,
    };
    let back = RopeJoint {
        anchor: AnchorSide::Back,
        ball_attach: Vec3::new(0, -ROPE_ATTACH_HEIGHT, ROPE_ATTACH_DEPTH),
        min_length: 0,
        max_length: ROPE_MAX,
    };
    let ball = Ball {
        position: Vec3::new(origin.x + dz, origin.y - BALL_DROP, origin.z),
        radius: BALL_RADIUS,
        velocity: Vec3::zero(),
        density_milli: BALL_DENSITY_MILLI,
        restitution_milli: BALL_RESTITUTION_MILLI,
        friction_milli: BALL_FRICTION_MILLI,
        linear_damping_milli: BALL_LINEAR_DAMPING_MILLI,
        angular_damping_milli: BALL_ANGULAR_DAMPING_MILLI,
        sounding: true,
        collision_events: true,
    };
    let mut ropes: Vec<RopeJoint> = Vec::new();
    ropes.push(front);
    ropes.push(back);
    assert(ropes@ =~= seq![front_rope(), back_rope()]);
    CradleUnit { front_anchor, back_anchor, anchor_half_extent: BALL_RADIUS, ball, ropes }
}

/// Builds the whole cradle: `UNIT_COUNT` units in a row along x, the first
/// of them struck.
pub fn setup_newtons_cradle() -> (r: Vec<CradleUnit>)
    ensures
        r@.len() == UNIT_COUNT,
        forall|i: int| 0 <= i < UNIT_COUNT ==> is_unit_at(#[trigger] r@[i], unit_origin(i), i == 0),
{
    let mut units: Vec<CradleUnit> = Vec::new();
    let mut i: usize = 0;
    while i < UNIT_COUNT
        invariant
            i <= UNIT_COUNT,
            units@.len() == i,
            forall|k: int| 0 <= k < i ==> is_unit_at(#[trigger] units@[k], unit_origin(k), k == 0),
        decreases UNIT_COUNT - i,
    {
        let origin = Vec3::new(FIRST_UNIT_X + (i as i64) * UNIT_SPACING, UNIT_HEIGHT, 0);
        assert(origin == unit_origin(i as int));
        let unit = create_rope_joints(origin, i == 0);
        units.push(unit);
        i = i + 1;
    }
    units
}

/// Every unit of the cradle hangs its ball from exactly two ropes, one from
/// each of its two distinct anchors, of equal limits, whose attachment points
/// on the ball mirror each other across the swing plane (the plane through
/// the ball's centre normal to the anchors' z axis). The anchors themselves
/// stand symmetrically about that plane.
pub proof fn lemma_unit_has_two_symmetric_ropes(u: CradleUnit, origin: Vec3, struck: bool)
    requires
        is_unit_at(u, origin, struck),
    ensures
        u.ropes@.len() == 2,
        u.ropes@[0].anchor == AnchorSide::Front,
        u.ropes@[1].anchor == AnchorSide::Back,
        u.ropes@[0].anchor != u.ropes@[1].anchor,
        u.ropes@[0].ball_attach.x == u.ropes@[1].ball_attach.x,
        u.ropes@[0].ball_attach.y == u.ropes@[1].ball_attach.y,
        u.ropes@[0].ball_attach.z == -u.ropes@[1].ball_attach.z,
        u.ropes@[0].ball_attach.z != 0,
        u.ropes@[0].min_length == u.ropes@[1].min_length,
        u.ropes@[0].max_length == u.ropes@[1].max_length,
        u.ball.position.z == origin.z,
        origin_in_range(origin) ==> u.front_anchor.z + u.back_anchor.z == 2 * origin.z,
{
}

/// Neighbouring balls of the cradle touch at rest: their centres lie one
/// diameter apart along x, at the same height and depth.
pub proof fn lemma_neighbouring_balls_touch(units: Seq<CradleUnit>, i: int)
    requires
        units.len() == UNIT_COUNT,
        forall|k: int| 0 <= k < UNIT_COUNT ==> is_unit_at(#[trigger] units[k], unit_origin(k), k == 0),
        1 <= i < UNIT_COUNT - 1,
    ensures
        units[i + 1].ball.position.x - units[i].ball.position.x == 2 * units[i].ball.radius,
        units[i + 1].ball.radius == units[i].ball.radius,
        units[i + 1].ball.position.y == units[i].ball.position.y,
        units[i + 1].ball.position.z == units[i].ball.position.z,
{
    assert(is_unit_at(units[i], unit_origin(i), false));
    assert(is_unit_at(units[i + 1], unit_origin(i + 1), false));
}

} // verus!
