//! The population of a synthetic galaxy.
//!
//! A generator decides how many bodies there are, in which order they stand
//! and, for the bodies of the spiral arms, at which whole number of degrees
//! each one sits and which way it heads. Those are integers. Turning a slot
//! into a position and a velocity takes trigonometry and, for the field
//! bodies, a random source; that is left to the caller, which realises each
//! slot in the order given here.

use vstd::prelude::*;
use vstd::arithmetic::div_mod::{
    lemma_fundamental_div_mod,
    lemma_fundamental_div_mod_converse_div,
    lemma_fundamental_div_mod_converse_mod,
};

verus! {

/// Mass of a body of a spiral arm.
pub const ARM_BODY_MASS: u32 = 2;

/// Mass of a field body.
pub const FIELD_BODY_MASS: u32 = 1;

/// Speed of every generated body around the centre.
pub const ORBIT_SPEED: u32 = 30;

/// Degrees by which a body's heading is turned from its angle.
pub const QUARTER_TURN: i64 = 90;

/// Heavy bodies that close the population of a cloud.
pub const CLOUD_CENTERS: u32 = 4;

/// One body of a generated population, before it has coordinates.
#[derive(Clone, Copy, Debug, PartialEq, Eq, Structural)]
pub enum BodySlot {
    /// The heavy body at the centre; position, velocity and mass are the
    /// caller's.
    Center,
    /// Body `step` of arm `arm`, at `angle` degrees and `step` radial steps
    /// from the centre, moving towards `heading` degrees.
    Arm { arm: u32, step: u32, angle: u64, heading: i64 },
    /// A body at a random angle and a random distance inside the radius.
    Field,
}

/// The mass that the generator gives a body, or `None` for a centre, whose
/// mass is the caller's.
pub open spec fn mass_of(slot: BodySlot) -> Option<u32> {
    match slot {
        BodySlot::Center => None,
        BodySlot::Arm { .. } => Some(ARM_BODY_MASS),
        BodySlot::Field => Some(FIELD_BODY_MASS),
    }
}

/// Bodies of one arm: the requested count shared evenly among the arms, and
/// none where there is no arm.
pub open spec fn bodies_per_arm(num_bodies: int, num_arms: int) -> int {
    if num_arms == 0 {
        0
    } else {
        num_bodies / num_arms
    }
}

/// Degrees between one arm and the next.
pub open spec fn arm_spacing(num_arms: int) -> int {
    if num_arms == 0 {
        0
    } else {
        360int / num_arms
    }
}

/// Bodies of all arms together.
pub open spec fn arm_bodies(num_bodies: int, num_arms: int) -> int {
    num_arms * bodies_per_arm(num_bodies, num_arms)
}

/// The direction of travel at `angle`: a quarter turn ahead of it for a
/// clockwise galaxy, a quarter turn behind it otherwise.
pub open spec fn heading_at(angle: int, clockwise: bool) -> int {
    if clockwise {
        angle + 90
    } else {
        angle - 90
    }
}

/// Body `step` of arm `arm`.
pub open spec fn arm_slot(arm: int, step: int, num_arms: int, clockwise: bool) -> BodySlot {
    let angle = arm * arm_spacing(num_arms) + step;
    BodySlot::Arm {
        arm: arm as u32,
        step: step as u32,
        angle: angle as u64,
        heading: heading_at(angle, clockwise) as i64,
    }
}

/// Body `k` of a spiral galaxy: the centre first, then the arms one after
/// another, then the field.
pub open spec fn galaxy_slot(k: int, num_bodies: int, num_arms: int, clockwise: bool) -> BodySlot {
    let per_arm = bodies_per_arm(num_bodies, num_arms);
    if k == 0 {
        BodySlot::Center
    } else if k <= arm_bodies(num_bodies, num_arms) {
        arm_slot((k - 1) / per_arm, (k - 1) % per_arm, num_arms, clockwise)
    } else {
        BodySlot::Field
    }
}

/// The first `n` bodies of a spiral galaxy.
pub open spec fn galaxy_prefix(n: int, num_bodies: int, num_arms: int, clockwise: bool) -> Seq<
    BodySlot,
> {
    Seq::new(n as nat, |k: int| galaxy_slot(k, num_bodies, num_arms, clockwise))
}

/// Bodies of a spiral galaxy: one centre, the arm bodies, and as many field
/// bodies again as were requested.
pub open spec fn galaxy_len(num_bodies: int, num_arms: int) -> int {
    1 + arm_bodies(num_bodies, num_arms) + num_bodies
}

/// The population of a spiral galaxy.
pub open spec fn galaxy(num_bodies: int, num_arms: int, clockwise: bool) -> Seq<BodySlot> {
    galaxy_prefix(galaxy_len(num_bodies, num_arms), num_bodies, num_arms, clockwise)
}

/// Body `k` of a cloud of `amount` bodies: the cloud first, then its centres.
pub open spec fn cloud_slot(k: int, amount: int) -> BodySlot {
    if k < amount {
        BodySlot::Field
    } else {
        BodySlot::Center
    }
}

/// The population of a cloud: `amount` field bodies and four centres.
pub open spec fn cloud(amount: int) -> Seq<BodySlot> {
    Seq::new((amount + 4) as nat, |k: int| cloud_slot(k, amount))
}

/// The arms never hold more bodies than were requested.
pub proof fn lemma_arm_bodies_bound(num_bodies: int, num_arms: int)
    requires
        0 <= num_bodies,
        0 <= num_arms,
    ensures
        0 <= bodies_per_arm(num_bodies, num_arms) <= num_bodies,
        0 <= arm_bodies(num_bodies, num_arms) <= num_bodies,
        num_arms != 0 && num_bodies % num_arms == 0 ==> arm_bodies(num_bodies, num_arms)
            == num_bodies,
{
    if num_arms != 0 {
        lemma_fundamental_div_mod(num_bodies, num_arms);
        let q = num_bodies / num_arms;
        assert(0 <= q && num_arms * q <= num_bodies && q <= num_bodies) by (nonlinear_arith)
            requires
                0 < num_arms,
                0 <= num_bodies,
                num_bodies == num_arms * q + num_bodies % num_arms,
                0 <= num_bodies % num_arms < num_arms,
        ;
    }
}

/// Where the arm count divides the requested count, a galaxy holds one
/// centre, the requested count of arm bodies and the requested count of
/// field bodies.
pub proof fn lemma_galaxy_doubles(num_bodies: int, num_arms: int, clockwise: bool)
    requires
        0 <= num_bodies,
        0 < num_arms,
        num_bodies % num_arms == 0,
    ensures
        galaxy(num_bodies, num_arms, clockwise).len() == 1 + num_bodies + num_bodies,
{
    lemma_arm_bodies_bound(num_bodies, num_arms);
}

/// Every galaxy starts with its centre and ends with its field, whatever the
/// arm count: the field is the last `num_bodies` slots.
pub proof fn lemma_galaxy_shape(num_bodies: int, num_arms: int, clockwise: bool)
    requires
        0 <= num_bodies,
        0 <= num_arms,
    ensures
        galaxy(num_bodies, num_arms, clockwise).len() == galaxy_len(num_bodies, num_arms),
        galaxy(num_bodies, num_arms, clockwise)[0] == BodySlot::Center,
        forall|k: int|
            arm_bodies(num_bodies, num_arms) < k < galaxy_len(num_bodies, num_arms)
                ==> #[trigger] galaxy(num_bodies, num_arms, clockwise)[k] == BodySlot::Field,
        forall|k: int|
            0 < k <= arm_bodies(num_bodies, num_arms) ==> #[trigger] galaxy(
                num_bodies,
                num_arms,
                clockwise,
            )[k] is Arm,
{
    lemma_arm_bodies_bound(num_bodies, num_arms);
}

impl BodySlot {
    /// The mass that the generator gives the body, or `None` for a centre,
    /// whose mass is the caller's.
    pub fn mass(&self) -> (m: Option<u32>)
        ensures
            m == mass_of(*self),
    {
        match self {
            BodySlot::Center => None,
            BodySlot::Arm { .. } => Some(ARM_BODY_MASS),
            BodySlot::Field => Some(FIELD_BODY_MASS),
        }
    }
}

/// How many bodies each arm of a galaxy gets.
pub fn arm_body_count(num_bodies: u32, num_arms: u32) -> (per_arm: u32)
    ensures
        per_arm == bodies_per_arm(num_bodies as int, num_arms as int),
{
    if num_arms == 0 {
        0
    } else {
        num_bodies / num_arms
    }
}

/// Lays out a spiral galaxy of `num_arms` arms.
///
/// The centre comes first. Then come the arms in turn, arm `i` starting at
/// `i * (360 / num_arms)` degrees, each with `num_bodies / num_arms` bodies;
/// body `j` of an arm sits one degree and one radial step further out than
/// body `j - 1`, and heads a quarter turn from its angle, ahead of it when
/// `clockwise` and behind it otherwise. Last come `num_bodies` field bodies,
/// so a galaxy holds about twice the bodies asked for. Without arms the
/// galaxy is its centre and its field.
pub fn gen_actual_spir_g(num_bodies: u32, num_arms: u32, clockwise: bool) -> (bodies: Vec<
    BodySlot,
>)
    ensures
        bodies@ == galaxy(num_bodies as int, num_arms as int, clockwise),
        bodies@.len() == 1 + arm_bodies(num_bodies as int, num_arms as int) + num_bodies,
{
    let per_arm: u32 = arm_body_count(num_bodies, num_arms);
    let spacing: u32 = if num_arms == 0 {
        0
    } else {
        360 / num_arms
    };
    proof {
        lemma_arm_bodies_bound(num_bodies as int, num_arms as int);
    }
    let mut bodies: Vec<BodySlot> = Vec::new();
    bodies.push(BodySlot::Center);
    assert(bodies@ =~= galaxy_prefix(1, num_bodies as int, num_arms as int, clockwise));
    let mut arm: u32 = 0;
    while arm < num_arms
        invariant
            0 <= arm <= num_arms,
            per_arm == bodies_per_arm(num_bodies as int, num_arms as int),
            spacing == arm_spacing(num_arms as int),
            spacing <= 360,
            arm_bodies(num_bodies as int, num_arms as int) <= num_bodies,
            bodies@ == galaxy_prefix(
                1 + arm * per_arm,
                num_bodies as int,
                num_arms as int,
                clockwise,
            ),
        decreases num_arms - arm,
    {
        proof {
            assert(0 <= arm * per_arm && arm * per_arm + per_arm <= num_arms * per_arm)
                by (nonlinear_arith)
                requires
                    0 <= arm < num_arms,
                    0 <= per_arm,
            ;
            assert(0 <= arm * spacing <= 0xffff_ffff * 360) by (nonlinear_arith)
                requires
                    0 <= arm <= 0xffff_ffff,
                    0 <= spacing <= 360,
            ;
        }
        let offset: u64 = arm as u64 * spacing as u64;
        let mut step: u32 = 0;
        while step < per_arm
            invariant
                0 <= arm < num_arms,
                0 <= step <= per_arm,
                per_arm == bodies_per_arm(num_bodies as int, num_arms as int),
                spacing == arm_spacing(num_arms as int),
                offset == arm * spacing,
                offset <= 0xffff_ffff * 360,
                0 <= arm * per_arm,
                arm * per_arm + per_arm <= arm_bodies(num_bodies as int, num_arms as int),
                bodies@ == galaxy_prefix(
                    1 + arm * per_arm + step,
                    num_bodies as int,
                    num_arms as int,
                    clockwise,
                ),
            decreases per_arm - step,
        {
            let angle: u64 = offset + step as u64;
            let heading: i64 = if clockwise {
                angle as i64 + QUARTER_TURN
            } else {
                angle as i64 - QUARTER_TURN
            };
            proof {
                let k = arm * per_arm + step;
                lemma_fundamental_div_mod_converse_div(k, per_arm as int, arm as int, step as int);
                lemma_fundamental_div_mod_converse_mod(k, per_arm as int, arm as int, step as int);
            }
            bodies.push(BodySlot::Arm { arm, step, angle, heading });
            step += 1;
            assert(bodies@ =~= galaxy_prefix(
                1 + arm * per_arm + step,
                num_bodies as int,
                num_arms as int,
                clockwise,
            ));
        }
        arm += 1;
        proof {
            assert(arm * per_arm == (arm - 1) * per_arm + per_arm) by (nonlinear_arith);
        }
    }
    let ghost in_arms = arm_bodies(num_bodies as int, num_arms as int);
    let mut field: u32 = 0;
    while field < num_bodies
        invariant
            0 <= field <= num_bodies,
            in_arms == arm_bodies(num_bodies as int, num_arms as int),
            0 <= in_arms,
            bodies@ == galaxy_prefix(
                1 + in_arms + field,
                num_bodies as int,
                num_arms as int,
                clockwise,
            ),
        decreases num_bodies - field,
    {
        bodies.push(BodySlot::Field);
        field += 1;
        assert(bodies@ =~= galaxy_prefix(
            1 + in_arms + field,
            num_bodies as int,
            num_arms as int,
            clockwise,
        ));
    }
    bodies
}

/// Lays out a cloud: `amount_of_particles` field bodies, then four centres.
pub fn generate_spiral_galaxy(amount_of_particles: u32) -> (bodies: Vec<BodySlot>)
    ensures
        bodies@ == cloud(amount_of_particles as int),
        bodies@.len() == amount_of_particles + 4,
{
    let mut bodies: Vec<BodySlot> = Vec::new();
    let mut placed: u32 = 0;
    while placed < amount_of_particles
        invariant
            0 <= placed <= amount_of_particles,
            bodies@ == Seq::new(
                placed as nat,
                |k: int| cloud_slot(k, amount_of_particles as int),
            ),
        decreases amount_of_particles - placed,
    {
        bodies.push(BodySlot::Field);
        placed += 1;
        assert(bodies@ =~= Seq::new(
            placed as nat,
            |k: int| cloud_slot(k, amount_of_particles as int),
        ));
    }
    let mut centers: u32 = 0;
    while centers < CLOUD_CENTERS
        invariant
            0 <= centers <= CLOUD_CENTERS,
            bodies@ == Seq::new(
                (amount_of_particles + centers) as nat,
                |k: int| cloud_slot(k, amount_of_particles as int),
            ),
        decreases CLOUD_CENTERS - centers,
    {
        bodies.push(BodySlot::Center);
        centers += 1;
        assert(bodies@ =~= Seq::new(
            (amount_of_particles + centers) as nat,
            |k: int| cloud_slot(k, amount_of_particles as int),
        ));
    }
    bodies
}

} // verus!
