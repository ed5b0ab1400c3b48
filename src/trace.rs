//! When a traced path ends.
//!
//! Colouring a ray is a recursion over a depth budget. A ray whose budget is
//! spent carries no light. Otherwise the scene is asked for the nearest hit
//! and the hit material for a scattered ray: a ray that escapes takes the sky
//! colour, one that is absorbed is black, and a scattered ray is traced on
//! with one unit of budget less, its colour scaled by the attenuation.
use vstd::prelude::*;

verus! {

/// What the scene and the hit material reported for a ray.
#[derive(PartialEq, Eq, Structural, Clone, Copy, Debug)]
pub enum Bounce {
    /// No object was hit: the ray escapes to the background.
    Missed,
    /// An object was hit and its material does not scatter the ray.
    Absorbed,
    /// An object was hit and its material scattered the ray.
    Scattered,
}

/// What the renderer does next with a ray.
#[derive(PartialEq, Eq, Structural, Clone, Copy, Debug)]
pub enum PathStep {
    /// The ray carries no light.
    Black,
    /// The ray takes the background colour for its direction.
    Sky,
    /// Trace the scattered ray with the given depth budget.
    Trace(i32),
}

/// The step taken for a ray traced with budget `depth` whose query reported
/// `bounce`. A spent budget ends the path before any query is made.
pub open spec fn step_of(depth: int, bounce: Bounce) -> PathStep {
    if depth <= 0 {
        PathStep::Black
    } else {
        match bounce {
            Bounce::Missed => PathStep::Sky,
            Bounce::Absorbed => PathStep::Black,
            Bounce::Scattered => PathStep::Trace((depth - 1) as i32),
        }
    }
}

/// Number of scene queries a path makes when it starts with budget `depth`
/// and its successive queries report `bounces` (the path stops early where a
/// step ends it, or where `bounces` runs out).
pub open spec fn queries(depth: int, bounces: Seq<Bounce>) -> nat
    decreases bounces.len(),
{
    if depth <= 0 || bounces.len() == 0 {
        0
    } else {
        match step_of(depth, bounces[0]) {
            PathStep::Trace(d) => 1 + queries(d as int, bounces.drop_first()),
            _ => 1,
        }
    }
}

/// Whether a ray with budget `depth` ends without querying the scene.
pub fn depth_exhausted(depth: i32) -> (r: bool)
    ensures
        r == (depth <= 0),
{
    depth <= 0
}

/// The step for a ray traced with budget `depth` whose query reported `bounce`.
pub fn path_step(depth: i32, bounce: Bounce) -> (r: PathStep)
    ensures
        r == step_of(depth as int, bounce),
{
    if depth <= 0 {
        PathStep::Black
    } else {
        match bounce {
            Bounce::Missed => PathStep::Sky,
            Bounce::Absorbed => PathStep::Black,
            Bounce::Scattered => PathStep::Trace(depth - 1),
        }
    }
}

/// A ray traced with a budget of zero or less is black, whatever the ray and
/// the scene: no query is made and every reported bounce gives `Black`.
pub proof fn lemma_spent_budget_is_black(depth: int, bounce: Bounce, bounces: Seq<Bounce>)
    requires
        depth <= 0,
    ensures
        step_of(depth, bounce) == PathStep::Black,
        queries(depth, bounces) == 0,
{
}

/// The budget strictly shrinks along a path, so a path that starts with
/// budget `depth` queries the scene at most `depth` times.
pub proof fn lemma_queries_bounded(depth: int, bounces: Seq<Bounce>)
    requires
        depth <= i32::MAX,
    ensures
        depth <= 0 ==> queries(depth, bounces) == 0,
        depth > 0 ==> queries(depth, bounces) <= depth,
    decreases bounces.len(),
{
    if depth > 0 && bounces.len() > 0 {
        match step_of(depth, bounces[0]) {
            PathStep::Trace(d) => {
                lemma_queries_bounded(d as int, bounces.drop_first());
            },
            _ => {},
        }
    }
}

} // verus!
