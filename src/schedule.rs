//! The fixed order of the solver's stages within one tick.
use vstd::prelude::*;

verus! {

/// A stage of one simulation tick.
#[derive(PartialEq, Eq, Structural, Clone, Copy, Debug)]
pub enum Stage {
    /// Every node's accumulators go back to zero.
    ClearGrid,
    /// Particles deposit mass and affine momentum on their stencils.
    ScatterMass,
    /// Particles deposit the momentum change of their stress.
    ScatterStress,
    /// Node momentum becomes velocity; gravity and the sticky walls apply.
    UpdateGrid,
    /// Particles read velocity and its gradient back, and move.
    GatherToParticles,
    /// The pointer's force field acts on particle velocities.
    Interaction,
}

/// The stages of one tick, in the order they run.
pub open spec fn tick_order() -> Seq<Stage> {
    seq![
        Stage::ClearGrid,
        Stage::ScatterMass,
        Stage::ScatterStress,
        Stage::UpdateGrid,
        Stage::GatherToParticles,
        Stage::Interaction,
    ]
}

/// Where `s` stands in `tick_order`.
pub open spec fn position(s: Stage) -> int {
    match s {
        Stage::ClearGrid => 0,
        Stage::ScatterMass => 1,
        Stage::ScatterStress => 2,
        Stage::UpdateGrid => 3,
        Stage::GatherToParticles => 4,
        Stage::Interaction => 5,
    }
}

/// The stages of one tick, in the order they run.
pub fn create_system_set() -> (r: Vec<Stage>)
    ensures
        r@ == tick_order(),
{
    let r = vec![
        Stage::ClearGrid,
        Stage::ScatterMass,
        Stage::ScatterStress,
        Stage::UpdateGrid,
        Stage::GatherToParticles,
        Stage::Interaction,
    ];
    assert(r@ =~= tick_order());
    r
}

impl Stage {
    /// The stage that runs after `self` within a tick; `None` after the last.
    pub fn next(&self) -> (r: Option<Stage>)
        ensures
            position(*self) + 1 < tick_order().len() ==> r == Some(tick_order()[position(*self) + 1]),
            position(*self) + 1 == tick_order().len() ==> r is None,
    {
        match self {
            Stage::ClearGrid => Some(Stage::ScatterMass),
            Stage::ScatterMass => Some(Stage::ScatterStress),
            Stage::ScatterStress => Some(Stage::UpdateGrid),
            Stage::UpdateGrid => Some(Stage::GatherToParticles),
            Stage::GatherToParticles => Some(Stage::Interaction),
            Stage::Interaction => None,
        }
    }
}

/// Each stage runs exactly once per tick: at its `position`, and nowhere
/// else.
pub proof fn lemma_stages_run_once(s: Stage, i: int)
    requires
        0 <= i < tick_order().len(),
    ensures
        0 <= position(s) < tick_order().len(),
        tick_order()[position(s)] == s,
        tick_order()[i] == s ==> i == position(s),
{
}

} // verus!
