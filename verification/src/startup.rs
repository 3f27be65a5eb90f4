use vstd::prelude::*;

verus! {

/// What a lookup of the primary window found.
///
/// This mirrors the three outcomes of a single-item query: no window fits,
/// exactly one fits, or more than one fits.
#[derive(Clone, Copy, Debug, PartialEq, Eq, Structural)]
pub enum WindowLookup {
    /// No window is marked as the primary one.
    NoWindow,
    /// Exactly one primary window was found.
    OneWindow,
    /// More than one window is marked as the primary one.
    ManyWindows,
}

/// One effect of the start-up system, carried out by the caller in the order
/// in which the plan lists it.
#[derive(Clone, Copy, Debug, PartialEq, Eq, Structural)]
pub enum StartupEffect {
    /// Report that the start-up system runs.
    Announce,
    /// Spawn the orthographic 2D camera that aims at the simulation, sized
    /// from the window and the simulation descriptor.
    SpawnCamera,
    /// Call the user's `on_init` callback, which may populate the world and
    /// adjust the simulation descriptor.
    RunOnInit,
    /// Call the user's `setup_graphics` callback.
    RunSetupGraphics,
}

/// The effects of the start-up system for a given window lookup: with a
/// unique primary window it announces itself, spawns the camera and then
/// hands over to the user's init callback and graphics set-up; otherwise it
/// does nothing at all.
pub open spec fn startup_effects(lookup: WindowLookup) -> Seq<StartupEffect> {
    if lookup is OneWindow {
        seq![
            StartupEffect::Announce,
            StartupEffect::SpawnCamera,
            StartupEffect::RunOnInit,
            StartupEffect::RunSetupGraphics,
        ]
    } else {
        Seq::empty()
    }
}

/// Plans the start-up step from the outcome of the primary-window lookup.
///
/// The returned effects are exactly `startup_effects(lookup)`: announce,
/// spawn the camera, run the user's `on_init`, run the user's
/// `setup_graphics` when exactly one primary window exists, and nothing when
/// there is none or more than one.
pub fn plan_init_system(lookup: WindowLookup) -> (effects: Vec<StartupEffect>)
    ensures
        effects@ == startup_effects(lookup),
{
    let mut effects: Vec<StartupEffect> = Vec::new();
    match lookup {
        WindowLookup::OneWindow => {
            effects.push(StartupEffect::Announce);
            effects.push(StartupEffect::SpawnCamera);
            effects.push(StartupEffect::RunOnInit);
            effects.push(StartupEffect::RunSetupGraphics);
        },
        WindowLookup::NoWindow => {},
        WindowLookup::ManyWindows => {},
    }
    proof {
        assert(effects@ =~= startup_effects(lookup));
    }
    effects
}

/// Without a unique primary window the start-up system has no effect at all;
/// with one, it does something.
pub proof fn lemma_acts_only_with_unique_window(lookup: WindowLookup)
    ensures
        startup_effects(lookup).len() == 0 <==> !(lookup is OneWindow),
{
}

/// The start-up system spawns at most one camera, and exactly one when the
/// primary window is unique.
pub proof fn lemma_at_most_one_camera(lookup: WindowLookup)
    ensures
        forall|i: int, j: int|
            0 <= i < startup_effects(lookup).len() && 0 <= j < startup_effects(lookup).len()
                && startup_effects(lookup)[i] is SpawnCamera
                && startup_effects(lookup)[j] is SpawnCamera ==> i == j,
        (lookup is OneWindow) ==> startup_effects(lookup).contains(StartupEffect::SpawnCamera),
{
    if lookup is OneWindow {
        assert(startup_effects(lookup)[1] == StartupEffect::SpawnCamera);
    }
}

/// Every effect occurs at most once, and they come in the order: announce,
/// camera, the user's `on_init`, the user's `setup_graphics`. In particular
/// the user's callbacks run only after the camera exists.
pub proof fn lemma_effect_order(lookup: WindowLookup)
    ensures
        forall|i: int, j: int|
            0 <= i < j < startup_effects(lookup).len() ==> effect_rank(startup_effects(lookup)[i])
                < effect_rank(startup_effects(lookup)[j]),
{
}

/// The position of an effect in the start-up order.
pub open spec fn effect_rank(effect: StartupEffect) -> int {
    match effect {
        StartupEffect::Announce => 0,
        StartupEffect::SpawnCamera => 1,
        StartupEffect::RunOnInit => 2,
        StartupEffect::RunSetupGraphics => 3,
    }
}

} // verus!
