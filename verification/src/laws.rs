//! What holds of the registry over whole runs: theorems about the system of
//! the `model` module, proved from the transitions that the executable
//! operations are specified by.

use crate::error::RegistryError;
use crate::model::{Op, World};
use crate::state::{Admission, LoopView};
use crate::token::Release;
use vstd::prelude::*;

verus! {

/// The first registration, when no loop exists, decides for a spawn, and
/// with the handle that the loop thread reports the registry runs that loop
/// with a count of one and the triggering source as its only member. If the
/// thread reports nothing, the registration fails and nothing changes.
pub proof fn lemma_first_register_starts_loop<H, S>(world: World<H, S>, source: S, handle: H)
    requires
        world.inv(),
        !world.registry.running(),
    ensures
        world.registry.admission() == Admission::Spawn,
        ({
            let outcome = world.register(source, Some(handle));
            &&& outcome is Ok
            &&& outcome->Ok_0.registry == LoopView::started(handle)
            &&& outcome->Ok_0.registry.active_count == 1
            &&& outcome->Ok_0.members == Set::empty().insert(source)
            &&& outcome->Ok_0.inv()
        }),
        ({
            let outcome = world.register(source, None);
            outcome is Err && outcome->Err_0 == RegistryError::StartupFailed
        }),
{
}

/// A registration while a loop runs decides against a spawn: it joins the
/// running loop, whose handle stays, and raises the count by one. What a
/// rendezvous would have yielded plays no part in it.
pub proof fn lemma_register_joins_running_loop<H, S>(
    world: World<H, S>,
    source: S,
    rendezvous: Option<H>,
    other_rendezvous: Option<H>,
)
    requires
        world.inv(),
        world.registry.running(),
        !world.members.contains(source),
    ensures
        world.registry.admission() == Admission::Attach,
        ({
            let outcome = world.register(source, rendezvous);
            &&& outcome is Ok
            &&& outcome->Ok_0.registry.handle == world.registry.handle
            &&& outcome->Ok_0.registry.active_count == world.registry.active_count + 1
            &&& outcome->Ok_0.members == world.members.insert(source)
            &&& outcome->Ok_0.inv()
            &&& outcome == world.register(source, other_rendezvous)
        }),
{
}

/// Registering a source that is a member already is refused as a duplicate:
/// the count is not raised and the membership is not doubled.
pub proof fn lemma_duplicate_register_is_refused<H, S>(
    world: World<H, S>,
    source: S,
    rendezvous: Option<H>,
)
    requires
        world.registry.running(),
        world.members.contains(source),
    ensures
        ({
            let outcome = world.register(source, rendezvous);
            outcome is Err && outcome->Err_0 == RegistryError::DuplicateSource
        }),
        world.step(Op::Register { source, rendezvous }) == world,
{
}

/// Releasing the last outstanding token brings the count to zero, stops the
/// loop through the handle that the registry gives up, and leaves the system
/// as it was at process start. The next registration spawns a fresh loop
/// and waits for a rendezvous of its own.
pub proof fn lemma_last_release_stops_loop<H, S>(
    world: World<H, S>,
    source: S,
    next_source: S,
    next_handle: H,
)
    requires
        world.inv(),
        world.registry.active_count == 1,
        world.members.contains(source),
    ensures
        world.registry.departure(source) == (Release::Stop {
            source,
            handle: world.registry.handle->Some_0,
        }),
        ({
            let outcome = world.unregister(source);
            &&& outcome is Ok
            &&& outcome->Ok_0 == World::<H, S>::initial()
            &&& outcome->Ok_0.registry.active_count == 0
            &&& !outcome->Ok_0.registry.running()
            &&& outcome->Ok_0.registry.admission() == Admission::Spawn
        }),
        ({
            let restart = World::<H, S>::initial().register(next_source, Some(next_handle));
            &&& restart is Ok
            &&& restart->Ok_0.registry == LoopView::started(next_handle)
        }),
        World::<H, S>::initial().register(next_source, None) is Err,
{
    assert(world.members.remove(source).len() == 0);
    assert(world.members.remove(source) =~= Set::empty());
}

/// Releasing a token that is not the last lowers the count by one and takes
/// only that token's source out of the loop. The loop keeps running under
/// the same handle, and every other member is still serviced.
pub proof fn lemma_other_release_keeps_loop<H, S>(world: World<H, S>, source: S)
    requires
        world.inv(),
        world.registry.active_count > 1,
        world.members.contains(source),
    ensures
        world.registry.departure(source) == (Release::<H, S>::Detach { source }),
        ({
            let outcome = world.unregister(source);
            &&& outcome is Ok
            &&& outcome->Ok_0.registry.handle == world.registry.handle
            &&& outcome->Ok_0.registry.active_count == world.registry.active_count - 1
            &&& outcome->Ok_0.registry.running()
            &&& !outcome->Ok_0.members.contains(source)
            &&& forall|other: S|
                other != source ==> (#[trigger] outcome->Ok_0.members.contains(other)
                    <==> world.members.contains(other))
            &&& outcome->Ok_0.inv()
        }),
{
}

/// A registration and the release of its token, with nothing in between,
/// leave the system as it was.
pub proof fn lemma_register_then_unregister_restores<H, S>(
    world: World<H, S>,
    source: S,
    rendezvous: Option<H>,
)
    requires
        world.inv(),
        world.register(source, rendezvous) is Ok,
    ensures
        ({
            let outcome = world.register(source, rendezvous)->Ok_0.unregister(source);
            outcome is Ok && outcome->Ok_0 == world
        }),
{
    let joined = world.register(source, rendezvous)->Ok_0;
    assert(world.members.len() == 0 ==> world.members =~= Set::empty());
    assert(joined.members.remove(source) =~= world.members);
}

/// No operation breaks the invariant of the system.
pub proof fn lemma_step_preserves_inv<H, S>(world: World<H, S>, op: Op<H, S>)
    requires
        world.inv(),
    ensures
        world.step(op).inv(),
{
}

/// A loop comes into being only by a registration that spawned it, and then
/// under the handle that its thread reported. It ends only by the release of
/// the last token. In between it is one and the same loop: no operation
/// replaces the handle of a running loop.
pub proof fn lemma_loop_starts_and_stops_in_one_way<H, S>(world: World<H, S>, op: Op<H, S>)
    requires
        world.inv(),
    ensures
        ({
            let before = world.registry;
            let after = world.step(op).registry;
            &&& !before.running() && after.running() ==> op is Register && op->rendezvous is Some
                && after.handle == op->rendezvous
            &&& before.running() && !after.running() ==> op is Unregister && before.active_count
                == 1
            &&& before.running() && after.running() ==> after.handle == before.handle
        }),
{
}

/// However registrations and releases from any number of threads interleave,
/// the system's invariant holds after each of them: the count is the number
/// of outstanding tokens, so it never falls below zero, and the loop is
/// stopped only when the count is zero.
pub proof fn lemma_run_preserves_inv<H, S>(world: World<H, S>, ops: Seq<Op<H, S>>)
    requires
        world.inv(),
    ensures
        ({
            let reached = world.run(ops);
            &&& reached.inv()
            &&& reached.registry.active_count == reached.members.len()
            &&& reached.registry.running() <==> reached.registry.active_count > 0
            &&& reached.members.len() == 0 ==> reached.registry == LoopView::<H>::stopped()
        }),
    decreases ops.len(),
{
    if ops.len() > 0 {
        lemma_run_preserves_inv(world, ops.drop_last());
        lemma_step_preserves_inv(world.run(ops.drop_last()), ops.last());
    }
}

/// A token that is never released keeps its source on the loop and the loop
/// running, under the handle that it had, whatever else is registered and
/// released in the meantime.
pub proof fn lemma_unreleased_token_keeps_loop<H, S>(
    world: World<H, S>,
    source: S,
    ops: Seq<Op<H, S>>,
)
    requires
        world.inv(),
        world.members.contains(source),
        forall|i: int| 0 <= i < ops.len() ==> ops[i] != (Op::<H, S>::Unregister { source }),
    ensures
        ({
            let reached = world.run(ops);
            &&& reached.members.contains(source)
            &&& reached.registry.running()
            &&& reached.registry.handle == world.registry.handle
        }),
    decreases ops.len(),
{
    if ops.len() > 0 {
        let before = world.run(ops.drop_last());
        lemma_unreleased_token_keeps_loop(world, source, ops.drop_last());
        lemma_run_preserves_inv(world, ops.drop_last());
        match ops.last() {
            Op::Register { .. } => {},
            Op::Unregister { source: other } => {
                if before.members.contains(other) && before.registry.active_count == 1 {
                    assert(before.members.remove(source).len() == 0);
                    assert(!before.members.remove(source).contains(other));
                }
            },
        }
    }
}

/// The system at process start satisfies the invariant, and so does every
/// system that a run leads to from there.
pub proof fn lemma_reachable_worlds_are_consistent<H, S>(ops: Seq<Op<H, S>>)
    ensures
        World::<H, S>::initial().inv(),
        World::<H, S>::initial().run(ops).inv(),
{
    lemma_run_preserves_inv(World::<H, S>::initial(), ops);
}

} // verus!
