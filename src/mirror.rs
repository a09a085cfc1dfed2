//! The synchronisation protocol between an engine value and its mirror.
//!
//! Each tick runs two phases at opposite ends of the tick: the sync phase first
//! (native changes refresh the mirror, mirror changes are written to the
//! native value, both decided from the changes seen before either runs), and
//! the attach phase last (a native value seen for the first time gets its
//! mirror). The host runs the phases on its components; this module decides
//! what each phase does to one entity.
use vstd::prelude::*;

verus! {

/// A mirror of the native type `T`: built from a native value, and written
/// back to one.
pub trait Mirror<T>: Sized {
    fn from_native(native: &T) -> Self;

    fn apply(&self, native: &mut T);
}

/// The two system sets of the protocol.
#[derive(Clone, Copy, Debug, PartialEq, Eq, Hash, Structural)]
pub enum MirrorSystems {
    /// Mirror and native values are brought in agreement, at the start of a tick.
    Update,
    /// Mirrors are attached to entities that gained a native value, at the end
    /// of a tick.
    Add,
}

/// Registers the protocol for the native type `T` and its mirror `U`.
pub struct MirrorPlugin<T, U>(pub core::marker::PhantomData<(T, U)>);

impl<T, U> MirrorPlugin<T, U> {
    pub fn new() -> Self {
        MirrorPlugin(core::marker::PhantomData)
    }
}

/// What one entity carries of a mirrored pair.
#[derive(Clone, Copy, Debug, PartialEq, Eq, Structural)]
pub struct PairState {
    pub has_native: bool,
    pub has_mirror: bool,
}

/// What the host saw of one entity during a tick.
#[derive(Clone, Copy, Debug, PartialEq, Eq, Structural)]
pub struct TickEvents {
    /// The native value was added since the last tick.
    pub native_added: bool,
    /// The native value changed since the last sync phase.
    pub native_changed: bool,
    /// The mirror changed since the last sync phase.
    pub mirror_changed: bool,
}

/// What the sync phase does to one entity.
#[derive(Clone, Copy, Debug, PartialEq, Eq, Structural)]
pub struct SyncPlan {
    /// Overwrite the mirror with the mirror of the native value.
    pub refresh_mirror: bool,
    /// Write the mirror to the native value.
    pub apply_mirror: bool,
}

/// What a whole tick does to one entity.
#[derive(Clone, Copy, Debug, PartialEq, Eq, Structural)]
pub struct TickActions {
    pub sync: SyncPlan,
    /// Insert the mirror of the native value.
    pub attach: bool,
}

pub open spec fn sync_spec(s: PairState, native_changed: bool, mirror_changed: bool) -> SyncPlan {
    SyncPlan {
        refresh_mirror: s.has_native && s.has_mirror && native_changed,
        apply_mirror: s.has_native && s.has_mirror && mirror_changed,
    }
}

pub open spec fn attach_spec(s: PairState, native_added: bool) -> bool {
    native_added && !s.has_mirror
}

pub open spec fn step_spec(s: PairState, e: TickEvents) -> (PairState, TickActions) {
    let plan = sync_spec(s, e.native_changed, e.mirror_changed);
    let attach = attach_spec(s, e.native_added);
    (
        PairState { has_native: s.has_native || e.native_added, has_mirror: s.has_mirror || attach },
        TickActions { sync: plan, attach },
    )
}

/// The state after a run of ticks.
pub open spec fn run(s: PairState, evs: Seq<TickEvents>) -> PairState
    decreases evs.len(),
{
    if evs.len() == 0 {
        s
    } else {
        step_spec(run(s, evs.drop_last()), evs.last()).0
    }
}

/// The actions of tick `i` of a run.
pub open spec fn actions_at(s: PairState, evs: Seq<TickEvents>, i: int) -> TickActions {
    step_spec(run(s, evs.take(i)), evs[i]).1
}

/// The sync phase: both passes are decided from the changes seen before
/// either runs, and only on an entity that carries both values.
pub fn sync_phase(s: PairState, native_changed: bool, mirror_changed: bool) -> (r: SyncPlan)
    ensures
        r == sync_spec(s, native_changed, mirror_changed),
{
    let both = s.has_native && s.has_mirror;
    SyncPlan { refresh_mirror: both && native_changed, apply_mirror: both && mirror_changed }
}

/// The attach phase: a native value added this tick gets its mirror, unless
/// the entity carries one already.
pub fn attach_phase(s: PairState, native_added: bool) -> (r: bool)
    ensures
        r == attach_spec(s, native_added),
{
    native_added && !s.has_mirror
}

/// One tick on one entity: the sync phase, then the attach phase.
pub fn step(s: PairState, e: TickEvents) -> (r: (PairState, TickActions))
    ensures
        r == step_spec(s, e),
{
    let sync = sync_phase(s, e.native_changed, e.mirror_changed);
    let attach = attach_phase(s, e.native_added);
    (
        PairState { has_native: s.has_native || e.native_added, has_mirror: s.has_mirror || attach },
        TickActions { sync, attach },
    )
}

proof fn lemma_run_keeps_mirror(s: PairState, evs: Seq<TickEvents>, i: int, j: int)
    requires
        0 <= i <= j <= evs.len(),
        run(s, evs.take(i)).has_mirror,
    ensures
        run(s, evs.take(j)).has_mirror,
    decreases j - i,
{
    if i < j {
        lemma_run_keeps_mirror(s, evs, i, j - 1);
        assert(evs.take(j).drop_last() =~= evs.take(j - 1));
    }
}

/// A mirror is attached at most once: after the tick that attached it, no
/// later tick attaches it again, whatever changes; later changes of the
/// native value reach the mirror through the sync phase.
pub proof fn lemma_attach_once(s: PairState, evs: Seq<TickEvents>, i: int, j: int)
    requires
        0 <= i < j < evs.len(),
        actions_at(s, evs, i).attach,
    ensures
        !actions_at(s, evs, j).attach,
        run(s, evs.take(j)).has_native && run(s, evs.take(j)).has_mirror,
        evs[j].native_changed ==> actions_at(s, evs, j).sync.refresh_mirror,
{
    assert(evs.take(i + 1).drop_last() =~= evs.take(i));
    lemma_run_keeps_mirror(s, evs, i + 1, j);
    lemma_run_keeps_native(s, evs, i + 1, j);
}

proof fn lemma_run_keeps_native(s: PairState, evs: Seq<TickEvents>, i: int, j: int)
    requires
        0 <= i <= j <= evs.len(),
        run(s, evs.take(i)).has_native,
    ensures
        run(s, evs.take(j)).has_native,
    decreases j - i,
{
    if i < j {
        lemma_run_keeps_native(s, evs, i, j - 1);
        assert(evs.take(j).drop_last() =~= evs.take(j - 1));
    }
}

/// A native value added to an entity without a mirror gets one in that tick.
pub proof fn lemma_attach_on_add(s: PairState, e: TickEvents)
    requires
        e.native_added,
        !s.has_mirror,
    ensures
        step_spec(s, e).1.attach,
        step_spec(s, e).0.has_mirror,
{
}

} // verus!
