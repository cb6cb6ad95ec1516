//! Every operation keeps a well-formed loader well formed.

use vstd::prelude::*;
use bevy::asset::HandleId;
use crate::bundle::{BundleId, LoadState};
use crate::model::{LoaderState, Step};
use crate::schedule::StateId;

verus! {

/// A bundle that waits on the shared timer in `before` and still does in
/// `after` keeps the shared timer armed.
pub proof fn lemma_shared_kept(before: LoaderState, after: LoaderState)
    requires
        before.shared_armed(),
        before.bundles.len() <= after.bundles.len(),
        forall|b: int|
            0 <= b < before.bundles.len() && (#[trigger] before.bundles[b]).shared()
                ==> after.bundles[b].shared(),
    ensures
        after.shared_armed(),
{
    let b = choose|b: int| 0 <= b < before.bundles.len() && (#[trigger] before.bundles[b]).shared();
    assert(after.bundles[b].shared());
}

/// Registering a bundle type keeps the loader well formed.
pub proof fn lemma_register_wf(m: LoaderState, assets: Seq<Seq<char>>)
    requires
        m.wf(),
    ensures
        m.register(assets).wf(),
{
    let after = m.register(assets);
    if m.shared_armed() {
        lemma_shared_kept(m, after);
    }
}

/// Binding a state to a bundle keeps the loader well formed.
pub proof fn lemma_bind_wf(m: LoaderState, state: StateId, bundle: BundleId)
    requires
        m.wf(),
    ensures
        m.bind(state, bundle).wf(),
{
    let after = m.bind(state, bundle);
    if m.shared_armed() {
        lemma_shared_kept(m, after);
    }
}

/// Hooking a bundle to an exit keeps the loader well formed.
pub proof fn lemma_hook_wf(m: LoaderState, bundle: BundleId, state: StateId)
    requires
        m.wf(),
    ensures
        m.hook(bundle, state).wf(),
{
    let after = m.hook(bundle, state);
    if m.shared_armed() {
        lemma_shared_kept(m, after);
    }
}

/// Rewinding the shared timer when nothing waits on it makes good the one
/// clause that a change to a bundle's cleanup can break.
pub proof fn lemma_settle_shared_wf(m: LoaderState)
    requires
        forall|b: int| 0 <= b < m.bundles.len() ==> (#[trigger] m.bundles[b]).wf(),
        forall|s: StateId| #[trigger]
            m.required.contains_key(s) ==> m.required[s] < m.bundles.len(),
        forall|i: int| 0 <= i < m.hooks.len() ==> (#[trigger] m.hooks[i]).bundle < m.bundles.len(),
        m.schedule.wf(),
        m.schedule.state matches Some(s) ==> m.schedule.changed || m.required.contains_key(s),
        m.global_timer.elapsed == 0 || m.global_timer.elapsed < m.global_timer.duration,
    ensures
        m.settle_shared().wf(),
{
}

/// Giving a bundle its own timer keeps the loader well formed.
pub proof fn lemma_set_timer_wf(m: LoaderState, bundle: BundleId, duration: u64)
    requires
        m.wf(),
    ensures
        m.set_timer(bundle, duration).wf(),
{
    if m.has_bundle(bundle) {
        lemma_settle_shared_wf(m.with_bundle(bundle, m.bundles[bundle as int].timed(duration)));
    }
}

/// A request keeps the loader well formed.
pub proof fn lemma_request_wf(m: LoaderState, state: StateId)
    requires
        m.wf(),
    ensures
        m.request(state).wf(),
{
    let after = m.request(state);
    if m.shared_armed() {
        lemma_shared_kept(m, after);
    }
}

/// The dispatcher keeps the loader well formed.
pub proof fn lemma_dispatch_wf(m: LoaderState)
    requires
        m.wf(),
    ensures
        m.dispatch().wf(),
{
    let after = m.dispatch();
    if m.shared_armed() {
        lemma_shared_kept(m, after);
    }
}

/// Starting a loading episode keeps the loader well formed.
pub proof fn lemma_init_assets_wf(m: LoaderState, bundle: BundleId, handles: Seq<HandleId>)
    requires
        m.wf(),
    ensures
        m.init_assets(bundle, handles).wf(),
{
    let after = m.init_assets(bundle, handles);
    if m.shared_armed() {
        lemma_shared_kept(m, after);
    }
}

/// The poller keeps the loader well formed.
pub proof fn lemma_poll_wf(m: LoaderState, bundle: BundleId, states: Seq<LoadState>)
    requires
        m.wf(),
    ensures
        m.poll(bundle, states).wf(),
{
    let after = m.poll(bundle, states);
    if m.shared_armed() {
        lemma_shared_kept(m, after);
    }
}

/// Triggering a cleanup keeps the loader well formed.
pub proof fn lemma_arm_wf(m: LoaderState, bundle: BundleId)
    requires
        m.wf(),
    ensures
        m.arm(bundle).wf(),
{
    let after = m.arm(bundle);
    if m.shared_armed() {
        lemma_shared_kept(m, after);
    }
}

/// Leaving a state keeps the loader well formed.
pub proof fn lemma_exit_wf(m: LoaderState, state: StateId)
    requires
        m.wf(),
    ensures
        m.exit(state).wf(),
{
    let after = m.exit(state);
    if m.shared_armed() {
        lemma_shared_kept(m, after);
    }
}

/// The passing of time keeps the loader well formed.
pub proof fn lemma_tick_wf(m: LoaderState, delta: u64)
    requires
        m.wf(),
    ensures
        m.tick(delta).wf(),
{
    let after = m.tick(delta);
    if m.shared_armed() && !m.global_timer.fires(delta) {
        lemma_shared_kept(m, after);
    }
}

/// Removing an instance by hand keeps the loader well formed.
pub proof fn lemma_remove_wf(m: LoaderState, bundle: BundleId)
    requires
        m.wf(),
    ensures
        m.remove(bundle).wf(),
{
    if m.has_bundle(bundle) {
        lemma_settle_shared_wf(m.with_bundle(bundle, m.bundles[bundle as int].removed()));
    }
}

/// Handing the committed state over keeps the loader well formed.
pub proof fn lemma_take_next_wf(m: LoaderState)
    requires
        m.wf(),
    ensures
        m.take_next().wf(),
{
    if m.shared_armed() {
        lemma_shared_kept(m, m.take_next());
    }
}

/// Every operation keeps the loader well formed.
pub proof fn lemma_step_wf(m: LoaderState, step: Step)
    requires
        m.wf(),
    ensures
        m.step(step).wf(),
{
    match step {
        Step::Register(assets) => lemma_register_wf(m, assets),
        Step::Bind(state, bundle) => lemma_bind_wf(m, state, bundle),
        Step::Hook(bundle, state) => lemma_hook_wf(m, bundle, state),
        Step::SetTimer(bundle, duration) => lemma_set_timer_wf(m, bundle, duration),
        Step::Request(state) => lemma_request_wf(m, state),
        Step::Dispatch => lemma_dispatch_wf(m),
        Step::Init(bundle, handles) => lemma_init_assets_wf(m, bundle, handles),
        Step::Poll(bundle, states) => lemma_poll_wf(m, bundle, states),
        Step::Arm(bundle) => lemma_arm_wf(m, bundle),
        Step::Exit(state) => lemma_exit_wf(m, state),
        Step::Tick(delta) => lemma_tick_wf(m, delta),
        Step::Remove(bundle) => lemma_remove_wf(m, bundle),
        Step::TakeNext => lemma_take_next_wf(m),
    }
}

/// Whatever the host does with a loader that started empty, the loader is
/// well formed.
pub proof fn lemma_run_wf(m: LoaderState, steps: Seq<Step>)
    requires
        m.wf(),
    ensures
        m.run(steps).wf(),
    decreases steps.len(),
{
    if steps.len() > 0 {
        lemma_run_wf(m, steps.drop_last());
        lemma_step_wf(m.run(steps.drop_last()), steps.last());
    }
}

} // verus!
