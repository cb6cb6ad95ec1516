//! What the loader guarantees, proved over its state machine.

use vstd::prelude::*;
use bevy::asset::HandleId;
use crate::bundle::{all_loaded, any_failed, BundleId, LoadState};
use crate::model::{total, Dispatch, ExitHook, LoaderState, Step};
use crate::schedule::StateId;
use crate::wellformed::{lemma_arm_wf, lemma_tick_wf};

verus! {

/// Asking twice in a row for the same state is the same as asking once.
pub proof fn law_request_idempotent(m: LoaderState, state: StateId)
    ensures
        m.request(state).request(state) == m.request(state),
{
}

/// The dispatcher acts once on a request: when it has run, running it again
/// does nothing, and so does asking again for the state that is still
/// pending.
pub proof fn law_dispatch_once(m: LoaderState, state: StateId)
    requires
        m.wf(),
    ensures
        m.dispatch().dispatch_outcome() == Dispatch::Idle,
        m.dispatch().dispatch() == m.dispatch(),
        m.dispatch().schedule.state == Some(state) ==> m.dispatch().request(state) == m.dispatch(),
{
    let after = m.dispatch();
    assert(after.bundles =~= after.dispatch().bundles);
}

/// Declaring twice that a state needs a bundle, or that a bundle is cleaned
/// up at an exit, is the same as declaring it once.
pub proof fn law_configuration_idempotent(m: LoaderState, state: StateId, bundle: BundleId)
    ensures
        m.bind(state, bundle).bind(state, bundle) == m.bind(state, bundle),
        m.hook(bundle, state).hook(bundle, state) == m.hook(bundle, state),
{
    let hooked = m.hook(bundle, state);
    if m.has_bundle(bundle) && !m.hooked(state, bundle) {
        assert(hooked.hooks[m.hooks.len() as int] == (ExitHook { state, bundle }));
    }
}

/// A bundle type never has more than one live instance, whatever the host
/// does with the loader.
pub proof fn law_at_most_one_instance(steps: Seq<Step>, bundle: BundleId)
    ensures
        LoaderState::empty().run(steps).live_instances(bundle) <= 1,
{
}

/// No operation puts a second instance in the place of a live one: the
/// instance of a bundle stays the same until it is removed. A loading
/// episode that is asked for while the bundle is live keeps the instance,
/// and the dispatcher does not ask the host to load a live bundle.
pub proof fn law_live_instance_kept(
    m: LoaderState,
    step: Step,
    bundle: BundleId,
    handles: Seq<HandleId>,
)
    requires
        m.wf(),
        m.has_bundle(bundle),
        m.bundles[bundle as int].instance == Some(handles),
    ensures
        m.step(step).has_bundle(bundle),
        m.step(step).bundles[bundle as int].instance == Some(handles) || m.step(
            step,
        ).bundles[bundle as int].instance.is_none(),
        step matches Step::Init(b, given) ==> m.step(step).bundles[bundle as int].instance == Some(
            handles,
        ),
        step == Step::Dispatch ==> m.step(step).bundles[bundle as int].instance == Some(handles)
            && m.dispatch_outcome() != Dispatch::Load(bundle),
{
}

/// The committed state changes only where an operation commits, and the
/// loader commits to a state only if the state needs no bundle, or in the
/// very poll in which every handle of the bundle it needs is reported as
/// loaded and none as failed.
pub proof fn law_no_premature_commit(m: LoaderState, step: Step)
    requires
        m.wf(),
    ensures
        m.step(step).next_state == match m.commits(step) {
            Some(state) => Some(state),
            None => if step == Step::TakeNext {
                None
            } else {
                m.next_state
            },
        },
        m.commits(step) matches Some(state) ==> match m.required_bundle(state) {
            None => step == Step::Dispatch,
            Some(bundle) => step matches Step::Poll(polled, states) && polled == bundle
                && m.is_loading(bundle) && m.bundles[bundle as int].instance.is_some()
                && all_loaded(m.bundles[bundle as int].assets.len(), states) && !any_failed(
                m.bundles[bundle as int].assets.len(),
                states,
            ),
        },
{
}

/// A commit clears the request that it applies, and a poll that sees a
/// bundle fail or complete takes its loading marker away.
pub proof fn law_commit_and_marker_settle(m: LoaderState, step: Step)
    requires
        m.wf(),
    ensures
        m.commits(step).is_some() ==> m.step(step).schedule.state.is_none(),
        step matches Step::Poll(bundle, states) ==> (m.poll_fails(bundle, states)
            || m.poll_completes(bundle, states)) ==> !m.step(step).is_loading(bundle),
{
}

/// A failed handle ends the loading episode and commits nothing: the
/// committed state, the pending request and the instance stay as they are,
/// and the bundle is polled no more until a new episode starts.
pub proof fn law_failure_commits_nothing(
    m: LoaderState,
    bundle: BundleId,
    states: Seq<LoadState>,
    later: Seq<LoadState>,
)
    requires
        m.wf(),
        m.is_loading(bundle),
        any_failed(m.bundles[bundle as int].assets.len(), states),
    ensures
        m.poll(bundle, states).next_state == m.next_state,
        m.poll(bundle, states).schedule == m.schedule,
        m.poll(bundle, states).bundles[bundle as int].instance == m.bundles[bundle as int].instance,
        !m.poll(bundle, states).is_loading(bundle),
        m.poll(bundle, states).poll(bundle, later) == m.poll(bundle, states),
{
}

/// A state that needs a bundle is never committed by the dispatcher.
pub proof fn law_dispatch_waits_for_bundle(m: LoaderState, state: StateId)
    requires
        m.wf(),
        m.required_bundle(state).is_some(),
    ensures
        m.request(state).dispatch_outcome() != Dispatch::Commit(state),
        m.request(state).dispatch().next_state == m.next_state,
{
}

/// A request for a state that needs no bundle is committed by the next run
/// of the dispatcher, which clears the request and touches no bundle: no
/// loading marker is set.
pub proof fn law_no_bundle_fast_path(m: LoaderState, state: StateId)
    requires
        m.wf(),
        m.required_bundle(state).is_none(),
    ensures
        m.request(state).dispatch_outcome() == Dispatch::Commit(state),
        m.request(state).dispatch().next_state == Some(state),
        m.request(state).dispatch().schedule.state.is_none(),
        m.request(state).dispatch().bundles == m.bundles,
{
}

/// Ticks leave a bundle without an instance as it is.
pub proof fn lemma_ticks_keep_removed(m: LoaderState, bundle: BundleId, deltas: Seq<u64>)
    requires
        m.wf(),
        m.has_bundle(bundle),
        m.bundles[bundle as int].instance.is_none(),
    ensures
        m.ticks(deltas).has_bundle(bundle),
        m.ticks(deltas).bundles[bundle as int].instance.is_none(),
        !m.ticks(deltas).bundles[bundle as int].cleanup,
        m.removals(bundle, deltas) == 0,
    decreases deltas.len(),
{
    if deltas.len() > 0 {
        lemma_tick_wf(m, deltas.first());
        lemma_ticks_keep_removed(m.tick(deltas.first()), bundle, deltas.drop_first());
    }
}

/// An armed bundle with a timer of its own loses its instance and its
/// cleanup task in exactly one tick, the first by which the time that has
/// passed reaches what was left of the timer's delay. Until then it keeps
/// both.
pub proof fn law_dedicated_cleanup_fires(m: LoaderState, bundle: BundleId, deltas: Seq<u64>)
    requires
        m.wf(),
        m.has_bundle(bundle),
        m.bundles[bundle as int].cleanup,
        m.bundles[bundle as int].timer.is_some(),
    ensures
        m.ticks(deltas).has_bundle(bundle),
        ({
            let timer = m.bundles[bundle as int].timer.unwrap();
            let after = m.ticks(deltas).bundles[bundle as int];
            if timer.elapsed + total(deltas) >= timer.duration && deltas.len() > 0 {
                &&& after.instance.is_none()
                &&& !after.cleanup
                &&& m.removals(bundle, deltas) == 1
            } else {
                &&& after.instance == m.bundles[bundle as int].instance
                &&& after.cleanup
                &&& m.removals(bundle, deltas) == 0
            }
        }),
    decreases deltas.len(),
{
    if deltas.len() > 0 {
        let next = m.tick(deltas.first());
        lemma_tick_wf(m, deltas.first());
        if m.bundles[bundle as int].timer.unwrap().fires(deltas.first()) {
            lemma_total_nonnegative(deltas.drop_first());
            lemma_ticks_keep_removed(next, bundle, deltas.drop_first());
        } else {
            law_dedicated_cleanup_fires(next, bundle, deltas.drop_first());
            if deltas.drop_first().len() == 0 {
                assert(total(deltas.drop_first()) == 0);
            }
        }
    }
}

/// An armed bundle without a timer of its own loses its instance and its
/// cleanup task in exactly one tick, the first by which the time that has
/// passed reaches what was left of the shared timer's delay. Until then it
/// keeps both.
pub proof fn law_shared_cleanup_fires(m: LoaderState, bundle: BundleId, deltas: Seq<u64>)
    requires
        m.wf(),
        m.has_bundle(bundle),
        m.bundles[bundle as int].cleanup,
        m.bundles[bundle as int].timer.is_none(),
    ensures
        m.ticks(deltas).has_bundle(bundle),
        ({
            let timer = m.global_timer;
            let after = m.ticks(deltas).bundles[bundle as int];
            if timer.elapsed + total(deltas) >= timer.duration && deltas.len() > 0 {
                &&& after.instance.is_none()
                &&& !after.cleanup
                &&& m.removals(bundle, deltas) == 1
            } else {
                &&& after.instance == m.bundles[bundle as int].instance
                &&& after.cleanup
                &&& m.removals(bundle, deltas) == 0
            }
        }),
    decreases deltas.len(),
{
    if deltas.len() > 0 {
        let next = m.tick(deltas.first());
        lemma_tick_wf(m, deltas.first());
        assert(m.bundles[bundle as int].shared());
        if m.global_timer.fires(deltas.first()) {
            lemma_total_nonnegative(deltas.drop_first());
            lemma_ticks_keep_removed(next, bundle, deltas.drop_first());
        } else {
            law_shared_cleanup_fires(next, bundle, deltas.drop_first());
            if deltas.drop_first().len() == 0 {
                assert(total(deltas.drop_first()) == 0);
            }
        }
    }
}

/// No time passes backwards.
pub proof fn lemma_total_nonnegative(deltas: Seq<u64>)
    ensures
        total(deltas) >= 0,
    decreases deltas.len(),
{
    if deltas.len() > 0 {
        lemma_total_nonnegative(deltas.drop_first());
    }
}

/// Arming the cleanup of an idle bundle starts the full delay: with a timer
/// of its own the bundle is removed, in exactly one tick, once that timer's
/// delay has passed; without one and with no other bundle waiting on the
/// shared timer, once the shared delay has passed. Its cleanup task goes in
/// the same tick.
pub proof fn law_cleanup_fires_after_delay(m: LoaderState, bundle: BundleId, deltas: Seq<u64>)
    requires
        m.wf(),
        m.has_bundle(bundle),
        m.bundles[bundle as int].instance.is_some(),
        !m.bundles[bundle as int].cleanup,
        m.bundles[bundle as int].timer.is_none() ==> !m.shared_armed(),
        deltas.len() > 0,
    ensures
        ({
            let delay = match m.bundles[bundle as int].timer {
                Some(timer) => timer.duration,
                None => m.global_timer.duration,
            };
            let after = m.arm(bundle).ticks(deltas).bundles[bundle as int];
            if total(deltas) >= delay {
                &&& after.instance.is_none()
                &&& !after.cleanup
                &&& m.arm(bundle).removals(bundle, deltas) == 1
            } else {
                &&& after.instance == m.bundles[bundle as int].instance
                &&& after.cleanup
                &&& m.arm(bundle).removals(bundle, deltas) == 0
            }
        }),
{
    lemma_arm_wf(m, bundle);
    if m.bundles[bundle as int].timer.is_some() {
        law_dedicated_cleanup_fires(m.arm(bundle), bundle, deltas);
    } else {
        law_shared_cleanup_fires(m.arm(bundle), bundle, deltas);
    }
}

/// When the shared timer has run out it is rewound and no bundle waits on
/// it any more, so that a bundle whose cleanup is armed after that waits
/// for the full shared delay: nothing of the earlier countdown is carried
/// over.
pub proof fn law_shared_timer_reuse(
    m: LoaderState,
    delta: u64,
    bundle: BundleId,
    deltas: Seq<u64>,
)
    requires
        m.wf(),
        m.shared_fires(delta),
        m.has_bundle(bundle),
        m.tick(delta).bundles[bundle as int].instance.is_some(),
        !m.tick(delta).bundles[bundle as int].cleanup,
        m.tick(delta).bundles[bundle as int].timer.is_none(),
        deltas.len() > 0,
    ensures
        m.tick(delta).global_timer == m.global_timer.rewound(),
        !m.tick(delta).shared_armed(),
        ({
            let again = m.tick(delta).arm(bundle);
            let after = again.ticks(deltas).bundles[bundle as int];
            if total(deltas) >= m.global_timer.duration {
                &&& after.instance.is_none()
                &&& !after.cleanup
                &&& again.removals(bundle, deltas) == 1
            } else {
                &&& after.instance == m.tick(delta).bundles[bundle as int].instance
                &&& after.cleanup
                &&& again.removals(bundle, deltas) == 0
            }
        }),
{
    lemma_tick_wf(m, delta);
    law_cleanup_fires_after_delay(m.tick(delta), bundle, deltas);
}

} // verus!
