//! The loader: the context that the dispatcher, the poller and the cleanup
//! scheduler work on.

use vstd::prelude::*;
use std::collections::HashMap;
use bevy::asset::HandleId;
use crate::bundle::{
    first_failed, paths_view, AssetLoaderEvent, Bundle, BundleId, LoadState, Scan,
};
use crate::model::{BundleState, Dispatch, ExitHook, LoaderState};
use crate::schedule::{ScheduleNextState, StateId};
use crate::timer::GlobalAssetCleanUpTimer;
use crate::wellformed::{
    lemma_arm_wf, lemma_bind_wf, lemma_dispatch_wf, lemma_exit_wf, lemma_hook_wf,
    lemma_init_assets_wf, lemma_poll_wf, lemma_register_wf, lemma_remove_wf, lemma_request_wf,
    lemma_set_timer_wf, lemma_take_next_wf, lemma_tick_wf,
};

verus! {

/// What the poller found when it looked at a bundle.
#[derive(Debug)]
pub enum Progress {
    /// The loading of the bundle is not in flight.
    Idle,
    /// Nothing has failed and something is still missing.
    Pending,
    /// The asset at this position of the schema has failed, and none before
    /// it. The loading episode is over and the request stays pending.
    Failed { asset: usize },
    /// Every handle has loaded. The loading episode is over; `committed`
    /// holds the state that the loader committed to, if the pending request
    /// was for a state that needs this bundle.
    Loaded { event: AssetLoaderEvent, committed: Option<StateId> },
}

/// What `progress` must be when the poller looks at `bundle` with the load
/// states `states` in the state `before`.
pub open spec fn progress_matches(
    before: LoaderState,
    bundle: BundleId,
    states: Seq<LoadState>,
    progress: Progress,
) -> bool {
    match progress {
        Progress::Idle => !before.is_loading(bundle),
        Progress::Pending => {
            &&& before.is_loading(bundle)
            &&& !before.poll_fails(bundle, states)
            &&& !before.poll_completes(bundle, states)
        },
        Progress::Failed { asset } => {
            &&& before.poll_fails(bundle, states)
            &&& first_failed(before.bundles[bundle as int].assets.len(), states, asset as int)
        },
        Progress::Loaded { event, committed } => {
            &&& before.poll_completes(bundle, states)
            &&& event.bundle == bundle
            &&& before.bundles[bundle as int].instance == Some(event.handles@)
            &&& committed == if before.waits_for(bundle) {
                before.schedule.state
            } else {
                None
            }
        },
    }
}

/// The states of the bundles of a registry.
pub open spec fn bundle_views(bundles: Seq<Bundle>) -> Seq<BundleState> {
    Seq::new(bundles.len(), |b: int| bundles[b]@)
}

/// Whether one of the first `upto` hooks arms `bundle` at the exit from
/// `state`.
pub open spec fn hooked_before(hooks: Seq<ExitHook>, upto: int, state: StateId, bundle: int) -> bool {
    exists|j: int| 0 <= j < upto && j < hooks.len() && #[trigger] hooks[j] == (ExitHook {
        state,
        bundle: bundle as BundleId,
    })
}

/// A copy of a list of handles.
fn copy_handles(handles: &Vec<HandleId>) -> (copy: Vec<HandleId>)
    ensures
        copy@ == handles@,
{
    let mut copy: Vec<HandleId> = Vec::new();
    let mut i: usize = 0;
    while i < handles.len()
        invariant
            i <= handles.len(),
            copy@ == handles@.take(i as int),
        decreases handles.len() - i,
    {
        copy.push(handles[i]);
        i += 1;
    }
    copy
}

/// The state-scoped asset loader.
///
/// The host registers its bundle types, says which state needs which bundle
/// and at which exits a bundle is to be cleaned up, and then drives the
/// loader once per frame: [`AssetLoader::load_assets`] dispatches a new
/// request, [`AssetLoader::check_assets`] polls a loading bundle with the
/// load states that the host has asked the asset server for, and
/// [`handle_cleanup`] lets time pass for the armed cleanups.
#[derive(Debug)]
pub struct AssetLoader {
    bundles: Vec<Bundle>,
    required: HashMap<StateId, BundleId>,
    hooks: Vec<ExitHook>,
    schedule: ScheduleNextState,
    next_state: Option<StateId>,
    global_timer: GlobalAssetCleanUpTimer,
}

impl View for AssetLoader {
    type V = LoaderState;

    closed spec fn view(&self) -> LoaderState {
        LoaderState {
            bundles: bundle_views(self.bundles@),
            required: self.required@,
            hooks: self.hooks@,
            schedule: self.schedule,
            next_state: self.next_state,
            global_timer: self.global_timer.0,
        }
    }
}

impl AssetLoader {
    /// The invariant of the loader: that of its state.
    pub open spec fn wf(&self) -> bool {
        self@.wf()
    }

    /// A loader with nothing registered, nothing pending and the shared
    /// cleanup timer at its default delay.
    pub fn new() -> (loader: Self)
        ensures
            loader@ == LoaderState::empty(),
            loader.wf(),
    {
        let loader = AssetLoader {
            bundles: Vec::new(),
            required: HashMap::new(),
            hooks: Vec::new(),
            schedule: ScheduleNextState::new(),
            next_state: None,
            global_timer: GlobalAssetCleanUpTimer::default(),
        };
        assert(loader@.bundles =~= Seq::empty());
        assert(loader@.hooks =~= Seq::empty());
        loader
    }

    /// Registers a bundle type with the asset paths of its schema and gives
    /// back its id.
    pub fn register_bundle(&mut self, assets: Vec<String>) -> (bundle: BundleId)
        requires
            old(self).wf(),
        ensures
            bundle == old(self)@.bundles.len(),
            final(self)@ == old(self)@.register(paths_view(assets@)),
            final(self).wf(),
    {
        let bundle = self.bundles.len();
        self.bundles.push(Bundle::new(assets));
        proof {
            assert(self@.bundles =~= old(self)@.register(paths_view(assets@)).bundles);
            lemma_register_wf(old(self)@, paths_view(assets@));
        }
        bundle
    }

    /// Declares that `state` needs `bundle`. A state needs at most one
    /// bundle: the first declaration stands. Says whether `state` was bound
    /// to `bundle` by this call.
    pub fn require_bundle(&mut self, state: StateId, bundle: BundleId) -> (bound: bool)
        requires
            old(self).wf(),
        ensures
            bound == old(self)@.binds(state, bundle),
            final(self)@ == old(self)@.bind(state, bundle),
            final(self).wf(),
    {
        proof {
            lemma_bind_wf(self@, state, bundle);
        }
        if bundle < self.bundles.len() && !self.required.contains_key(&state) {
            self.required.insert(state, bundle);
            true
        } else {
            false
        }
    }

    /// The bundle that `state` needs, if it needs one.
    pub fn required_bundle(&self, state: StateId) -> (bundle: Option<BundleId>)
        ensures
            bundle == self@.required_bundle(state),
    {
        match self.required.get(&state) {
            Some(bundle) => Some(*bundle),
            None => None,
        }
    }

    /// Arms the cleanup of `bundle` at every exit from `state`. Declaring
    /// the same exit twice is the same as declaring it once. Says whether
    /// `bundle` is registered.
    pub fn cleanup_assets_on_exit(&mut self, bundle: BundleId, state: StateId) -> (hooked: bool)
        requires
            old(self).wf(),
        ensures
            hooked == old(self)@.has_bundle(bundle),
            final(self)@ == old(self)@.hook(bundle, state),
            final(self).wf(),
    {
        proof {
            lemma_hook_wf(self@, bundle, state);
        }
        if bundle >= self.bundles.len() {
            return false;
        }
        let mut i: usize = 0;
        while i < self.hooks.len()
            invariant
                i <= self.hooks.len(),
                *self == *old(self),
                bundle < self.bundles.len(),
                old(self)@.hook(bundle, state).wf(),
                forall|j: int| 0 <= j < i ==> self.hooks[j] != (ExitHook { state, bundle }),
            decreases self.hooks.len() - i,
        {
            let hook = self.hooks[i];
            if hook.state == state && hook.bundle == bundle {
                assert(self@.hooked(state, bundle));
                return true;
            }
            i += 1;
        }
        self.hooks.push(ExitHook { state, bundle });
        true
    }

    /// Gives `bundle` a cleanup timer of its own, of `duration` nanoseconds,
    /// in place of the shared one. Says whether `bundle` is registered.
    pub fn insert_cleanup_timer(&mut self, bundle: BundleId, duration: u64) -> (inserted: bool)
        requires
            old(self).wf(),
        ensures
            inserted == old(self)@.has_bundle(bundle),
            final(self)@ == old(self)@.set_timer(bundle, duration),
            final(self).wf(),
    {
        proof {
            lemma_set_timer_wf(self@, bundle, duration);
        }
        if bundle >= self.bundles.len() {
            return false;
        }
        self.bundles[bundle].set_timer(duration);
        assert(self@.bundles =~= old(self)@.bundles.update(
            bundle as int,
            old(self)@.bundles[bundle as int].timed(duration),
        ));
        self.settle_shared();
        true
    }

    /// Requests a transition to `state`. The last request wins, and asking
    /// again for the state that is already pending changes nothing.
    pub fn request_transition(&mut self, state: StateId)
        requires
            old(self).wf(),
        ensures
            final(self)@ == old(self)@.request(state),
            final(self).wf(),
    {
        proof {
            lemma_request_wf(self@, state);
        }
        self.schedule.set(state);
    }

    /// The dispatcher. It acts once on each new request: a state that needs
    /// no bundle is committed at once and the request cleared; for a state
    /// that needs a bundle the request stays pending, and the host is told
    /// to load the bundle unless it has an instance already.
    pub fn load_assets(&mut self) -> (outcome: Dispatch)
        requires
            old(self).wf(),
        ensures
            outcome == old(self)@.dispatch_outcome(),
            final(self)@ == old(self)@.dispatch(),
            final(self).wf(),
    {
        proof {
            lemma_dispatch_wf(self@);
        }
        let changed = self.schedule.observe();
        if !changed {
            return Dispatch::Idle;
        }
        match self.schedule.get() {
            None => Dispatch::Idle,
            Some(state) => match self.required_bundle(state) {
                None => {
                    self.next_state = Some(state);
                    self.schedule.clear();
                    Dispatch::Commit(state)
                },
                Some(bundle) => {
                    assert(old(self)@.required.contains_key(state));
                    if self.bundles[bundle].is_live() {
                        self.bundles[bundle].resume();
                        assert(self@.bundles =~= old(self)@.dispatch().bundles);
                        Dispatch::Resume(bundle)
                    } else {
                        Dispatch::Load(bundle)
                    }
                },
            },
        }
    }

    /// Starts a loading episode of `bundle`. A bundle without an instance
    /// takes `handles` as its instance, one handle for each asset of its
    /// schema and in that order; a bundle that has an instance keeps it, and
    /// `handles` are dropped. Says whether the loading of `bundle` is now in
    /// flight.
    pub fn init_assets(&mut self, bundle: BundleId, handles: Vec<HandleId>) -> (started: bool)
        requires
            old(self).wf(),
        ensures
            started == old(self)@.inits(bundle, handles@),
            final(self)@ == old(self)@.init_assets(bundle, handles@),
            final(self).wf(),
    {
        proof {
            lemma_init_assets_wf(self@, bundle, handles@);
        }
        if bundle >= self.bundles.len() {
            return false;
        }
        let ghost given = handles@;
        let started = self.bundles[bundle].start(handles);
        assert(self@.bundles =~= old(self)@.init_assets(bundle, given).bundles);
        started
    }

    /// Whether the pending request is for a state that needs `bundle`.
    pub fn waits_for(&self, bundle: BundleId) -> (waits: bool)
        ensures
            waits == self@.waits_for(bundle),
    {
        match self.schedule.get() {
            Some(state) => match self.required_bundle(state) {
                Some(needed) => needed == bundle,
                None => false,
            },
            None => false,
        }
    }

    /// The poller. It looks at the load states that the host reports for
    /// the handles of `bundle`, in the order of the handles, while the
    /// loading of `bundle` is in flight. One failed handle ends the episode
    /// and leaves the request pending. When every handle has loaded, the
    /// episode ends with an event that lists the handles, and the pending
    /// request is committed in the same call if it is for a state that needs
    /// this bundle.
    pub fn check_assets(&mut self, bundle: BundleId, states: &Vec<LoadState>) -> (progress:
        Progress)
        requires
            old(self).wf(),
        ensures
            progress_matches(old(self)@, bundle, states@, progress),
            final(self)@ == old(self)@.poll(bundle, states@),
            final(self).wf(),
    {
        proof {
            lemma_poll_wf(self@, bundle, states@);
        }
        if bundle >= self.bundles.len() {
            return Progress::Idle;
        }
        if !self.bundles[bundle].is_loading() {
            return Progress::Idle;
        }
        match self.bundles[bundle].check(states) {
            Scan::Pending => Progress::Pending,
            Scan::Failed(asset) => {
                self.bundles[bundle].settle();
                assert(self@.bundles =~= old(self)@.poll(bundle, states@).bundles);
                Progress::Failed { asset }
            },
            Scan::Loaded => {
                let handles = match self.bundles[bundle].handles() {
                    Some(handles) => copy_handles(handles),
                    None => Vec::new(),
                };
                let committed = if self.waits_for(bundle) {
                    self.schedule.get()
                } else {
                    None
                };
                self.bundles[bundle].settle();
                if committed.is_some() {
                    self.next_state = committed;
                    self.schedule.clear();
                }
                assert(self@.bundles =~= old(self)@.poll(bundle, states@).bundles);
                Progress::Loaded { event: AssetLoaderEvent { bundle, handles }, committed }
            },
        }
    }

    /// Tells the loader that the host has left `state`: the cleanup of
    /// every bundle hooked to that exit is triggered.
    pub fn exit_state(&mut self, state: StateId)
        requires
            old(self).wf(),
        ensures
            final(self)@ == old(self)@.exit(state),
            final(self).wf(),
    {
        proof {
            lemma_exit_wf(self@, state);
        }
        let mut i: usize = 0;
        while i < self.hooks.len()
            invariant
                i <= self.hooks.len(),
                old(self).wf(),
                self.hooks == old(self).hooks,
                self.required == old(self).required,
                self.schedule == old(self).schedule,
                self.next_state == old(self).next_state,
                self.global_timer == old(self).global_timer,
                self.bundles.len() == old(self).bundles.len(),
                forall|b: int|
                    0 <= b < self.bundles.len() ==> (#[trigger] self.bundles[b])@ == if hooked_before(
                        self.hooks@,
                        i as int,
                        state,
                        b,
                    ) {
                        old(self).bundles[b]@.armed()
                    } else {
                        old(self).bundles[b]@
                    },
            decreases self.hooks.len() - i,
        {
            let hook = self.hooks[i];
            let ghost before = self.bundles@;
            if hook.state == state {
                assert(old(self)@.hooks[i as int].bundle < old(self)@.bundles.len());
                self.bundles[hook.bundle].arm();
            }
            proof {
                assert forall|b: int| 0 <= b < self.bundles.len() implies (
                #[trigger] self.bundles[b])@ == if hooked_before(
                    self.hooks@,
                    i as int + 1,
                    state,
                    b,
                ) {
                    old(self).bundles[b]@.armed()
                } else {
                    old(self).bundles[b]@
                } by {
                    if hook.state == state && hook.bundle == b {
                        assert(self.hooks@[i as int] == (ExitHook { state, bundle: b as BundleId }));
                    } else {
                        assert(self.bundles[b] == before[b]);
                        if hooked_before(self.hooks@, i as int + 1, state, b) {
                            let j = choose|j: int|
                                0 <= j < i as int + 1 && j < self.hooks@.len()
                                    && #[trigger] self.hooks@[j] == (ExitHook {
                                    state,
                                    bundle: b as BundleId,
                                });
                            assert(j != i);
                            assert(hooked_before(self.hooks@, i as int, state, b));
                        }
                    }
                }
            }
            i += 1;
        }
        proof {
            assert forall|b: int| 0 <= b < self.bundles.len() implies hooked_before(
                self.hooks@,
                i as int,
                state,
                b,
            ) == old(self)@.hooked(state, b as BundleId) by {
                if old(self)@.hooked(state, b as BundleId) {
                    let j = choose|j: int|
                        0 <= j < self.hooks@.len() && self.hooks@[j] == (ExitHook {
                            state,
                            bundle: b as BundleId,
                        });
                    assert(self.hooks@[j] == (ExitHook { state, bundle: b as BundleId }));
                }
            }
            assert(self@.bundles =~= old(self)@.exit(state).bundles);
        }
    }

    /// Removes the instance of `bundle` at once, with both of its markers.
    /// Says whether `bundle` is registered.
    pub fn remove_assets(&mut self, bundle: BundleId) -> (removed: bool)
        requires
            old(self).wf(),
        ensures
            removed == old(self)@.has_bundle(bundle),
            final(self)@ == old(self)@.remove(bundle),
            final(self).wf(),
    {
        proof {
            lemma_remove_wf(self@, bundle);
        }
        if bundle >= self.bundles.len() {
            return false;
        }
        self.bundles[bundle].remove();
        assert(self@.bundles =~= old(self)@.bundles.update(
            bundle as int,
            old(self)@.bundles[bundle as int].removed(),
        ));
        self.settle_shared();
        true
    }

    /// The state that the loader has committed to and the host has not
    /// taken yet.
    pub fn next_state(&self) -> (state: Option<StateId>)
        ensures
            state == self@.next_state,
    {
        self.next_state
    }

    /// Hands the committed next state over to the host.
    pub fn take_next_state(&mut self) -> (state: Option<StateId>)
        requires
            old(self).wf(),
        ensures
            state == old(self)@.next_state,
            final(self)@ == old(self)@.take_next(),
            final(self).wf(),
    {
        let state = self.next_state;
        self.next_state = None;
        proof {
            lemma_take_next_wf(old(self)@);
        }
        state
    }

    /// The requested next state.
    pub fn schedule(&self) -> (schedule: ScheduleNextState)
        ensures
            schedule == self@.schedule,
    {
        self.schedule
    }

    /// The shared cleanup timer.
    pub fn global_timer(&self) -> (timer: GlobalAssetCleanUpTimer)
        ensures
            timer.0 == self@.global_timer,
    {
        self.global_timer
    }

    /// The number of registered bundle types.
    pub fn bundle_count(&self) -> (count: usize)
        ensures
            count == self@.bundles.len(),
    {
        self.bundles.len()
    }

    /// The registry entry of `bundle`, if it is registered.
    pub fn bundle(&self, bundle: BundleId) -> (entry: Option<&Bundle>)
        ensures
            match entry {
                Some(entry) => self@.has_bundle(bundle) && entry@ == self@.bundles[bundle as int],
                None => !self@.has_bundle(bundle),
            },
    {
        if bundle < self.bundles.len() {
            Some(&self.bundles[bundle])
        } else {
            None
        }
    }

    /// Whether some armed bundle waits on the shared timer.
    fn any_shared_armed(&self) -> (armed: bool)
        ensures
            armed == self@.shared_armed(),
    {
        let mut i: usize = 0;
        while i < self.bundles.len()
            invariant
                i <= self.bundles.len(),
                forall|b: int| 0 <= b < i ==> !(#[trigger] self@.bundles[b]).shared(),
            decreases self.bundles.len() - i,
        {
            if self.bundles[i].is_shared() {
                assert(self@.bundles[i as int].shared());
                return true;
            }
            i += 1;
        }
        false
    }

    /// Rewinds the shared timer unless a bundle waits on it.
    fn settle_shared(&mut self)
        ensures
            final(self)@ == old(self)@.settle_shared(),
    {
        if !self.any_shared_armed() {
            self.global_timer.0.reset();
        }
    }
}

/// Triggers the cleanup of `bundle`: it is armed if the bundle has an
/// instance, and nothing happens if it has none.
pub fn trigger_cleanup(loader: &mut AssetLoader, bundle: BundleId)
    requires
        old(loader).wf(),
    ensures
        final(loader)@ == old(loader)@.arm(bundle),
        final(loader).wf(),
{
    proof {
        lemma_arm_wf(loader@, bundle);
    }
    if bundle < loader.bundles.len() {
        loader.bundles[bundle].arm();
        assert(loader@.bundles =~= old(loader)@.arm(bundle).bundles);
    }
}

/// Lets `delta` nanoseconds pass for every armed cleanup. The shared timer
/// is advanced once if some bundle waits on it, the timer of every other
/// armed bundle on its own. A timer that runs out removes the instance and
/// the cleanup task of each bundle that waited on it, and is rewound.
pub fn handle_cleanup(loader: &mut AssetLoader, delta: u64)
    requires
        old(loader).wf(),
    ensures
        final(loader)@ == old(loader)@.tick(delta),
        final(loader).wf(),
{
    proof {
        lemma_tick_wf(loader@, delta);
    }
    let shared_armed = loader.any_shared_armed();
    let mut shared_fires = false;
    if shared_armed {
        shared_fires = loader.global_timer.0.tick_and_rewind(delta);
    }
    let mut i: usize = 0;
    while i < loader.bundles.len()
        invariant
            i <= loader.bundles.len(),
            shared_fires == old(loader)@.shared_fires(delta),
            loader.hooks == old(loader).hooks,
            loader.required == old(loader).required,
            loader.schedule == old(loader).schedule,
            loader.next_state == old(loader).next_state,
            loader.global_timer.0 == old(loader)@.tick(delta).global_timer,
            loader.bundles.len() == old(loader).bundles.len(),
            forall|b: int|
                0 <= b < i ==> (#[trigger] loader.bundles[b])@ == old(loader).bundles[b]@.after_tick(
                    delta,
                    shared_fires,
                ),
            forall|b: int|
                i <= b < loader.bundles.len() ==> #[trigger] loader.bundles[b] == old(
                    loader,
                ).bundles[b],
        decreases loader.bundles.len() - i,
    {
        loader.bundles[i].tick(delta, shared_fires);
        i += 1;
    }
    assert(loader@.bundles =~= old(loader)@.tick(delta).bundles);
}

} // verus!
