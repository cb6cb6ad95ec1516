//! The loader as a state machine over sequences and maps.
//!
//! Every operation of the loader is a function here from one
//! [`LoaderState`] to the next, and what the loader guarantees is stated and
//! proved over these functions.

use vstd::prelude::*;
use bevy::asset::HandleId;
use crate::bundle::{all_loaded, any_failed, BundleId, LoadState};
use crate::schedule::{ScheduleNextState, StateId};
use crate::timer::{AssetCleanUpTimer, DEFAULT_CLEANUP_DELAY};

verus! {

/// One bundle type and what is known of its instance.
pub struct BundleState {
    /// The asset paths of the schema.
    pub assets: Seq<Seq<char>>,
    /// The handles of the instance, one for each asset, while there is one.
    pub instance: Option<Seq<HandleId>>,
    /// Whether loading is in flight.
    pub loading: bool,
    /// Whether cleanup is armed.
    pub cleanup: bool,
    /// The bundle's own cleanup timer, if it has one.
    pub timer: Option<AssetCleanUpTimer>,
}

impl BundleState {
    /// Both markers stand for an instance, the instance has one handle for
    /// each asset, and the bundle's own timer counts only while cleanup is
    /// armed.
    pub open spec fn wf(self) -> bool {
        &&& self.instance matches Some(handles) ==> handles.len() == self.assets.len()
        &&& self.loading ==> self.instance.is_some()
        &&& self.cleanup ==> self.instance.is_some()
        &&& self.timer matches Some(t) ==> t.elapsed == 0 || (self.cleanup && t.elapsed
            < t.duration)
    }

    /// A bundle type that was just registered.
    pub open spec fn fresh(assets: Seq<Seq<char>>) -> Self {
        BundleState { assets, instance: None, loading: false, cleanup: false, timer: None }
    }

    /// Whether a loading episode can start with `handles`.
    pub open spec fn starts(self, handles: Seq<HandleId>) -> bool {
        self.instance.is_some() || handles.len() == self.assets.len()
    }

    /// The bundle after a loading episode was asked for: an instance that is
    /// there stays, and `handles` become the instance only if there is none.
    pub open spec fn started(self, handles: Seq<HandleId>) -> Self {
        if self.instance.is_some() {
            BundleState { loading: true, ..self }
        } else if handles.len() == self.assets.len() {
            BundleState { instance: Some(handles), loading: true, ..self }
        } else {
            self
        }
    }

    /// The bundle marked as loading again, if it has an instance.
    pub open spec fn resumed(self) -> Self {
        if self.instance.is_some() {
            BundleState { loading: true, ..self }
        } else {
            self
        }
    }

    /// The bundle with its loading episode over.
    pub open spec fn settled(self) -> Self {
        BundleState { loading: false, ..self }
    }

    /// The bundle with cleanup armed, if it has an instance.
    pub open spec fn armed(self) -> Self {
        if self.instance.is_some() {
            BundleState { cleanup: true, ..self }
        } else {
            self
        }
    }

    /// The bundle without its instance: both markers go with it and its own
    /// timer is rewound.
    pub open spec fn removed(self) -> Self {
        BundleState {
            instance: None,
            loading: false,
            cleanup: false,
            timer: match self.timer {
                Some(t) => Some(t.rewound()),
                None => None,
            },
            ..self
        }
    }

    /// The bundle with a timer of its own that has not started.
    pub open spec fn timed(self, duration: u64) -> Self {
        BundleState { timer: Some(AssetCleanUpTimer { duration, elapsed: 0 }), ..self }
    }

    /// Whether the bundle's cleanup waits on the shared timer.
    pub open spec fn shared(self) -> bool {
        self.cleanup && self.timer.is_none()
    }

    /// Whether a tick by `delta` removes the bundle, where `shared_fires`
    /// says whether the shared timer runs out on that tick.
    pub open spec fn cleaned_by(self, delta: u64, shared_fires: bool) -> bool {
        self.cleanup && match self.timer {
            Some(t) => t.fires(delta),
            None => shared_fires,
        }
    }

    /// The bundle after a tick by `delta`.
    pub open spec fn after_tick(self, delta: u64, shared_fires: bool) -> Self {
        if self.cleaned_by(delta, shared_fires) {
            self.removed()
        } else if self.cleanup {
            match self.timer {
                Some(t) => BundleState { timer: Some(t.ticked(delta)), ..self },
                None => self,
            }
        } else {
            self
        }
    }
}

/// Cleanup of `bundle` is armed whenever the host leaves `state`.
#[derive(Clone, Copy, Debug, PartialEq, Eq, Structural)]
pub struct ExitHook {
    pub state: StateId,
    pub bundle: BundleId,
}

/// What the dispatcher decided.
#[derive(Clone, Copy, Debug, PartialEq, Eq, Structural)]
pub enum Dispatch {
    /// No request awaited dispatch.
    Idle,
    /// The requested state needs no bundle: the transition is committed.
    Commit(StateId),
    /// The requested state needs this bundle, which has no instance: the
    /// host is to load its assets and hand the handles over.
    Load(BundleId),
    /// The requested state needs this bundle, which has an instance: it is
    /// polled again and nothing is to be loaded.
    Resume(BundleId),
}

/// The time that passes in the ticks of `deltas`.
pub open spec fn total(deltas: Seq<u64>) -> int
    decreases deltas.len(),
{
    if deltas.len() == 0 {
        0
    } else {
        deltas.first() + total(deltas.drop_first())
    }
}

/// Everything the loader knows.
pub struct LoaderState {
    /// The registry: every bundle type, at the position that is its id.
    pub bundles: Seq<BundleState>,
    /// The bundle that a state needs. A state that is no key needs none.
    pub required: Map<StateId, BundleId>,
    /// The exits at which cleanup is armed.
    pub hooks: Seq<ExitHook>,
    /// The requested next state.
    pub schedule: ScheduleNextState,
    /// The next state that the loader has committed to and the host has not
    /// taken yet.
    pub next_state: Option<StateId>,
    /// The shared cleanup timer.
    pub global_timer: AssetCleanUpTimer,
}

/// One operation of the loader with its arguments.
pub enum Step {
    Register(Seq<Seq<char>>),
    Bind(StateId, BundleId),
    Hook(BundleId, StateId),
    SetTimer(BundleId, u64),
    Request(StateId),
    Dispatch,
    Init(BundleId, Seq<HandleId>),
    Poll(BundleId, Seq<LoadState>),
    Arm(BundleId),
    Exit(StateId),
    Tick(u64),
    Remove(BundleId),
    TakeNext,
}

impl LoaderState {
    /// A loader with nothing registered and nothing pending.
    pub open spec fn empty() -> Self {
        LoaderState {
            bundles: Seq::empty(),
            required: Map::empty(),
            hooks: Seq::empty(),
            schedule: ScheduleNextState { state: None, changed: false },
            next_state: None,
            global_timer: AssetCleanUpTimer { duration: DEFAULT_CLEANUP_DELAY, elapsed: 0 },
        }
    }

    /// Whether `bundle` names a registered bundle type.
    pub open spec fn has_bundle(self, bundle: BundleId) -> bool {
        bundle < self.bundles.len()
    }

    /// The bundle that `state` needs, if it needs one.
    pub open spec fn required_bundle(self, state: StateId) -> Option<BundleId> {
        if self.required.contains_key(state) {
            Some(self.required[state])
        } else {
            None
        }
    }

    /// The number of live instances of `bundle`.
    pub open spec fn live_instances(self, bundle: BundleId) -> nat {
        if self.has_bundle(bundle) && self.bundles[bundle as int].instance.is_some() {
            1
        } else {
            0
        }
    }

    /// Whether some armed bundle waits on the shared timer.
    pub open spec fn shared_armed(self) -> bool {
        exists|b: int| 0 <= b < self.bundles.len() && (#[trigger] self.bundles[b]).shared()
    }

    /// Every bundle is well formed, states and exits name registered
    /// bundles, a request that the dispatcher has seen and that is still
    /// pending is for a state that needs a bundle, and the shared timer
    /// counts only while a bundle waits on it.
    pub open spec fn wf(self) -> bool {
        &&& forall|b: int| 0 <= b < self.bundles.len() ==> (#[trigger] self.bundles[b]).wf()
        &&& forall|s: StateId| #[trigger]
            self.required.contains_key(s) ==> self.required[s] < self.bundles.len()
        &&& forall|i: int|
            0 <= i < self.hooks.len() ==> (#[trigger] self.hooks[i]).bundle < self.bundles.len()
        &&& self.schedule.wf()
        &&& self.schedule.state matches Some(s) ==> self.schedule.changed
            || self.required.contains_key(s)
        &&& self.global_timer.elapsed == 0 || (self.shared_armed() && self.global_timer.elapsed
            < self.global_timer.duration)
    }

    /// The loader with `bundle` replaced by `state`.
    pub open spec fn with_bundle(self, bundle: BundleId, state: BundleState) -> Self {
        LoaderState { bundles: self.bundles.update(bundle as int, state), ..self }
    }

    /// The loader with the shared timer rewound unless a bundle waits on it.
    pub open spec fn settle_shared(self) -> Self {
        if self.shared_armed() {
            self
        } else {
            LoaderState { global_timer: self.global_timer.rewound(), ..self }
        }
    }

    /// Registers a bundle type with the given asset paths. Its id is the
    /// number of bundle types registered before.
    pub open spec fn register(self, assets: Seq<Seq<char>>) -> Self {
        LoaderState { bundles: self.bundles.push(BundleState::fresh(assets)), ..self }
    }

    /// Whether `state` can be bound to `bundle`: the bundle is registered
    /// and the state is not bound yet.
    pub open spec fn binds(self, state: StateId, bundle: BundleId) -> bool {
        self.has_bundle(bundle) && !self.required.contains_key(state)
    }

    /// Declares that `state` needs `bundle`. A state that is bound stays
    /// bound to the bundle it has.
    pub open spec fn bind(self, state: StateId, bundle: BundleId) -> Self {
        if self.binds(state, bundle) {
            LoaderState { required: self.required.insert(state, bundle), ..self }
        } else {
            self
        }
    }

    /// Whether leaving `state` arms the cleanup of `bundle`.
    pub open spec fn hooked(self, state: StateId, bundle: BundleId) -> bool {
        self.hooks.contains(ExitHook { state, bundle })
    }

    /// Arms the cleanup of `bundle` at every exit from `state`. Declaring
    /// the same exit again changes nothing.
    pub open spec fn hook(self, bundle: BundleId, state: StateId) -> Self {
        if self.has_bundle(bundle) && !self.hooked(state, bundle) {
            LoaderState { hooks: self.hooks.push(ExitHook { state, bundle }), ..self }
        } else {
            self
        }
    }

    /// Gives `bundle` a cleanup timer of its own.
    pub open spec fn set_timer(self, bundle: BundleId, duration: u64) -> Self {
        if self.has_bundle(bundle) {
            self.with_bundle(bundle, self.bundles[bundle as int].timed(duration)).settle_shared()
        } else {
            self
        }
    }

    /// Requests a transition to `state`.
    pub open spec fn request(self, state: StateId) -> Self {
        LoaderState { schedule: self.schedule.requested(state), ..self }
    }

    /// What the dispatcher decides in this state.
    pub open spec fn dispatch_outcome(self) -> Dispatch {
        if !self.schedule.changed {
            Dispatch::Idle
        } else {
            match self.schedule.state {
                None => Dispatch::Idle,
                Some(state) => match self.required_bundle(state) {
                    None => Dispatch::Commit(state),
                    Some(bundle) => if self.bundles[bundle as int].instance.is_some() {
                        Dispatch::Resume(bundle)
                    } else {
                        Dispatch::Load(bundle)
                    },
                },
            }
        }
    }

    /// The loader after the dispatcher ran. A request for a state without a
    /// bundle is committed and cleared; one for a state with a bundle stays
    /// pending, and a bundle that has an instance is marked as loading.
    pub open spec fn dispatch(self) -> Self {
        match self.dispatch_outcome() {
            Dispatch::Idle => LoaderState { schedule: self.schedule.observed(), ..self },
            Dispatch::Commit(state) => LoaderState {
                schedule: self.schedule.cleared(),
                next_state: Some(state),
                ..self
            },
            Dispatch::Load(bundle) => LoaderState { schedule: self.schedule.observed(), ..self },
            Dispatch::Resume(bundle) => LoaderState {
                bundles: self.bundles.update(bundle as int, self.bundles[bundle as int].resumed()),
                schedule: self.schedule.observed(),
                ..self
            },
        }
    }

    /// Whether a loading episode of `bundle` can start with `handles`.
    pub open spec fn inits(self, bundle: BundleId, handles: Seq<HandleId>) -> bool {
        self.has_bundle(bundle) && self.bundles[bundle as int].starts(handles)
    }

    /// The loader after a loading episode of `bundle` was asked for with
    /// `handles`.
    pub open spec fn init_assets(self, bundle: BundleId, handles: Seq<HandleId>) -> Self {
        if self.has_bundle(bundle) {
            self.with_bundle(bundle, self.bundles[bundle as int].started(handles))
        } else {
            self
        }
    }

    /// Whether the loading of `bundle` is in flight.
    pub open spec fn is_loading(self, bundle: BundleId) -> bool {
        self.has_bundle(bundle) && self.bundles[bundle as int].loading
    }

    /// Whether the pending request is for a state that needs `bundle`.
    pub open spec fn waits_for(self, bundle: BundleId) -> bool {
        self.schedule.state matches Some(state) && self.required_bundle(state) == Some(bundle)
    }

    /// Whether a poll of `bundle` with `states` ends its loading episode by
    /// failure.
    pub open spec fn poll_fails(self, bundle: BundleId, states: Seq<LoadState>) -> bool {
        self.is_loading(bundle) && any_failed(self.bundles[bundle as int].assets.len(), states)
    }

    /// Whether a poll of `bundle` with `states` ends its loading episode by
    /// success.
    pub open spec fn poll_completes(self, bundle: BundleId, states: Seq<LoadState>) -> bool {
        &&& self.is_loading(bundle)
        &&& !any_failed(self.bundles[bundle as int].assets.len(), states)
        &&& all_loaded(self.bundles[bundle as int].assets.len(), states)
    }

    /// Whether a poll of `bundle` with `states` commits the pending request.
    pub open spec fn poll_commits(self, bundle: BundleId, states: Seq<LoadState>) -> bool {
        self.poll_completes(bundle, states) && self.waits_for(bundle)
    }

    /// The loader after the poller looked at `bundle` with the load states
    /// `states`. A failure ends the loading episode and leaves the request
    /// pending; completion ends it too and commits the request if it is for
    /// a state that needs this bundle.
    pub open spec fn poll(self, bundle: BundleId, states: Seq<LoadState>) -> Self {
        if self.poll_fails(bundle, states) {
            self.with_bundle(bundle, self.bundles[bundle as int].settled())
        } else if self.poll_completes(bundle, states) {
            let settled = self.with_bundle(bundle, self.bundles[bundle as int].settled());
            if self.waits_for(bundle) {
                LoaderState {
                    schedule: self.schedule.cleared(),
                    next_state: self.schedule.state,
                    ..settled
                }
            } else {
                settled
            }
        } else {
            self
        }
    }

    /// The loader after the cleanup of `bundle` was triggered.
    pub open spec fn arm(self, bundle: BundleId) -> Self {
        if self.has_bundle(bundle) {
            self.with_bundle(bundle, self.bundles[bundle as int].armed())
        } else {
            self
        }
    }

    /// The loader after the host left `state`: the cleanup of every bundle
    /// hooked to that exit is triggered.
    pub open spec fn exit(self, state: StateId) -> Self {
        LoaderState {
            bundles: Seq::new(
                self.bundles.len(),
                |b: int|
                    if self.hooked(state, b as BundleId) {
                        self.bundles[b].armed()
                    } else {
                        self.bundles[b]
                    },
            ),
            ..self
        }
    }

    /// Whether the shared timer runs out on a tick by `delta`.
    pub open spec fn shared_fires(self, delta: u64) -> bool {
        self.shared_armed() && self.global_timer.fires(delta)
    }

    /// Whether a tick by `delta` removes the instance of `bundle`.
    pub open spec fn cleans(self, bundle: BundleId, delta: u64) -> bool {
        self.has_bundle(bundle) && self.bundles[bundle as int].cleaned_by(
            delta,
            self.shared_fires(delta),
        )
    }

    /// The loader after `delta` nanoseconds passed. The shared timer is
    /// advanced once if a bundle waits on it, and the timer of every other
    /// armed bundle on its own; a timer that runs out removes what waits on
    /// it and is rewound.
    pub open spec fn tick(self, delta: u64) -> Self {
        LoaderState {
            bundles: Seq::new(
                self.bundles.len(),
                |b: int| self.bundles[b].after_tick(delta, self.shared_fires(delta)),
            ),
            global_timer: if self.shared_armed() {
                self.global_timer.ticked(delta)
            } else {
                self.global_timer
            },
            ..self
        }
    }

    /// The loader after the instance of `bundle` was removed by hand.
    pub open spec fn remove(self, bundle: BundleId) -> Self {
        if self.has_bundle(bundle) {
            self.with_bundle(bundle, self.bundles[bundle as int].removed()).settle_shared()
        } else {
            self
        }
    }

    /// The loader after the host took the committed next state.
    pub open spec fn take_next(self) -> Self {
        LoaderState { next_state: None, ..self }
    }

    /// The state that an operation commits to, if it commits to one. Only
    /// the dispatcher and the poller commit.
    pub open spec fn commits(self, step: Step) -> Option<StateId> {
        match step {
            Step::Dispatch => match self.dispatch_outcome() {
                Dispatch::Commit(state) => Some(state),
                _ => None,
            },
            Step::Poll(bundle, states) => if self.poll_commits(bundle, states) {
                self.schedule.state
            } else {
                None
            },
            _ => None,
        }
    }

    /// The loader after one operation.
    pub open spec fn step(self, step: Step) -> Self {
        match step {
            Step::Register(assets) => self.register(assets),
            Step::Bind(state, bundle) => self.bind(state, bundle),
            Step::Hook(bundle, state) => self.hook(bundle, state),
            Step::SetTimer(bundle, duration) => self.set_timer(bundle, duration),
            Step::Request(state) => self.request(state),
            Step::Dispatch => self.dispatch(),
            Step::Init(bundle, handles) => self.init_assets(bundle, handles),
            Step::Poll(bundle, states) => self.poll(bundle, states),
            Step::Arm(bundle) => self.arm(bundle),
            Step::Exit(state) => self.exit(state),
            Step::Tick(delta) => self.tick(delta),
            Step::Remove(bundle) => self.remove(bundle),
            Step::TakeNext => self.take_next(),
        }
    }

    /// The loader after one tick for each of `deltas`, in their order.
    pub open spec fn ticks(self, deltas: Seq<u64>) -> Self
        decreases deltas.len(),
    {
        if deltas.len() == 0 {
            self
        } else {
            self.tick(deltas.first()).ticks(deltas.drop_first())
        }
    }

    /// In how many of the ticks of `deltas` the instance of `bundle` is
    /// removed.
    pub open spec fn removals(self, bundle: BundleId, deltas: Seq<u64>) -> nat
        decreases deltas.len(),
    {
        if deltas.len() == 0 {
            0
        } else {
            let now: nat = if self.cleans(bundle, deltas.first()) {
                1
            } else {
                0
            };
            now + self.tick(deltas.first()).removals(bundle, deltas.drop_first())
        }
    }

    /// The loader after the operations of `steps`, one after the other.
    pub open spec fn run(self, steps: Seq<Step>) -> Self
        decreases steps.len(),
    {
        if steps.len() == 0 {
            self
        } else {
            self.run(steps.drop_last()).step(steps.last())
        }
    }
}

} // verus!
