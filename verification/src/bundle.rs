//! The bundle registry's entries: one bundle type with its schema and, while
//! it is loaded, its instance.

use vstd::prelude::*;
use bevy::asset::HandleId;
use crate::model::BundleState;
use crate::timer::AssetCleanUpTimer;

verus! {

/// Names one bundle type: its position in the registry.
pub type BundleId = usize;

/// `bevy::asset::HandleId`, the id under which the asset server knows an
/// asset. The loader stores and hands back such ids and never looks inside
/// one.
#[verifier::external_type_specification]
#[verifier::external_body]
pub struct ExHandleId(HandleId);

/// What the handle loader says of one handle.
#[derive(Clone, Copy, Debug, PartialEq, Eq, Structural)]
pub enum LoadState {
    /// Not there yet.
    Pending,
    /// There and usable.
    Loaded,
    /// Will not come.
    Failed,
}

/// Marks a bundle whose loading is in flight. It goes when the poller sees
/// the bundle complete or one of its handles fail.
#[derive(Clone, Copy, Debug)]
pub struct LoadingAssets;

impl Default for LoadingAssets {
    fn default() -> (marker: Self)
        ensures
            marker == LoadingAssets,
    {
        LoadingAssets
    }
}

/// Marks a bundle whose cleanup is armed. It goes, with the bundle's
/// instance, when the cleanup timer runs out.
#[derive(Clone, Copy, Debug)]
pub struct AssetCleanUpTask;

/// Tells that a bundle has finished loading, with the handles that became
/// ready.
#[derive(Debug)]
pub struct AssetLoaderEvent {
    pub bundle: BundleId,
    pub handles: Vec<HandleId>,
}

/// What a look at the load states of a bundle's handles shows.
#[derive(Clone, Copy, Debug, PartialEq, Eq, Structural)]
pub enum Scan {
    /// No handle has failed and at least one is still missing.
    Pending,
    /// The handle at this position has failed, and none before it.
    Failed(usize),
    /// Every handle has loaded.
    Loaded,
}

/// The asset paths of a schema as sequences of characters.
pub open spec fn paths_view(paths: Seq<String>) -> Seq<Seq<char>> {
    Seq::new(paths.len(), |i: int| paths[i]@)
}

/// Whether the first `count` handles are all reported as loaded. A handle
/// without a report counts as pending.
pub open spec fn all_loaded(count: nat, states: Seq<LoadState>) -> bool {
    &&& count <= states.len()
    &&& forall|i: int| 0 <= i < count ==> #[trigger] states[i] == LoadState::Loaded
}

/// Whether handle `i`, one of the first `count`, is reported as failed.
pub open spec fn failed_at(count: nat, states: Seq<LoadState>, i: int) -> bool {
    0 <= i < count && i < states.len() && states[i] == LoadState::Failed
}

/// Whether one of the first `count` handles is reported as failed.
pub open spec fn any_failed(count: nat, states: Seq<LoadState>) -> bool {
    exists|i: int| failed_at(count, states, i)
}

/// Whether handle `i` is the first of the first `count` handles that is
/// reported as failed.
pub open spec fn first_failed(count: nat, states: Seq<LoadState>, i: int) -> bool {
    &&& failed_at(count, states, i)
    &&& forall|j: int| 0 <= j < i ==> !failed_at(count, states, j)
}

/// What a scan of `states` shows for a bundle of `count` handles: a failure
/// before anything else, completion only if every handle has loaded.
pub open spec fn scan_matches(count: nat, states: Seq<LoadState>, scan: Scan) -> bool {
    match scan {
        Scan::Failed(i) => first_failed(count, states, i as int),
        Scan::Loaded => !any_failed(count, states) && all_loaded(count, states),
        Scan::Pending => !any_failed(count, states) && !all_loaded(count, states),
    }
}

/// Looks at the load states reported for a bundle of `count` handles, in
/// the order of the handles.
pub fn scan_states(count: usize, states: &Vec<LoadState>) -> (scan: Scan)
    ensures
        scan_matches(count as nat, states@, scan),
{
    let mut loaded: bool = true;
    let mut i: usize = 0;
    while i < count
        invariant
            i <= count,
            forall|j: int| 0 <= j < i ==> !failed_at(count as nat, states@, j),
            loaded <==> all_loaded(i as nat, states@),
        decreases count - i,
    {
        if i < states.len() {
            match states[i] {
                LoadState::Loaded => {},
                LoadState::Pending => {
                    loaded = false;
                },
                LoadState::Failed => {
                    assert(failed_at(count as nat, states@, i as int));
                    return Scan::Failed(i);
                },
            }
        } else {
            loaded = false;
        }
        i += 1;
    }
    assert(!any_failed(count as nat, states@));
    if loaded {
        Scan::Loaded
    } else {
        Scan::Pending
    }
}

/// One bundle type in the registry: the asset paths of its schema, the
/// handles of its instance while it has one, its two markers and its own
/// cleanup timer if it was given one.
#[derive(Debug)]
pub struct Bundle {
    assets: Vec<String>,
    instance: Option<Vec<HandleId>>,
    loading: Option<LoadingAssets>,
    cleanup: Option<AssetCleanUpTask>,
    timer: Option<AssetCleanUpTimer>,
}

impl View for Bundle {
    type V = BundleState;

    closed spec fn view(&self) -> BundleState {
        BundleState {
            assets: paths_view(self.assets@),
            instance: match self.instance {
                Some(handles) => Some(handles@),
                None => None,
            },
            loading: self.loading.is_some(),
            cleanup: self.cleanup.is_some(),
            timer: self.timer,
        }
    }
}

impl Bundle {
    /// A bundle type with the given asset paths and no instance.
    pub fn new(assets: Vec<String>) -> (bundle: Self)
        ensures
            bundle@ == BundleState::fresh(paths_view(assets@)),
    {
        Bundle { assets, instance: None, loading: None, cleanup: None, timer: None }
    }

    /// The asset paths of the schema, in the order of the handles.
    pub fn assets(&self) -> (assets: &Vec<String>)
        ensures
            paths_view(assets@) == self@.assets,
    {
        &self.assets
    }

    /// The handles of the instance, if the bundle has one.
    pub fn handles(&self) -> (handles: Option<&Vec<HandleId>>)
        ensures
            match handles {
                Some(h) => self@.instance == Some(h@),
                None => self@.instance.is_none(),
            },
    {
        match &self.instance {
            Some(h) => Some(h),
            None => None,
        }
    }

    /// Whether the bundle has an instance.
    pub fn is_live(&self) -> (live: bool)
        ensures
            live == self@.instance.is_some(),
    {
        self.instance.is_some()
    }

    /// Whether loading is in flight.
    pub fn is_loading(&self) -> (loading: bool)
        ensures
            loading == self@.loading,
    {
        self.loading.is_some()
    }

    /// Whether cleanup is armed.
    pub fn is_armed(&self) -> (armed: bool)
        ensures
            armed == self@.cleanup,
    {
        self.cleanup.is_some()
    }

    /// Whether cleanup is armed and waits on the shared timer.
    pub fn is_shared(&self) -> (shared: bool)
        ensures
            shared == self@.shared(),
    {
        self.cleanup.is_some() && self.timer.is_none()
    }

    /// The bundle's own cleanup timer, if it was given one.
    pub fn timer(&self) -> (timer: Option<AssetCleanUpTimer>)
        ensures
            timer == self@.timer,
    {
        self.timer
    }

    /// Starts a loading episode. A bundle without an instance takes
    /// `handles` as its instance, if there is one handle for each asset of
    /// the schema; a bundle with an instance keeps it. Says whether loading
    /// is now in flight.
    pub fn start(&mut self, handles: Vec<HandleId>) -> (started: bool)
        ensures
            final(self)@ == old(self)@.started(handles@),
            started == old(self)@.starts(handles@),
    {
        if self.instance.is_some() {
            self.loading = Some(LoadingAssets);
            true
        } else if handles.len() == self.assets.len() {
            self.instance = Some(handles);
            self.loading = Some(LoadingAssets);
            true
        } else {
            false
        }
    }

    /// Marks a bundle that has an instance as loading again.
    pub fn resume(&mut self)
        ensures
            final(self)@ == old(self)@.resumed(),
    {
        if self.instance.is_some() {
            self.loading = Some(LoadingAssets);
        }
    }

    /// Ends the loading episode.
    pub fn settle(&mut self)
        ensures
            final(self)@ == old(self)@.settled(),
    {
        self.loading = None;
    }

    /// Arms the cleanup of a bundle that has an instance.
    pub fn arm(&mut self)
        ensures
            final(self)@ == old(self)@.armed(),
    {
        if self.instance.is_some() {
            self.cleanup = Some(AssetCleanUpTask);
        }
    }

    /// Discards the instance with both markers and rewinds the bundle's own
    /// timer.
    pub fn remove(&mut self)
        ensures
            final(self)@ == old(self)@.removed(),
    {
        self.instance = None;
        self.loading = None;
        self.cleanup = None;
        match self.timer {
            Some(timer) => {
                let mut timer = timer;
                timer.reset();
                self.timer = Some(timer);
            },
            None => {},
        }
    }

    /// Gives the bundle a cleanup timer of its own, which has not started.
    pub fn set_timer(&mut self, duration: u64)
        ensures
            final(self)@ == old(self)@.timed(duration),
    {
        self.timer = Some(AssetCleanUpTimer::new(duration));
    }

    /// Lets `delta` nanoseconds pass for an armed bundle. Its own timer is
    /// advanced if it has one; `shared_fires` says whether the shared timer
    /// runs out on this tick. The bundle whose timer runs out is removed.
    pub fn tick(&mut self, delta: u64, shared_fires: bool)
        ensures
            final(self)@ == old(self)@.after_tick(delta, shared_fires),
    {
        if self.cleanup.is_some() {
            match self.timer {
                Some(timer) => {
                    let mut timer = timer;
                    let finished = timer.tick_and_rewind(delta);
                    if finished {
                        self.remove();
                    } else {
                        self.timer = Some(timer);
                    }
                },
                None => {
                    if shared_fires {
                        self.remove();
                    }
                },
            }
        }
    }

    /// Looks at the load states that the host reports for the handles of
    /// this bundle.
    pub fn check(&self, states: &Vec<LoadState>) -> (scan: Scan)
        ensures
            scan_matches(self@.assets.len(), states@, scan),
    {
        scan_states(self.assets.len(), states)
    }
}

} // verus!
