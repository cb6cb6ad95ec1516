//! State-scoped asset loading.
//!
//! An [`AssetLoader`] ties the lifetime of asset bundles to the states of an
//! application: a requested transition into a state that needs a bundle is
//! held back until every handle of the bundle has loaded, and a bundle whose
//! state was left is discarded once its cleanup delay has run out.
//!
//! The loader never touches an asset itself. The host loads, asks for load
//! states and measures time; the loader decides, from what the host reports,
//! when a transition is committed and when a bundle goes.

pub mod bundle;
pub mod laws;
pub mod loader;
pub mod model;
pub mod schedule;
pub mod timer;
pub mod wellformed;

pub use crate::bundle::{
    scan_states, AssetCleanUpTask, AssetLoaderEvent, Bundle, BundleId, LoadState, LoadingAssets,
    Scan,
};
pub use crate::loader::{handle_cleanup, trigger_cleanup, AssetLoader, Progress};
pub use crate::model::{BundleState, Dispatch, ExitHook, LoaderState, Step};
pub use crate::schedule::{ScheduleNextState, StateId};
pub use crate::timer::{AssetCleanUpTimer, GlobalAssetCleanUpTimer, DEFAULT_CLEANUP_DELAY};
