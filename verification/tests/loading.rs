use bevy::asset::HandleId;
use covey_asset_loader::{scan_states, AssetLoader, Dispatch, LoadState, Progress, Scan};

fn two_asset_loader() -> (AssetLoader, usize, Vec<HandleId>) {
    let mut loader = AssetLoader::new();
    let bundle = loader.register_bundle(vec!["a.png".to_string(), "b.ogg".to_string()]);
    assert!(loader.require_bundle(1, bundle));
    let handles = vec![HandleId::from("a.png"), HandleId::from("b.ogg")];
    (loader, bundle, handles)
}

#[test]
fn scan_of_loaded_handles_is_loaded() {
    let states = vec![LoadState::Loaded, LoadState::Loaded];
    assert_eq!(scan_states(2, &states), Scan::Loaded);
}

#[test]
fn scan_with_a_pending_handle_is_pending() {
    let states = vec![LoadState::Loaded, LoadState::Pending, LoadState::Loaded];
    assert_eq!(scan_states(3, &states), Scan::Pending);
}

#[test]
fn scan_reports_the_first_failed_handle() {
    let states = vec![LoadState::Pending, LoadState::Failed, LoadState::Failed];
    assert_eq!(scan_states(3, &states), Scan::Failed(1));
}

#[test]
fn scan_counts_a_missing_report_as_pending() {
    let states = vec![LoadState::Loaded];
    assert_eq!(scan_states(2, &states), Scan::Pending);
}

#[test]
fn scan_ignores_reports_beyond_the_handles() {
    let states = vec![LoadState::Loaded, LoadState::Failed];
    assert_eq!(scan_states(1, &states), Scan::Loaded);
}

#[test]
fn scan_of_no_handles_is_loaded() {
    assert_eq!(scan_states(0, &vec![]), Scan::Loaded);
}

#[test]
fn dispatch_asks_the_host_to_load_and_commits_nothing() {
    let (mut loader, bundle, _) = two_asset_loader();
    loader.request_transition(1);
    assert_eq!(loader.load_assets(), Dispatch::Load(bundle));
    assert_eq!(loader.next_state(), None);
    assert_eq!(loader.schedule().get(), Some(1));
    assert!(!loader.bundle(bundle).unwrap().is_live());
    assert!(!loader.bundle(bundle).unwrap().is_loading());
}

#[test]
fn init_assets_creates_the_instance_and_marks_it_loading() {
    let (mut loader, bundle, handles) = two_asset_loader();
    assert!(loader.init_assets(bundle, handles.clone()));
    let entry = loader.bundle(bundle).unwrap();
    assert!(entry.is_live());
    assert!(entry.is_loading());
    assert_eq!(entry.handles(), Some(&handles));
}

#[test]
fn init_assets_wants_one_handle_for_each_asset() {
    let (mut loader, bundle, handles) = two_asset_loader();
    assert!(!loader.init_assets(bundle, vec![handles[0]]));
    assert!(!loader.bundle(bundle).unwrap().is_live());
    assert!(!loader.bundle(bundle).unwrap().is_loading());
}

#[test]
fn init_assets_of_an_unregistered_bundle_does_nothing() {
    let (mut loader, bundle, handles) = two_asset_loader();
    assert!(!loader.init_assets(bundle + 1, handles));
    assert_eq!(loader.bundle_count(), 1);
}

#[test]
fn init_assets_keeps_a_live_instance() {
    let (mut loader, bundle, handles) = two_asset_loader();
    assert!(loader.init_assets(bundle, handles.clone()));
    let others = vec![HandleId::from("c.png"), HandleId::from("d.ogg")];
    assert!(loader.init_assets(bundle, others));
    assert_eq!(loader.bundle(bundle).unwrap().handles(), Some(&handles));
}

#[test]
fn poll_of_a_bundle_that_is_not_loading_is_idle() {
    let (mut loader, bundle, _) = two_asset_loader();
    let states = vec![LoadState::Loaded, LoadState::Loaded];
    assert!(matches!(loader.check_assets(bundle, &states), Progress::Idle));
    assert!(matches!(loader.check_assets(bundle + 1, &states), Progress::Idle));
    assert_eq!(loader.next_state(), None);
}

#[test]
fn transition_waits_until_every_handle_has_loaded() {
    let (mut loader, bundle, handles) = two_asset_loader();
    loader.request_transition(1);
    assert_eq!(loader.load_assets(), Dispatch::Load(bundle));
    assert!(loader.init_assets(bundle, handles.clone()));

    let states = vec![LoadState::Pending, LoadState::Pending];
    assert!(matches!(loader.check_assets(bundle, &states), Progress::Pending));
    let states = vec![LoadState::Loaded, LoadState::Pending];
    assert!(matches!(loader.check_assets(bundle, &states), Progress::Pending));
    assert_eq!(loader.next_state(), None);
    assert!(loader.bundle(bundle).unwrap().is_loading());

    let states = vec![LoadState::Loaded, LoadState::Loaded];
    match loader.check_assets(bundle, &states) {
        Progress::Loaded { event, committed } => {
            assert_eq!(event.bundle, bundle);
            assert_eq!(event.handles, handles);
            assert_eq!(committed, Some(1));
        }
        other => panic!("unexpected progress {:?}", other),
    }
    assert_eq!(loader.next_state(), Some(1));
    assert_eq!(loader.schedule().get(), None);
    assert!(!loader.bundle(bundle).unwrap().is_loading());
    assert!(loader.bundle(bundle).unwrap().is_live());
}

#[test]
fn a_failed_handle_abandons_the_episode() {
    let (mut loader, bundle, handles) = two_asset_loader();
    loader.request_transition(1);
    assert_eq!(loader.load_assets(), Dispatch::Load(bundle));
    assert!(loader.init_assets(bundle, handles.clone()));

    let states = vec![LoadState::Loaded, LoadState::Failed];
    assert!(matches!(loader.check_assets(bundle, &states), Progress::Failed { asset: 1 }));
    assert_eq!(loader.next_state(), None);
    assert_eq!(loader.schedule().get(), Some(1));
    assert!(!loader.bundle(bundle).unwrap().is_loading());
    assert_eq!(loader.bundle(bundle).unwrap().handles(), Some(&handles));

    let states = vec![LoadState::Loaded, LoadState::Loaded];
    assert!(matches!(loader.check_assets(bundle, &states), Progress::Idle));
    assert_eq!(loader.next_state(), None);
}

#[test]
fn a_failure_counts_even_behind_a_pending_handle() {
    let (mut loader, bundle, handles) = two_asset_loader();
    loader.request_transition(1);
    loader.load_assets();
    assert!(loader.init_assets(bundle, handles));
    let states = vec![LoadState::Pending, LoadState::Failed];
    assert!(matches!(loader.check_assets(bundle, &states), Progress::Failed { asset: 1 }));
    assert!(!loader.bundle(bundle).unwrap().is_loading());
}

#[test]
fn a_new_request_after_a_failure_polls_the_same_instance_again() {
    let (mut loader, bundle, handles) = two_asset_loader();
    loader.request_transition(1);
    loader.load_assets();
    assert!(loader.init_assets(bundle, handles.clone()));
    let states = vec![LoadState::Failed, LoadState::Loaded];
    assert!(matches!(loader.check_assets(bundle, &states), Progress::Failed { asset: 0 }));

    loader.request_transition(2);
    assert_eq!(loader.load_assets(), Dispatch::Commit(2));
    loader.request_transition(1);
    assert_eq!(loader.load_assets(), Dispatch::Resume(bundle));
    assert!(loader.bundle(bundle).unwrap().is_loading());
    assert_eq!(loader.bundle(bundle).unwrap().handles(), Some(&handles));
}

#[test]
fn a_short_report_keeps_the_bundle_pending() {
    let (mut loader, bundle, handles) = two_asset_loader();
    loader.request_transition(1);
    loader.load_assets();
    assert!(loader.init_assets(bundle, handles));
    let states = vec![LoadState::Loaded];
    assert!(matches!(loader.check_assets(bundle, &states), Progress::Pending));
    assert_eq!(loader.next_state(), None);
}

#[test]
fn a_bundle_that_nobody_waits_for_commits_nothing() {
    let mut loader = AssetLoader::new();
    let first = loader.register_bundle(vec!["a.png".to_string()]);
    let second = loader.register_bundle(vec!["b.png".to_string()]);
    assert!(loader.require_bundle(1, first));
    assert!(loader.require_bundle(2, second));

    loader.request_transition(1);
    assert_eq!(loader.load_assets(), Dispatch::Load(first));
    assert!(loader.init_assets(first, vec![HandleId::from("a.png")]));
    loader.request_transition(2);
    assert_eq!(loader.load_assets(), Dispatch::Load(second));
    assert!(loader.init_assets(second, vec![HandleId::from("b.png")]));

    let loaded = vec![LoadState::Loaded];
    match loader.check_assets(first, &loaded) {
        Progress::Loaded { event, committed } => {
            assert_eq!(event.bundle, first);
            assert_eq!(committed, None);
        }
        other => panic!("unexpected progress {:?}", other),
    }
    assert_eq!(loader.next_state(), None);
    assert_eq!(loader.schedule().get(), Some(2));
    assert!(!loader.bundle(first).unwrap().is_loading());

    match loader.check_assets(second, &loaded) {
        Progress::Loaded { committed, .. } => assert_eq!(committed, Some(2)),
        other => panic!("unexpected progress {:?}", other),
    }
    assert_eq!(loader.next_state(), Some(2));
}

#[test]
fn a_bundle_without_assets_completes_at_its_first_poll() {
    let mut loader = AssetLoader::new();
    let bundle = loader.register_bundle(vec![]);
    assert!(loader.require_bundle(1, bundle));
    loader.request_transition(1);
    assert_eq!(loader.load_assets(), Dispatch::Load(bundle));
    assert!(loader.init_assets(bundle, vec![]));
    match loader.check_assets(bundle, &vec![]) {
        Progress::Loaded { event, committed } => {
            assert!(event.handles.is_empty());
            assert_eq!(committed, Some(1));
        }
        other => panic!("unexpected progress {:?}", other),
    }
}

#[test]
fn waits_for_names_the_bundle_of_the_pending_state() {
    let (mut loader, bundle, _) = two_asset_loader();
    assert!(!loader.waits_for(bundle));
    loader.request_transition(1);
    assert!(loader.waits_for(bundle));
    assert!(!loader.waits_for(bundle + 1));
    loader.request_transition(2);
    assert!(!loader.waits_for(bundle));
}
