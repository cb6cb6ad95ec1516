use covey_asset_loader::{AssetLoader, Dispatch, ScheduleNextState};

#[test]
fn new_schedule_holds_nothing() {
    let schedule = ScheduleNextState::new();
    assert_eq!(schedule.get(), None);
    assert!(!schedule.is_changed());
}

#[test]
fn set_records_the_request_and_marks_it_new() {
    let mut schedule = ScheduleNextState::new();
    schedule.set(3);
    assert_eq!(schedule.get(), Some(3));
    assert!(schedule.is_changed());
}

#[test]
fn set_twice_with_the_same_state_is_one_request() {
    let mut once = ScheduleNextState::new();
    once.set(3);
    let mut twice = ScheduleNextState::new();
    twice.set(3);
    twice.set(3);
    assert_eq!(once.get(), twice.get());
    assert_eq!(once.is_changed(), twice.is_changed());
}

#[test]
fn set_again_after_observe_does_not_mark_the_request_new() {
    let mut schedule = ScheduleNextState::new();
    schedule.set(3);
    assert!(schedule.observe());
    assert!(!schedule.is_changed());
    schedule.set(3);
    assert!(!schedule.is_changed());
    assert!(!schedule.observe());
    assert_eq!(schedule.get(), Some(3));
}

#[test]
fn last_request_wins() {
    let mut schedule = ScheduleNextState::new();
    schedule.set(1);
    assert!(schedule.observe());
    schedule.set(2);
    assert_eq!(schedule.get(), Some(2));
    assert!(schedule.is_changed());
}

#[test]
fn clear_drops_the_request() {
    let mut schedule = ScheduleNextState::new();
    schedule.set(1);
    schedule.clear();
    assert_eq!(schedule.get(), None);
    assert!(!schedule.is_changed());
}

#[test]
fn dispatcher_is_idle_without_a_request() {
    let mut loader = AssetLoader::new();
    assert_eq!(loader.load_assets(), Dispatch::Idle);
    assert_eq!(loader.next_state(), None);
}

#[test]
fn dispatcher_fires_once_per_request() {
    let mut loader = AssetLoader::new();
    let bundle = loader.register_bundle(vec!["a.png".to_string()]);
    assert!(loader.require_bundle(5, bundle));
    loader.request_transition(5);
    loader.request_transition(5);
    assert_eq!(loader.load_assets(), Dispatch::Load(bundle));
    assert_eq!(loader.load_assets(), Dispatch::Idle);
    loader.request_transition(5);
    assert_eq!(loader.load_assets(), Dispatch::Idle);
    assert_eq!(loader.schedule().get(), Some(5));
}

#[test]
fn a_newer_request_replaces_the_pending_one() {
    let mut loader = AssetLoader::new();
    let first = loader.register_bundle(vec!["a.png".to_string()]);
    let second = loader.register_bundle(vec!["b.png".to_string()]);
    assert!(loader.require_bundle(1, first));
    assert!(loader.require_bundle(2, second));
    loader.request_transition(1);
    loader.request_transition(2);
    assert_eq!(loader.load_assets(), Dispatch::Load(second));
    assert_eq!(loader.schedule().get(), Some(2));
}

#[test]
fn state_without_a_bundle_commits_in_the_same_dispatch() {
    let mut loader = AssetLoader::new();
    let bundle = loader.register_bundle(vec!["a.png".to_string()]);
    assert!(loader.require_bundle(1, bundle));
    loader.request_transition(9);
    assert_eq!(loader.load_assets(), Dispatch::Commit(9));
    assert_eq!(loader.next_state(), Some(9));
    assert_eq!(loader.schedule().get(), None);
    assert!(!loader.bundle(bundle).unwrap().is_loading());
    assert!(!loader.bundle(bundle).unwrap().is_live());
}

#[test]
fn committed_state_is_handed_over_once() {
    let mut loader = AssetLoader::new();
    loader.request_transition(4);
    assert_eq!(loader.load_assets(), Dispatch::Commit(4));
    assert_eq!(loader.take_next_state(), Some(4));
    assert_eq!(loader.take_next_state(), None);
    assert_eq!(loader.next_state(), None);
}

#[test]
fn a_state_is_bound_to_one_bundle_only() {
    let mut loader = AssetLoader::new();
    let first = loader.register_bundle(vec!["a.png".to_string()]);
    let second = loader.register_bundle(vec!["b.png".to_string()]);
    assert!(loader.require_bundle(1, first));
    assert!(!loader.require_bundle(1, second));
    assert!(!loader.require_bundle(1, first));
    assert_eq!(loader.required_bundle(1), Some(first));
    assert_eq!(loader.required_bundle(2), None);
}

#[test]
fn a_state_cannot_need_an_unregistered_bundle() {
    let mut loader = AssetLoader::new();
    assert!(!loader.require_bundle(1, 0));
    assert_eq!(loader.required_bundle(1), None);
    loader.request_transition(1);
    assert_eq!(loader.load_assets(), Dispatch::Commit(1));
}

#[test]
fn bundles_are_numbered_in_the_order_of_registration() {
    let mut loader = AssetLoader::new();
    assert_eq!(loader.bundle_count(), 0);
    assert_eq!(loader.register_bundle(vec!["a.png".to_string()]), 0);
    assert_eq!(loader.register_bundle(vec![]), 1);
    assert_eq!(loader.bundle_count(), 2);
    assert_eq!(loader.bundle(0).unwrap().assets(), &vec!["a.png".to_string()]);
    assert!(loader.bundle(1).unwrap().assets().is_empty());
    assert!(loader.bundle(2).is_none());
}
