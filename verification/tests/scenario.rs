use bevy::asset::HandleId;
use covey_asset_loader::{
    handle_cleanup, AssetLoader, Dispatch, LoadState, Progress,
};

const SECOND: u64 = 1_000_000_000;
const FRAME: u64 = SECOND / 50;

const BOOT: u64 = 0;
const SPLASH: u64 = 1;
const MAIN_MENU: u64 = 2;

#[test]
fn boot_to_splash_to_main_menu() {
    let mut loader = AssetLoader::new();
    let splash_paths = vec![
        "fonts/FiraSans-Bold.ttf".to_string(),
        "audio/breakout_collision.ogg".to_string(),
        "images/icon.png".to_string(),
    ];
    let splash = loader.register_bundle(splash_paths.clone());
    let menu = loader.register_bundle(vec!["fonts/FiraSans-Bold.ttf".to_string()]);
    assert!(loader.require_bundle(SPLASH, splash));
    assert!(loader.require_bundle(MAIN_MENU, menu));
    assert!(loader.cleanup_assets_on_exit(splash, SPLASH));
    assert!(loader.insert_cleanup_timer(splash, 2 * SECOND));
    let mut current = BOOT;

    // The request for the splash screen starts three loads.
    loader.request_transition(SPLASH);
    assert_eq!(loader.load_assets(), Dispatch::Load(splash));
    let paths = loader.bundle(splash).unwrap().assets().clone();
    assert_eq!(paths, splash_paths);
    let handles: Vec<HandleId> = paths.iter().map(|path| HandleId::from(path)).collect();
    assert_eq!(handles.len(), 3);
    assert!(loader.init_assets(splash, handles.clone()));

    // The handles come in over three frames.
    let frames = [
        vec![LoadState::Pending, LoadState::Pending, LoadState::Pending],
        vec![LoadState::Loaded, LoadState::Pending, LoadState::Loaded],
    ];
    for states in frames.iter() {
        assert_eq!(loader.load_assets(), Dispatch::Idle);
        assert!(matches!(loader.check_assets(splash, states), Progress::Pending));
        assert_eq!(loader.take_next_state(), None);
    }
    let states = vec![LoadState::Loaded, LoadState::Loaded, LoadState::Loaded];
    match loader.check_assets(splash, &states) {
        Progress::Loaded { event, committed } => {
            assert_eq!(event.bundle, splash);
            assert_eq!(event.handles, handles);
            assert_eq!(committed, Some(SPLASH));
        }
        other => panic!("unexpected progress {:?}", other),
    }
    if let Some(next) = loader.take_next_state() {
        loader.exit_state(current);
        current = next;
    }
    assert_eq!(current, SPLASH);
    assert!(!loader.bundle(splash).unwrap().is_armed());

    // One second later the splash screen asks for the main menu.
    loader.request_transition(MAIN_MENU);
    assert_eq!(loader.load_assets(), Dispatch::Load(menu));
    assert!(loader.init_assets(menu, vec![HandleId::from("fonts/FiraSans-Bold.ttf")]));
    assert!(matches!(
        loader.check_assets(menu, &vec![LoadState::Loaded]),
        Progress::Loaded { committed: Some(MAIN_MENU), .. }
    ));
    if let Some(next) = loader.take_next_state() {
        loader.exit_state(current);
        current = next;
    }
    assert_eq!(current, MAIN_MENU);
    assert!(loader.bundle(splash).unwrap().is_armed());

    // Two seconds after the exit the splash bundle is gone, and only it.
    let mut passed = 0;
    while passed + FRAME < 2 * SECOND {
        handle_cleanup(&mut loader, FRAME);
        passed += FRAME;
        assert!(loader.bundle(splash).unwrap().is_live());
    }
    handle_cleanup(&mut loader, FRAME);
    assert!(!loader.bundle(splash).unwrap().is_live());
    assert!(!loader.bundle(splash).unwrap().is_armed());
    assert!(loader.bundle(menu).unwrap().is_live());
    assert_eq!(loader.next_state(), None);
}

#[test]
fn splash_cleanup_does_not_wait_for_the_main_menu() {
    let mut loader = AssetLoader::new();
    let splash = loader.register_bundle(vec!["images/icon.png".to_string()]);
    let menu = loader.register_bundle(vec!["fonts/FiraSans-Bold.ttf".to_string()]);
    assert!(loader.require_bundle(SPLASH, splash));
    assert!(loader.require_bundle(MAIN_MENU, menu));
    assert!(loader.cleanup_assets_on_exit(splash, SPLASH));
    assert!(loader.insert_cleanup_timer(splash, 2 * SECOND));

    assert!(loader.init_assets(splash, vec![HandleId::from("images/icon.png")]));
    loader.check_assets(splash, &vec![LoadState::Loaded]);
    loader.exit_state(SPLASH);

    loader.request_transition(MAIN_MENU);
    assert_eq!(loader.load_assets(), Dispatch::Load(menu));
    assert!(loader.init_assets(menu, vec![HandleId::from("fonts/FiraSans-Bold.ttf")]));
    for _ in 0..4 {
        assert!(matches!(
            loader.check_assets(menu, &vec![LoadState::Pending]),
            Progress::Pending
        ));
        handle_cleanup(&mut loader, SECOND / 2);
    }
    assert!(!loader.bundle(splash).unwrap().is_live());
    assert!(loader.bundle(menu).unwrap().is_loading());
    assert_eq!(loader.next_state(), None);
}
