use counterfire2::config::RunMode;
use counterfire2::engine::{live_update_allowed, runtime_status, LaunchSettings};

#[test]
fn live_updates_keep_launch_settings() {
    let a = LaunchSettings { mode: RunMode::Gsi, port: 1, width: None, height: Some(2), vsync: true };
    assert!(live_update_allowed(&a, &a));
    assert!(!live_update_allowed(&a, &LaunchSettings { port: 2, ..a }));
    assert!(!live_update_allowed(&a, &LaunchSettings { vsync: false, ..a }));
    assert!(!live_update_allowed(&a, &LaunchSettings { mode: RunMode::Demo, ..a }));
    let s = runtime_status(Some((true, RunMode::Demo)));
    assert!(s.running);
    assert_eq!(s.mode, Some(RunMode::Demo));
    let n = runtime_status(None);
    assert!(!n.running && n.mode.is_none());
}
