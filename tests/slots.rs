use obs_livesplit_one::slots::{plan_reloads, setting_change, SettingChange, Slot, Watchers};
use obs_livesplit_one::watcher::{WatchError, DEFAULT_DELAY_MS};

fn watchers() -> Watchers {
    match Watchers::new(DEFAULT_DELAY_MS) {
        Ok(w) => w,
        Err(_) => panic!("no watcher could be opened"),
    }
}

fn summary(plan: &[obs_livesplit_one::slots::Reload]) -> Vec<(Slot, String)> {
    plan.iter().map(|r| (r.slot, r.path.clone())).collect()
}

#[test]
fn plan_follows_the_fixed_slot_order() {
    let plan = plan_reloads(
        vec!["/tmp/s.lss".to_string(), "/tmp//s.lss".to_string()],
        vec!["/tmp/a.wasm".to_string()],
        vec!["/tmp/l.ls1l".to_string()],
    );
    assert_eq!(
        summary(&plan),
        vec![
            (Slot::Splits, "/tmp/s.lss".to_string()),
            (Slot::Splits, "/tmp//s.lss".to_string()),
            (Slot::AutoSplitter, "/tmp/a.wasm".to_string()),
            (Slot::Layout, "/tmp/l.ls1l".to_string()),
        ]
    );
}

#[test]
fn plan_skips_unchanged_slots() {
    let plan = plan_reloads(vec![], vec![], vec!["/tmp/l.ls1l".to_string()]);
    assert_eq!(summary(&plan), vec![(Slot::Layout, "/tmp/l.ls1l".to_string())]);
    assert!(plan_reloads(vec![], vec![], vec![]).is_empty());
}

#[test]
fn new_setting_retargets_and_asks_for_reload() {
    let mut w = watchers();
    assert!(matches!(w.apply_setting(Slot::Splits, "/tmp/a.lss"), SettingChange::Reload(_)));
    match w.apply_setting(Slot::Splits, "/tmp/b.lss") {
        SettingChange::Reload(r) => {
            assert_eq!(r.slot, Slot::Splits);
            assert_eq!(r.path, "/tmp/b.lss");
        }
        _ => panic!("expected a reload"),
    }
    assert_eq!(w.path(Slot::Splits).map(|s| s.as_str()), Some("/tmp/b.lss"));
    assert!(w.is_watching(Slot::Splits));
    assert_eq!(w.path(Slot::Layout), None);
    assert_eq!(w.path(Slot::AutoSplitter), None);
}

#[test]
fn same_setting_is_unchanged() {
    let mut w = watchers();
    assert!(matches!(w.apply_setting(Slot::Layout, "/tmp/l.ls1l"), SettingChange::Reload(_)));
    assert!(matches!(w.apply_setting(Slot::Layout, "/tmp/l.ls1l"), SettingChange::Unchanged));
}

#[test]
fn setting_in_missing_directory_fails_without_reload() {
    let mut w = watchers();
    match w.apply_setting(Slot::AutoSplitter, "/no/such/directory/here/a.wasm") {
        SettingChange::Failed(slot, WatchError::Watch(_)) => assert_eq!(slot, Slot::AutoSplitter),
        _ => panic!("expected a failed watch"),
    }
    assert_eq!(
        w.path(Slot::AutoSplitter).map(|s| s.as_str()),
        Some("/no/such/directory/here/a.wasm")
    );
    assert!(!w.is_watching(Slot::AutoSplitter));
}

#[test]
fn empty_setting_fails_with_no_parent() {
    let mut w = watchers();
    match w.apply_setting(Slot::Splits, "") {
        SettingChange::Failed(slot, WatchError::NoParent) => assert_eq!(slot, Slot::Splits),
        _ => panic!("expected no parent"),
    }
    assert_eq!(w.path(Slot::Splits), None);
}

#[test]
fn quiet_frame_reloads_nothing() {
    let mut w = watchers();
    assert!(matches!(w.apply_setting(Slot::Splits, "/tmp/quiet_a.lss"), SettingChange::Reload(_)));
    assert!(w.poll_all().is_empty());
}

#[test]
fn guards_of_slots_are_independent() {
    let mut w = watchers();
    assert!(matches!(w.apply_setting(Slot::Splits, "/tmp/s.lss"), SettingChange::Reload(_)));
    assert!(matches!(w.apply_setting(Slot::Layout, "/tmp/s.lss"), SettingChange::Reload(_)));
    assert!(matches!(w.apply_setting(Slot::Splits, "/tmp/t.lss"), SettingChange::Reload(_)));
    assert_eq!(w.path(Slot::Layout).map(|s| s.as_str()), Some("/tmp/s.lss"));
}

#[test]
fn apply_settings_reports_each_slot_in_order() {
    let mut w = watchers();
    let changes = w.apply_settings(Some("/tmp/s.lss"), None, Some("/tmp/l.ls1l"));
    assert_eq!(changes.len(), 3);
    match &changes[0] {
        SettingChange::Reload(r) => {
            assert_eq!(r.slot, Slot::Splits);
            assert_eq!(r.path, "/tmp/s.lss");
        }
        _ => panic!("expected a reload of the splits"),
    }
    assert!(matches!(changes[1], SettingChange::Unchanged));
    match &changes[2] {
        SettingChange::Reload(r) => {
            assert_eq!(r.slot, Slot::Layout);
            assert_eq!(r.path, "/tmp/l.ls1l");
        }
        _ => panic!("expected a reload of the layout"),
    }
    let again = w.apply_settings(Some("/tmp/s.lss"), Some(""), Some("/tmp/l.ls1l"));
    assert!(matches!(again[0], SettingChange::Unchanged));
    assert!(matches!(again[1], SettingChange::Failed(Slot::AutoSplitter, WatchError::NoParent)));
    assert!(matches!(again[2], SettingChange::Unchanged));
}

#[test]
fn setting_change_reloads_only_after_success() {
    match setting_change(Slot::Layout, "/tmp/l.ls1l", Ok(())) {
        SettingChange::Reload(r) => {
            assert_eq!(r.slot, Slot::Layout);
            assert_eq!(r.path, "/tmp/l.ls1l");
        }
        _ => panic!("expected a reload"),
    }
    let failed = setting_change(Slot::Splits, "/tmp/s.lss", Err(WatchError::NoParent));
    assert!(matches!(failed, SettingChange::Failed(Slot::Splits, WatchError::NoParent)));
}
