use livesplit_core::auto_splitting::Runtime;
use livesplit_core::run::saver::livesplit::save_run;
use livesplit_core::{Layout, Run, Segment, Timer};
use obs_livesplit_one::slots::{SettingChange, Slot, Watchers};
use obs_livesplit_one::reload::{
    accept_run, apply_layout, apply_run, script_outcome, default_run, parse_layout, parse_run, reload_autosplitter, reload_layout, reload_splits,
    ReloadFailure, ReloadOutcome,
};

fn splits_bytes() -> Vec<u8> {
    let mut run = Run::new();
    run.set_game_name("Game");
    run.push_segment(Segment::new("Level 1"));
    run.push_segment(Segment::new("Level 2"));
    let mut text = String::new();
    save_run(&run, &mut text).unwrap();
    text.into_bytes()
}

fn layout_bytes(layout: &Layout) -> Vec<u8> {
    let mut bytes = Vec::new();
    layout.settings().write_json(&mut bytes).unwrap();
    bytes
}

fn segment_names(run: &Run) -> Vec<String> {
    run.segments().iter().map(|s| s.name().to_string()).collect()
}

fn timer() -> Timer {
    Timer::new(default_run()).unwrap()
}

#[test]
fn default_run_has_one_time_segment() {
    let run = default_run();
    assert_eq!(segment_names(&run), vec!["Time".to_string()]);
}

#[test]
fn parse_run_reads_splits() {
    let run = parse_run(&splits_bytes(), "/cfg/b.lss").unwrap();
    assert_eq!(run.game_name(), "Game");
    assert_eq!(segment_names(&run), vec!["Level 1".to_string(), "Level 2".to_string()]);
}

#[test]
fn parse_run_with_empty_path_gives_none() {
    assert!(parse_run(&splits_bytes(), "").is_none());
}

#[test]
fn parse_run_of_empty_run_gives_none() {
    let mut text = String::new();
    save_run(&Run::new(), &mut text).unwrap();
    assert!(parse_run(text.as_bytes(), "/cfg/empty.lss").is_none());
}

#[test]
fn parse_run_of_garbage_gives_none() {
    assert!(parse_run(b"\xff\xfe\x00 not splits", "/cfg/b.lss").is_none());
}

#[test]
fn reload_splits_replaces_active_run() {
    let mut t = timer();
    let r = reload_splits(&mut t, &splits_bytes(), "/cfg/b.lss");
    assert!(matches!(r, ReloadOutcome::Applied));
    assert_eq!(t.run().game_name(), "Game");
    assert_eq!(segment_names(t.run()), vec!["Level 1".to_string(), "Level 2".to_string()]);
}

#[test]
fn failed_splits_parse_keeps_active_run() {
    let mut t = timer();
    assert!(matches!(reload_splits(&mut t, &splits_bytes(), "/cfg/a.lss"), ReloadOutcome::Applied));
    let mut before = String::new();
    save_run(t.run(), &mut before).unwrap();
    let r = reload_splits(&mut t, b"\xff\xfe\x00 not splits", "/cfg/b.lss");
    assert!(matches!(r, ReloadOutcome::Failed(ReloadFailure::Unreadable)));
    let mut after = String::new();
    save_run(t.run(), &mut after).unwrap();
    assert_eq!(before, after);
}

#[test]
fn empty_splits_path_fails() {
    let mut t = timer();
    let r = reload_splits(&mut t, &splits_bytes(), "");
    assert!(matches!(r, ReloadOutcome::Failed(ReloadFailure::Unreadable)));
    assert_eq!(segment_names(t.run()), vec!["Time".to_string()]);
}

#[test]
fn parse_layout_reads_json() {
    let source = Layout::default_layout();
    let parsed = parse_layout(&layout_bytes(&source), "/cfg/l.ls1l").unwrap();
    assert_eq!(parsed.components.len(), source.components.len());
}

#[test]
fn parse_layout_with_empty_path_gives_none() {
    assert!(parse_layout(&layout_bytes(&Layout::default_layout()), "").is_none());
}

#[test]
fn reload_layout_replaces_active_layout() {
    let mut layout = Layout::new();
    assert_eq!(layout.components.len(), 0);
    let r = reload_layout(&mut layout, &layout_bytes(&Layout::default_layout()), "/cfg/l.ls1l");
    assert!(matches!(r, ReloadOutcome::Applied));
    assert_eq!(layout.components.len(), Layout::default_layout().components.len());
}

#[test]
fn failed_layout_parse_keeps_active_layout() {
    let mut layout = Layout::default_layout();
    let before = layout_bytes(&layout);
    let r = reload_layout(&mut layout, b"\xff\xfe neither json nor xml", "/cfg/l.ls1l");
    assert!(matches!(r, ReloadOutcome::Failed(ReloadFailure::Unreadable)));
    assert_eq!(layout_bytes(&layout), before);
}

#[test]
fn failed_autosplitter_load_is_reported() {
    let runtime = Runtime::new(timer().into_shared());
    let r = reload_autosplitter(&runtime, "/no/such/directory/here/splitter.wasm");
    assert!(matches!(r, ReloadOutcome::Failed(ReloadFailure::ScriptFailed(_))));
    // nothing is loaded now, and unloading nothing is no error
    let again = reload_autosplitter(&runtime, "/no/such/directory/here/splitter.wasm");
    assert!(matches!(again, ReloadOutcome::Failed(ReloadFailure::ScriptFailed(_))));
}

#[test]
fn new_splits_setting_loads_the_new_file() {
    let mut watchers = match Watchers::new(obs_livesplit_one::watcher::DEFAULT_DELAY_MS) {
        Ok(w) => w,
        Err(_) => panic!("no watcher could be opened"),
    };
    assert!(matches!(watchers.apply_setting(Slot::Splits, "/tmp/a.lss"), SettingChange::Reload(_)));
    let mut t = timer();
    match watchers.apply_setting(Slot::Splits, "/tmp/b.lss") {
        SettingChange::Reload(r) => {
            assert_eq!(r.path, "/tmp/b.lss");
            let outcome = reload_splits(&mut t, &splits_bytes(), &r.path);
            assert!(matches!(outcome, ReloadOutcome::Applied));
        }
        _ => panic!("expected a reload"),
    }
    assert_eq!(segment_names(t.run()), vec!["Level 1".to_string(), "Level 2".to_string()]);
    assert_eq!(watchers.path(Slot::Splits).map(|s| s.as_str()), Some("/tmp/b.lss"));
}

#[test]
fn accept_run_drops_runs_without_segments() {
    assert!(accept_run(None).is_none());
    assert!(accept_run(Some(Run::new())).is_none());
    let kept = accept_run(Some(default_run())).unwrap();
    assert_eq!(segment_names(&kept), vec!["Time".to_string()]);
}

#[test]
fn apply_run_installs_a_run_with_segments() {
    let mut t = timer();
    assert!(matches!(apply_run(&mut t, None), ReloadOutcome::Failed(ReloadFailure::Unreadable)));
    assert_eq!(segment_names(t.run()), vec!["Time".to_string()]);
    let run = parse_run(&splits_bytes(), "/cfg/b.lss").unwrap();
    assert!(matches!(apply_run(&mut t, Some(run)), ReloadOutcome::Applied));
    assert_eq!(segment_names(t.run()), vec!["Level 1".to_string(), "Level 2".to_string()]);
}

#[test]
fn apply_run_refuses_a_run_without_segments() {
    let mut t = timer();
    let r = apply_run(&mut t, Some(Run::new()));
    assert!(matches!(r, ReloadOutcome::Failed(ReloadFailure::Unreadable)));
    assert_eq!(segment_names(t.run()), vec!["Time".to_string()]);
}

#[test]
fn apply_layout_replaces_or_keeps() {
    let mut layout = Layout::new();
    assert!(matches!(apply_layout(&mut layout, None), ReloadOutcome::Failed(_)));
    assert_eq!(layout.components.len(), 0);
    let r = apply_layout(&mut layout, Some(Layout::default_layout()));
    assert!(matches!(r, ReloadOutcome::Applied));
    assert_eq!(layout.components.len(), Layout::default_layout().components.len());
}

#[test]
fn script_outcome_follows_the_load() {
    let runtime = Runtime::new(timer().into_shared());
    let failed = runtime.load_script_blocking("/no/such/directory/here/x.wasm".into());
    assert!(matches!(script_outcome(failed, Ok(())), ReloadOutcome::Applied));
    let failed = runtime.load_script_blocking("/no/such/directory/here/x.wasm".into());
    assert!(matches!(
        script_outcome(Ok(()), failed),
        ReloadOutcome::Failed(ReloadFailure::ScriptFailed(_))
    ));
}
