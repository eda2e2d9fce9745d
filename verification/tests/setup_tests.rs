use std::path::Path;

use bs2::config::Config;
use bs2::setup::{
    cs2_base_fgd_path, cs2_engine_dll_path, cs2_state_from, engine_lock_path,
    installed_content_addons_path, installed_engine_dll_path, installed_launcher_path,
    is_setup_done, plugin, setup_done_from, setup_page_view, template_dir_path, update_cs2_state,
    Cs2State,
};
use bs2::setup_run::{
    plan_setup, progress_path, step, FsFailure, FsRequest, SetupAction, SetupEvent, SetupPhase,
    SetupPlan,
};

fn join(base: &str, parts: &[&str]) -> String {
    let mut p = Path::new(base).to_path_buf();
    for part in parts {
        p = p.join(part);
    }
    p.display().to_string()
}

const CS2: &str = "/games/cs2";
const WD: &str = "/opt/bs2";

fn plan() -> SetupPlan {
    plan_setup(CS2, WD)
}

fn toast(action: &SetupAction) -> Option<(bool, String)> {
    action.toast.as_ref().map(|t| (t.is_error, t.message.clone()))
}

fn advance(plan: &SetupPlan, phase: SetupPhase, events: Vec<SetupEvent>) -> (SetupPhase, Vec<SetupAction>) {
    let mut phase = phase;
    let mut actions = Vec::new();
    for event in events {
        let (next, action) = step(plan, phase, event);
        phase = next;
        actions.push(action);
    }
    (phase, actions)
}

fn good_events(written: u64, total: u64) -> Vec<SetupEvent> {
    vec![
        SetupEvent::Start { template_exists: true, engine_locked: false },
        SetupEvent::DirCreated(Ok(())),
        SetupEvent::DirCreated(Ok(())),
        SetupEvent::DirCreated(Ok(())),
        SetupEvent::Copied { result: Ok(written), total_bytes: total },
        SetupEvent::Renamed(Ok(())),
        SetupEvent::Renamed(Ok(())),
    ]
}

fn failure(msg: &str, kind: &str) -> FsFailure {
    FsFailure { message: msg.to_string(), kind: kind.to_string() }
}

#[test]
fn cs2_state_decisions() {
    assert_eq!(cs2_state_from(false, false), Cs2State::NotFound);
    assert_eq!(cs2_state_from(false, true), Cs2State::NotFound);
    assert_eq!(cs2_state_from(true, false), Cs2State::GameOnly);
    assert_eq!(cs2_state_from(true, true), Cs2State::Good);
}

#[test]
fn cs2_paths() {
    assert_eq!(cs2_engine_dll_path(CS2), join(CS2, &["game", "bin", "win64", "engine2.dll"]));
    assert_eq!(cs2_base_fgd_path(CS2), join(CS2, &["game", "core", "base.fgd"]));
}

#[test]
fn missing_installation_is_not_found() {
    let check = update_cs2_state("/this/path/does/not/exist/cs2");
    assert_eq!(check.state, Cs2State::NotFound);
    assert_eq!(check.engine.path(), cs2_engine_dll_path("/this/path/does/not/exist/cs2"));
    assert!(!check.engine.found());
    assert!(check.fgd.is_none());
    let setup = is_setup_done("/this/path/does/not/exist/bs2");
    assert!(!setup.done);
    assert_eq!(setup.engine.path(), installed_engine_dll_path("/this/path/does/not/exist/bs2"));
    assert!(setup.launcher.is_none() && setup.content.is_none());
}

#[test]
fn installed_paths() {
    assert_eq!(installed_engine_dll_path(WD), Path::new(WD).join("game/bin/win64/engine2.dll").display().to_string());
    assert_eq!(installed_launcher_path(WD), Path::new(WD).join("game/bin/win64/bs2_launcher.exe").display().to_string());
    assert_eq!(installed_content_addons_path(WD), Path::new(WD).join("content/core_addons").display().to_string());
    assert_eq!(engine_lock_path(WD), join(WD, &["game", "bin", "win64", "engine2.dll"]));
    assert_eq!(template_dir_path(WD), join(WD, &["template"]));
}

#[test]
fn setup_done_needs_all_three() {
    assert!(setup_done_from(true, true, true));
    assert!(!setup_done_from(false, true, true));
    assert!(!setup_done_from(true, false, true));
    assert!(!setup_done_from(true, true, false));
}

#[test]
fn setup_page() {
    let config = Config::default().with_cs2_path("D:/cs2".to_string());
    let cs2 = update_cs2_state("/this/path/does/not/exist/cs2");
    let setup = is_setup_done("/this/path/does/not/exist/bs2");
    let view = setup_page_view(&config, cs2, setup);
    assert_eq!(view.cs2_path, "D:/cs2");
    assert_eq!(view.cs2_state, Cs2State::NotFound);
    assert!(!view.setup_done && !view.open_projects);
    let view = plugin(&config, "/this/path/does/not/exist/bs2");
    assert_eq!(view.cs2_state, Cs2State::NotFound);
    assert_eq!(view.cs2.engine.path(), cs2_engine_dll_path("D:/cs2"));
    assert_eq!(view.setup.engine.path(), installed_engine_dll_path("/this/path/does/not/exist/bs2"));
    assert!(!view.setup_done && !view.open_projects);
}

#[test]
fn plan_paths() {
    let p = plan();
    assert_eq!(p.cs2_path, CS2);
    assert_eq!(
        p.sources,
        vec![
            join(CS2, &["game", "core"]),
            join(CS2, &["game", "thirdpartylegalnotices.txt"]),
            join(CS2, &["game", "bin"]),
            join(WD, &["template", "game", "bin"]),
            join(WD, &["template", "game", "core"]),
            join(WD, &["template", "game", "core_addons"]),
        ]
    );
    assert_eq!(p.dest, join(WD, &["game"]));
    assert_eq!(p.dest_shown.text(), join(WD, &["game"]));
    assert!(p.dest_shown.resolved().is_none());
    assert_eq!(p.content_core, join(WD, &["content", "core"]));
    assert_eq!(p.content_addons, join(WD, &["content", "core_addons"]));
    assert_eq!(p.compiler_from, join(WD, &["game", "bin", "win64", "resourcecompiler.exe"]));
    assert_eq!(p.compiler_to, join(WD, &["game", "bin", "win64", "resourcecompiler_inner.exe"]));
    assert_eq!(p.wrapper_from, join(WD, &["game", "bin", "win64", "bs2_resourcecompiler.exe"]));
    assert_eq!(p.wrapper_to, join(WD, &["game", "bin", "win64", "resourcecompilerr.exe"]));
}

#[test]
fn start_refused_without_template() {
    let p = plan();
    let (phase, action) = step(&p, SetupPhase::Idle, SetupEvent::Start { template_exists: false, engine_locked: false });
    assert_eq!(phase, SetupPhase::Idle);
    assert_eq!(
        toast(&action),
        Some((true, "Cannot set up BS2: the template/ directory is missing. Try completely uninstalling and reinstalling BS2.".to_string()))
    );
    assert!(action.request.is_none());
}

#[test]
fn start_refused_while_tools_run() {
    let p = plan();
    let (phase, action) = step(&p, SetupPhase::Idle, SetupEvent::Start { template_exists: true, engine_locked: true });
    assert_eq!(phase, SetupPhase::Idle);
    assert_eq!(
        toast(&action),
        Some((true, "Cannot set up BS2 while the Source 2 Tools are in use. Please close all of them first.".to_string()))
    );
    assert!(action.setup_done.is_none());
}

#[test]
fn full_run_succeeds() {
    let p = plan();
    let (phase, actions) = advance(&p, SetupPhase::Idle, good_events(1000, 1000));
    assert_eq!(phase, SetupPhase::Finished);
    assert_eq!(actions[0].setup_done, Some(false));
    assert_eq!(toast(&actions[0]), Some((false, String::new())));
    match &actions[0].request { Some(FsRequest::CreateDir(d)) => assert_eq!(d, &p.dest), _ => panic!("expected the game folder") }
    match &actions[1].request { Some(FsRequest::CreateDir(d)) => assert_eq!(d, &p.content_core), _ => panic!("expected content/core") }
    match &actions[2].request { Some(FsRequest::CreateDir(d)) => assert_eq!(d, &p.content_addons), _ => panic!("expected content/core_addons") }
    match &actions[3].request {
        Some(FsRequest::Copy { sources, dest, overwrite }) => {
            assert!(*overwrite);
            assert_eq!(sources, &p.sources);
            assert_eq!(dest, &p.dest);
        }
        _ => panic!("expected the copy"),
    }
    assert_eq!(actions[4].progress_label.as_deref(), Some("renaming files..."));
    match &actions[4].request {
        Some(FsRequest::Rename { from, to }) => {
            assert_eq!(from, &p.compiler_from);
            assert_eq!(to, &p.compiler_to);
        }
        _ => panic!("expected the first rename"),
    }
    match &actions[5].request {
        Some(FsRequest::Rename { from, to }) => {
            assert_eq!(from, &p.wrapper_from);
            assert_eq!(to, &p.wrapper_to);
        }
        _ => panic!("expected the second rename"),
    }
    assert_eq!(actions[6].progress_label.as_deref(), Some(""));
    assert_eq!(actions[6].setup_done, Some(true));
    assert_eq!(
        toast(&actions[6]),
        Some((false, "BS2 was successfully set up! Switch to the \"Projects\" tab now to manage your projects and launch the Source 2 tools.".to_string()))
    );
    assert!(actions[6].request.is_none());
}

#[test]
fn create_dir_failure_stops_run() {
    let p = plan();
    let (phase, actions) = advance(
        &p,
        SetupPhase::Idle,
        vec![
            SetupEvent::Start { template_exists: true, engine_locked: false },
            SetupEvent::DirCreated(Ok(())),
            SetupEvent::DirCreated(Err("Access is denied. (os error 5)".to_string())),
            SetupEvent::DirCreated(Ok(())),
        ],
    );
    assert_eq!(phase, SetupPhase::Failed);
    assert_eq!(
        toast(&actions[2]),
        Some((true, format!("Failed to create {}: Access is denied. (os error 5)", p.content_core_shown.text())))
    );
    assert!(actions[2].request.is_none());
    assert!(actions[3].request.is_none() && actions[3].toast.is_none());
}

#[test]
fn incomplete_copy_fails() {
    let p = plan();
    let mut events = good_events(10, 4096);
    events.truncate(5);
    let (phase, actions) = advance(&p, SetupPhase::Idle, events);
    assert_eq!(phase, SetupPhase::Failed);
    assert_eq!(actions[4].progress_label.as_deref(), Some(""));
    assert_eq!(
        toast(&actions[4]),
        Some((true, "Failed to set up BS2: wrote only 10 bytes out of 4096. Please try again.".to_string()))
    );
}

#[test]
fn copy_error_fails() {
    let p = plan();
    let mut events = good_events(0, 0);
    events.truncate(4);
    events.push(SetupEvent::Copied { result: Err(failure("Path \"x\" does not exist or you don't have access!", "NotFound")), total_bytes: 0 });
    let (phase, actions) = advance(&p, SetupPhase::Idle, events);
    assert_eq!(phase, SetupPhase::Failed);
    assert_eq!(
        toast(&actions[4]),
        Some((true, "Failed to set up BS2: Path \"x\" does not exist or you don't have access! (NotFound)".to_string()))
    );
}

#[test]
fn rename_failure_fails() {
    let p = plan();
    let mut events = good_events(5, 5);
    events.truncate(5);
    events.push(SetupEvent::Renamed(Err(failure("denied", "PermissionDenied"))));
    let (phase, actions) = advance(&p, SetupPhase::Idle, events);
    assert_eq!(phase, SetupPhase::Failed);
    assert_eq!(
        toast(&actions[5]),
        Some((true, format!("Failed to rename {} to {}: denied (PermissionDenied)", p.compiler_from, p.compiler_to)))
    );
    let mut events = good_events(5, 5);
    events.truncate(6);
    events.push(SetupEvent::Renamed(Err(failure("busy", "Other"))));
    let (phase, actions) = advance(&p, SetupPhase::Idle, events);
    assert_eq!(phase, SetupPhase::Failed);
    assert_eq!(
        toast(&actions[6]),
        Some((true, format!("Failed to rename {} to {}: busy (Other)", p.wrapper_from, p.wrapper_to)))
    );
}

#[test]
fn out_of_turn_events_change_nothing() {
    let p = plan();
    let (phase, action) = step(&p, SetupPhase::Copying, SetupEvent::Renamed(Ok(())));
    assert_eq!(phase, SetupPhase::Copying);
    assert!(action.request.is_none() && action.toast.is_none());
    let (phase, action) = step(&p, SetupPhase::Finished, SetupEvent::Start { template_exists: true, engine_locked: false });
    assert_eq!(phase, SetupPhase::Finished);
    assert!(action.request.is_none());
}

#[test]
fn progress_line_names_file_or_folder() {
    let p = plan();
    assert_eq!(progress_path(&p, "engine2.dll", "bin"), join(CS2, &["game", "engine2.dll"]));
    assert_eq!(progress_path(&p, "", "bin"), join(CS2, &["game", "bin"]));
}
