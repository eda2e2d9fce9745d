use std::path::Path;

use bs2::config::{Config, Project};
use bs2::ident::is_ascii_rust_ident;
use bs2::paths::{canonical_display, canonicalize, join_parts, trim_verbatim_prefix};
use bs2::projects::{
    create_project, dialog_start_dir, NewProjectForm, launch_tools, new_project_name_error,
    new_project_path_error, path_error_for, project_selection, read_project, selection_index,
};
use bs2::text::{decimal_string, str_eq};

fn join(base: &str, parts: &[&str]) -> String {
    let mut p = Path::new(base).to_path_buf();
    for part in parts {
        p = p.join(part);
    }
    p.display().to_string()
}

fn config_with(names: &[(&str, &str)]) -> Config {
    let mut config = Config::default();
    for (name, path) in names {
        config.projects.push(Project { name: name.to_string(), path: path.to_string() });
    }
    config
}

const BAD_NAME: &str = "Project name must start with a letter, only contain English letters, digits, or the separator _, and have no spaces.";

#[test]
fn ident_accepts_letters_digits_underscore() {
    assert!(is_ascii_rust_ident("my_addon1"));
    assert!(is_ascii_rust_ident("_hidden"));
    assert!(is_ascii_rust_ident("A"));
}

#[test]
fn ident_rejects_bad_names() {
    assert!(!is_ascii_rust_ident(""));
    assert!(!is_ascii_rust_ident("1abc"));
    assert!(!is_ascii_rust_ident("has space"));
    assert!(!is_ascii_rust_ident("dash-name"));
    assert!(!is_ascii_rust_ident("héllo"));
    assert!(!is_ascii_rust_ident("über"));
}

#[test]
fn decimal_rendering() {
    assert_eq!(decimal_string(0), "0");
    assert_eq!(decimal_string(7), "7");
    assert_eq!(decimal_string(10), "10");
    assert_eq!(decimal_string(12345), "12345");
    assert_eq!(decimal_string(u64::MAX), u64::MAX.to_string());
}

#[test]
fn string_equality() {
    assert!(str_eq("Core", "Core"));
    assert!(!str_eq("Core", "Cor"));
    assert!(!str_eq("Core", "core"));
    assert!(str_eq("", ""));
}

#[test]
fn verbatim_prefix_is_trimmed() {
    assert_eq!(trim_verbatim_prefix(r"\\?\C:\Games\bs2"), r"C:\Games\bs2");
    assert_eq!(trim_verbatim_prefix(r"\\?\\\?\C:\x"), r"C:\x");
    assert_eq!(trim_verbatim_prefix(r"C:\x\\?\y"), r"C:\x\\?\y");
    assert_eq!(trim_verbatim_prefix(r"\\?"), r"\\?");
    assert_eq!(trim_verbatim_prefix(""), "");
}

#[test]
fn verbatim_trim_is_idempotent() {
    let once = trim_verbatim_prefix(r"\\?\\\?\D:\p");
    assert_eq!(trim_verbatim_prefix(&once), once);
}

#[test]
fn canonical_display_prefers_resolved() {
    assert_eq!(canonical_display("rel", &Some(r"\\?\C:\abs\rel".to_string())), r"C:\abs\rel");
    assert_eq!(canonical_display(r"\\?\C:\raw", &None), r"C:\raw");
}

#[test]
fn canonicalize_falls_back_to_given_path() {
    let shown = canonicalize("/this/path/does/not/exist/bs2");
    assert!(shown.resolved().is_none());
    assert_eq!(shown.text(), "/this/path/does/not/exist/bs2");
}

#[test]
fn canonicalize_resolves_existing_path() {
    let shown = canonicalize(".");
    assert!(shown.resolved().is_some());
    assert!(Path::new(shown.text()).is_absolute());
    assert!(!shown.text().starts_with(r"\\?\"));
}

#[test]
fn join_parts_joins_in_order() {
    assert_eq!(join_parts("base", &["game", "bin", "win64"]), join("base", &["game", "bin", "win64"]));
    assert_eq!(join_parts("base", &[]), "base");
}

#[test]
fn default_config() {
    let config = Config::default();
    assert_eq!(
        config.cs2_path,
        "C:\\Program Files (x86)\\Steam\\steamapps\\common\\Counter-Strike Global Offensive\\"
    );
    assert!(config.projects.is_empty());
}

#[test]
fn config_read_falls_back_to_default() {
    let read = Config::read_or_default(None);
    assert_eq!(read.cs2_path, Config::default().cs2_path);
    let parsed = config_with(&[("a", "p")]).with_cs2_path("D:/cs2".to_string());
    let read = Config::read_or_default(Some(parsed));
    assert_eq!(read.cs2_path, "D:/cs2");
    assert_eq!(read.projects.len(), 1);
}

#[test]
fn default_config_written_unless_found() {
    assert!(!Config::must_write_default(Some(true)));
    assert!(Config::must_write_default(Some(false)));
    assert!(Config::must_write_default(None));
}

#[test]
fn changing_cs2_path_keeps_projects() {
    let config = config_with(&[("one", "p1"), ("two", "p2")]).with_cs2_path("E:/cs2".to_string());
    assert_eq!(config.cs2_path, "E:/cs2");
    assert_eq!(config.projects[0].name, "one");
    assert_eq!(config.projects[1].path, "p2");
}

#[test]
fn selection_lists_create_entry_then_projects() {
    let config = config_with(&[("one", "p1"), ("two", "p2")]);
    let sel = project_selection(&config);
    assert_eq!(sel.entries, vec!["➕︎ Create New Project", "one", "two"]);
    assert_eq!(sel.last, 2);
    let empty = project_selection(&Config::default());
    assert_eq!(empty.entries, vec!["➕︎ Create New Project"]);
    assert_eq!(empty.last, 0);
}

#[test]
fn read_project_finds_first_match() {
    let config = config_with(&[("one", "p1"), ("two", "p2"), ("two", "p3")]);
    let p = read_project(&config, "two");
    assert_eq!(p.name, "two");
    assert_eq!(p.path, "p2");
    let missing = read_project(&config, "three");
    assert_eq!(missing.name, "");
    assert_eq!(missing.path, "");
}

#[test]
fn selection_index_of_name() {
    let entries: Vec<String> = vec!["➕︎ Create New Project".into(), "one".into(), "two".into()];
    assert_eq!(selection_index(&entries, "two"), 2);
    assert_eq!(selection_index(&entries, "one"), 1);
    assert_eq!(selection_index(&entries, "absent"), 0);
}

#[test]
fn creating_a_project_adds_it_and_names_its_folders() {
    let mut config = config_with(&[("one", "p1")]);
    let mut form = NewProjectForm { name: "two".to_string(), path: "/code/two".to_string() };
    let dirs = create_project(&mut config, "/opt/bs2", &mut form);
    assert_eq!(form.name, "");
    assert_eq!(form.path, "");
    assert_eq!(config.projects.len(), 2);
    assert_eq!(config.projects[1].name, "two");
    assert_eq!(config.projects[1].path, "/code/two");
    assert_eq!(
        dirs,
        vec![join("/opt/bs2", &["game", "core_addons", "two"]), join("/opt/bs2", &["content", "core_addons", "two"])]
    );
    let back = read_project(&config, "two");
    assert_eq!(back.path, "/code/two");
}

#[test]
fn launching_tools_for_a_project() {
    let entries: Vec<String> = vec!["➕︎ Create New Project".into(), "one".into(), "two".into()];
    let launch = launch_tools(&entries, "/opt/bs2", "two");
    assert_eq!(launch.last_project, 2);
    assert_eq!(launch.dir, join("/opt/bs2", &["game", "bin", "win64"]));
    assert_eq!(launch.program, join("/opt/bs2", &["game", "bin", "win64", "bs2_launcher.exe"]));
    assert_eq!(launch.args, vec!["-addon", "two"]);
    assert_eq!(launch.creation_flags, 0x208);
}

#[test]
fn name_errors() {
    assert_eq!(new_project_name_error(""), "");
    assert_eq!(new_project_name_error("good_name"), "");
    assert_eq!(new_project_name_error("bad name"), BAD_NAME);
    assert_eq!(new_project_name_error("9lives"), BAD_NAME);
}

#[test]
fn path_errors() {
    assert_eq!(path_error_for("", false), "");
    assert_eq!(path_error_for("/x", true), "");
    assert_eq!(path_error_for("/x", false), "Project path doesn't exist");
    let (err, looked) = new_project_path_error("");
    assert_eq!(err, "");
    assert!(looked.is_none());
    let (err, looked) = new_project_path_error("/");
    assert_eq!(err, "");
    let looked = looked.unwrap();
    assert_eq!(looked.path(), "/");
    assert!(looked.found());
    let (err, looked) = new_project_path_error("/this/path/does/not/exist/bs2");
    assert_eq!(err, "Project path doesn't exist");
    let looked = looked.unwrap();
    assert_eq!(looked.path(), "/this/path/does/not/exist/bs2");
    assert!(!looked.found());
}

#[test]
fn folder_picker_start() {
    assert_eq!(dialog_start_dir("", "/home/me".to_string()), "/home/me");
    assert_eq!(dialog_start_dir("/games", "/home/me".to_string()), "/games");
}
