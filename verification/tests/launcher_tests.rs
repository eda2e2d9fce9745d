use bs2::launcher::{
    base_dir_cut, begin_round, command_line_arguments, cut_to_base_dir, forwarded_exit_code,
    inner_compiler_path, keep_enumerating, observe_window, round_closed, taskbar_hidden_style,
    tools_launch_flags, window_matters, WindowState,
};

fn wide(s: &str, size: usize) -> Vec<u16> {
    let mut v: Vec<u16> = s.encode_utf16().collect();
    v.resize(size, 0);
    v
}

#[test]
fn command_line_puts_flags_after_program() {
    let args: Vec<String> = vec!["launcher.exe".into(), "-addon".into(), "mymod".into()];
    let line = command_line_arguments(&args, &["-tools", "-game core"]);
    assert_eq!(line.as_deref(), Some("launcher.exe -tools -game core -addon mymod"));
}

#[test]
fn command_line_without_program_is_none() {
    let args: Vec<String> = vec![];
    assert_eq!(command_line_arguments(&args, &["-tools"]), None);
}

#[test]
fn command_line_with_program_only() {
    let args: Vec<String> = vec!["a.exe".into()];
    assert_eq!(command_line_arguments(&args, &[]).as_deref(), Some("a.exe"));
    assert_eq!(command_line_arguments(&args, &["-x"]).as_deref(), Some("a.exe -x"));
}

#[test]
fn launch_flags() {
    assert_eq!(
        tools_launch_flags(),
        vec!["-tools", "-game core", "-addon foo", "-w 4", "-h 4", "-x -4", "-y -4", "-noborder", "-allowmultiple"]
    );
}

#[test]
fn base_dir_is_cut_at_last_backslash() {
    let buf = wide(r"C:\bs2\game\bin\win64\bs2_launcher.exe", 260);
    assert_eq!(base_dir_cut(&buf), 21);
    let mut buf = buf;
    cut_to_base_dir(&mut buf);
    let end = buf.iter().position(|&c| c == 0).unwrap();
    assert_eq!(String::from_utf16(&buf[..end]).unwrap(), r"C:\bs2\game\bin\win64");
}

#[test]
fn base_dir_ignores_text_after_nul() {
    let mut buf = wide(r"C:\a", 8);
    buf[6] = '\\' as u16;
    assert_eq!(base_dir_cut(&buf), 2);
}

#[test]
fn base_dir_without_backslash_is_empty() {
    let mut buf = wide("launcher.exe", 20);
    assert_eq!(base_dir_cut(&buf), 0);
    cut_to_base_dir(&mut buf);
    assert_eq!(buf[0], 0);
}

#[test]
fn base_dir_of_full_buffer() {
    let buf: Vec<u16> = r"a\bc".encode_utf16().collect();
    assert_eq!(base_dir_cut(&buf), 1);
}

#[test]
fn core_window_hidden_only_before_browser() {
    let o = observe_window(WindowState::Uninit, "Core");
    assert!(o.hide);
    assert_eq!(o.state, WindowState::Uninit);
    let o = observe_window(WindowState::Open, "Core");
    assert!(!o.hide);
    let o = observe_window(WindowState::Searching, "Core");
    assert!(!o.hide);
}

#[test]
fn asset_browser_marks_open() {
    for state in [WindowState::Uninit, WindowState::Searching, WindowState::Open] {
        let o = observe_window(state, "Asset Browser");
        assert_eq!(o.state, WindowState::Open);
        assert!(!o.hide);
    }
    let o = observe_window(WindowState::Searching, "Material Editor");
    assert_eq!(o.state, WindowState::Searching);
}

#[test]
fn enumeration_stops_once_open() {
    assert!(keep_enumerating(WindowState::Uninit));
    assert!(keep_enumerating(WindowState::Searching));
    assert!(!keep_enumerating(WindowState::Open));
}

fn round(state: WindowState, titles: &[&str]) -> (WindowState, bool) {
    let mut s = begin_round(state);
    for t in titles {
        if !keep_enumerating(s) {
            break;
        }
        s = observe_window(s, t).state;
    }
    (s, round_closed(s))
}

#[test]
fn closed_after_browser_disappears() {
    let (s, closed) = round(WindowState::Uninit, &["Core", "Other"]);
    assert_eq!(s, WindowState::Uninit);
    assert!(!closed);
    let (s, closed) = round(s, &["Core", "Asset Browser"]);
    assert_eq!(s, WindowState::Open);
    assert!(!closed);
    let (s, closed) = round(s, &["Core", "Asset Browser", "Other"]);
    assert_eq!(s, WindowState::Open);
    assert!(!closed);
    let (_, closed) = round(s, &["Core"]);
    assert!(closed);
}

#[test]
fn round_transitions() {
    assert_eq!(begin_round(WindowState::Open), WindowState::Searching);
    assert_eq!(begin_round(WindowState::Uninit), WindowState::Uninit);
    assert_eq!(begin_round(WindowState::Searching), WindowState::Searching);
    assert!(round_closed(WindowState::Searching));
    assert!(!round_closed(WindowState::Open));
    assert!(!round_closed(WindowState::Uninit));
}

#[test]
fn taskbar_style_bits() {
    assert_eq!(taskbar_hidden_style(0), 0x80);
    assert_eq!(taskbar_hidden_style(0x40000), 0x80);
    assert_eq!(taskbar_hidden_style(0x40000 | 0x100 | 0x1), 0x181);
    assert_eq!(taskbar_hidden_style(-1), -1 & !0x40000);
}

#[test]
fn exit_code_forwarded() {
    assert_eq!(forwarded_exit_code(Some(0)), 0);
    assert_eq!(forwarded_exit_code(Some(3)), 3);
    assert_eq!(forwarded_exit_code(None), 1);
}

#[test]
fn inner_compiler_next_to_wrapper() {
    let expected = std::path::Path::new("/opt/bs2/bin").join("resourcecompiler_inner.exe").display().to_string();
    assert_eq!(inner_compiler_path("/opt/bs2/bin"), expected);
}

#[test]
fn only_core_and_browser_matter() {
    assert!(window_matters("Core"));
    assert!(window_matters("Asset Browser"));
    assert!(!window_matters("Material Editor"));
    assert!(!window_matters(""));
}
