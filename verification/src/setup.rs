use vstd::prelude::*;
use vstd::string::*;

use crate::config::Config;
use crate::disk::{probe, Probe};
use crate::paths::{join_all, join_parts, join_path, joined_path, views};

verus! {

// ---------------------------------------------------------------------------
// The state of a Counter-Strike 2 installation
// ---------------------------------------------------------------------------

/// What was found at the configured Counter-Strike 2 location.
#[derive(PartialEq, Eq, Structural, Clone, Copy, Debug)]
pub enum Cs2State {
    /// No game engine there.
    NotFound,
    /// The game, but not the Workshop Tools.
    GameOnly,
    /// The game together with the Workshop Tools.
    Good,
}

/// The installation state, from whether the engine library and the Workshop
/// Tools' `base.fgd` exist. Without the engine nothing else counts.
pub open spec fn cs2_state_of(engine: bool, fgd: bool) -> Cs2State {
    if !engine {
        Cs2State::NotFound
    } else if !fgd {
        Cs2State::GameOnly
    } else {
        Cs2State::Good
    }
}

/// Decides the installation state, following [`cs2_state_of`].
pub fn cs2_state_from(engine_exists: bool, fgd_exists: bool) -> (res: Cs2State)
    ensures
        res == cs2_state_of(engine_exists, fgd_exists),
{
    if !engine_exists {
        Cs2State::NotFound
    } else if !fgd_exists {
        Cs2State::GameOnly
    } else {
        Cs2State::Good
    }
}

/// `<cs2>/game/bin/win64/engine2.dll`
pub open spec fn cs2_engine_dll(cs2: Seq<char>) -> Seq<char> {
    join_all(cs2, seq!["game"@, "bin"@, "win64"@, "engine2.dll"@])
}

/// `<cs2>/game/core/base.fgd`
pub open spec fn cs2_base_fgd(cs2: Seq<char>) -> Seq<char> {
    join_all(cs2, seq!["game"@, "core"@, "base.fgd"@])
}

/// The engine library of the Counter-Strike 2 installation at `cs2_path`.
pub fn cs2_engine_dll_path(cs2_path: &str) -> (res: String)
    ensures
        res@ == cs2_engine_dll(cs2_path@),
{
    let parts = ["game", "bin", "win64", "engine2.dll"];
    let res = join_parts(cs2_path, &parts);
    assert(views(parts@) =~= seq!["game"@, "bin"@, "win64"@, "engine2.dll"@]);
    res
}

/// The Workshop Tools' entity definitions in the installation at `cs2_path`.
pub fn cs2_base_fgd_path(cs2_path: &str) -> (res: String)
    ensures
        res@ == cs2_base_fgd(cs2_path@),
{
    let parts = ["game", "core", "base.fgd"];
    let res = join_parts(cs2_path, &parts);
    assert(views(parts@) =~= seq!["game"@, "core"@, "base.fgd"@]);
    res
}

/// What was found at a Counter-Strike 2 location, and the state decided from it.
pub struct Cs2Check {
    /// The probe of the engine library.
    pub engine: Probe,
    /// The probe of the Workshop Tools' `base.fgd`, made only where the engine was found.
    pub fgd: Option<Probe>,
    /// The state decided from the two answers.
    pub state: Cs2State,
}

/// Whether the answer of an optional probe was "found".
pub open spec fn found_by(p: Option<Probe>) -> bool {
    match p {
        Some(p) => p.answer(),
        None => false,
    }
}

/// `check` looked at the installation at `cs2`: it probed the engine library,
/// then `base.fgd` only where the engine was found, and decided the state from
/// the answers by [`cs2_state_of`].
pub open spec fn is_cs2_check_for(check: Cs2Check, cs2: Seq<char>) -> bool {
    &&& check.engine.asked() == cs2_engine_dll(cs2)
    &&& (check.fgd is Some <==> check.engine.answer())
    &&& (check.fgd matches Some(p) ==> p.asked() == cs2_base_fgd(cs2))
    &&& check.state == cs2_state_of(check.engine.answer(), found_by(check.fgd))
}

/// What a look at an installation shows: it is found exactly when the file
/// system found `<cs2>/game/bin/win64/engine2.dll`; it is good exactly when,
/// besides, `<cs2>/game/core/base.fgd` was looked up and found; it is the game
/// only when the engine was found and that file was looked up and not found.
pub proof fn lemma_cs2_check_meaning(check: Cs2Check, cs2: Seq<char>)
    requires
        is_cs2_check_for(check, cs2),
    ensures
        check.engine.asked() == join_all(cs2, seq!["game"@, "bin"@, "win64"@, "engine2.dll"@]),
        check.state == Cs2State::NotFound <==> !check.engine.answer(),
        check.state == Cs2State::Good <==> (check.engine.answer() && (check.fgd matches Some(p)
            && p.asked() == join_all(cs2, seq!["game"@, "core"@, "base.fgd"@]) && p.answer())),
        check.state == Cs2State::GameOnly <==> (check.engine.answer() && (check.fgd matches Some(p)
            && p.asked() == join_all(cs2, seq!["game"@, "core"@, "base.fgd"@]) && !p.answer())),
{
}

/// Looks at the installation at `cs2_path` on disk. The file system answers
/// the probes; the state is decided from its answers.
pub fn update_cs2_state(cs2_path: &str) -> (res: Cs2Check)
    ensures
        is_cs2_check_for(res, cs2_path@),
{
    let engine = probe(cs2_engine_dll_path(cs2_path));
    if !engine.found() {
        let state = cs2_state_from(false, false);
        return Cs2Check { engine, fgd: None, state };
    }
    let fgd = probe(cs2_base_fgd_path(cs2_path));
    let state = cs2_state_from(true, fgd.found());
    Cs2Check { engine, fgd: Some(fgd), state }
}

// ---------------------------------------------------------------------------
// Whether the one-time setup has been done
// ---------------------------------------------------------------------------

/// `<wd>/game/bin/win64/engine2.dll`, the engine copied by the setup.
pub open spec fn installed_engine_dll(wd: Seq<char>) -> Seq<char> {
    joined_path(wd, "game/bin/win64/engine2.dll"@)
}

/// `<wd>/game/bin/win64/bs2_launcher.exe`, the launcher copied from the template.
pub open spec fn installed_launcher(wd: Seq<char>) -> Seq<char> {
    joined_path(wd, "game/bin/win64/bs2_launcher.exe"@)
}

/// `<wd>/content/core_addons`, created by the setup.
pub open spec fn installed_content_addons(wd: Seq<char>) -> Seq<char> {
    joined_path(wd, "content/core_addons"@)
}

/// The installed engine below the working directory `working_dir`.
pub fn installed_engine_dll_path(working_dir: &str) -> (res: String)
    ensures
        res@ == installed_engine_dll(working_dir@),
{
    join_path(working_dir, "game/bin/win64/engine2.dll")
}

/// The installed launcher below the working directory `working_dir`.
pub fn installed_launcher_path(working_dir: &str) -> (res: String)
    ensures
        res@ == installed_launcher(working_dir@),
{
    join_path(working_dir, "game/bin/win64/bs2_launcher.exe")
}

/// The addon content folder below the working directory `working_dir`.
pub fn installed_content_addons_path(working_dir: &str) -> (res: String)
    ensures
        res@ == installed_content_addons(working_dir@),
{
    join_path(working_dir, "content/core_addons")
}

/// The setup is done when the engine, the launcher and the content folder
/// are all in place.
pub fn setup_done_from(engine: bool, launcher: bool, content: bool) -> (res: bool)
    ensures
        res == (engine && launcher && content),
{
    engine && launcher && content
}

/// What was found below a working directory, and whether the setup is done.
pub struct SetupCheck {
    /// The probe of the installed engine.
    pub engine: Probe,
    /// The probe of the installed launcher, made only where the engine was found.
    pub launcher: Option<Probe>,
    /// The probe of the content folder, made only where the launcher was found.
    pub content: Option<Probe>,
    /// Whether the setup is done, decided from the answers.
    pub done: bool,
}

/// `check` looked below the working directory `wd`: it probed the engine, the
/// launcher and the content folder in turn, each only while the ones before
/// were found, and decided by [`setup_done_from`] over the answers.
pub open spec fn is_setup_check_for(check: SetupCheck, wd: Seq<char>) -> bool {
    &&& check.engine.asked() == installed_engine_dll(wd)
    &&& (check.launcher is Some <==> check.engine.answer())
    &&& (check.launcher matches Some(p) ==> p.asked() == installed_launcher(wd))
    &&& (check.content is Some <==> found_by(check.launcher))
    &&& (check.content matches Some(p) ==> p.asked() == installed_content_addons(wd))
    &&& check.done == (check.engine.answer() && found_by(check.launcher) && found_by(check.content))
}

/// The setup is reported done exactly when the file system found all three of
/// `<wd>/game/bin/win64/engine2.dll`, `<wd>/game/bin/win64/bs2_launcher.exe`
/// and `<wd>/content/core_addons`, each of them actually looked up.
pub proof fn lemma_setup_check_meaning(check: SetupCheck, wd: Seq<char>)
    requires
        is_setup_check_for(check, wd),
    ensures
        check.engine.asked() == joined_path(wd, "game/bin/win64/engine2.dll"@),
        check.done <==> {
            &&& check.engine.answer()
            &&& (check.launcher matches Some(l) && l.asked() == joined_path(
                wd,
                "game/bin/win64/bs2_launcher.exe"@,
            ) && l.answer())
            &&& (check.content matches Some(c) && c.asked() == joined_path(
                wd,
                "content/core_addons"@,
            ) && c.answer())
        },
        !check.engine.answer() ==> !check.done,
{
}

/// Looks on disk, below the working directory `working_dir`, for what the
/// setup leaves behind. The file system answers the probes; whether the setup
/// is done is decided from its answers.
pub fn is_setup_done(working_dir: &str) -> (res: SetupCheck)
    ensures
        is_setup_check_for(res, working_dir@),
{
    let engine = probe(installed_engine_dll_path(working_dir));
    if !engine.found() {
        let done = setup_done_from(false, false, false);
        return SetupCheck { engine, launcher: None, content: None, done };
    }
    let launcher = probe(installed_launcher_path(working_dir));
    if !launcher.found() {
        let done = setup_done_from(true, false, false);
        return SetupCheck { engine, launcher: Some(launcher), content: None, done };
    }
    let content = probe(installed_content_addons_path(working_dir));
    let done = setup_done_from(true, true, content.found());
    SetupCheck { engine, launcher: Some(launcher), content: Some(content), done }
}

/// `<wd>/template`, the folder the setup copies the BS2 files from.
pub open spec fn template_dir(wd: Seq<char>) -> Seq<char> {
    joined_path(wd, "template"@)
}

/// The template folder below the working directory `working_dir`.
pub fn template_dir_path(working_dir: &str) -> (res: String)
    ensures
        res@ == template_dir(working_dir@),
{
    join_path(working_dir, "template")
}

/// The installed engine, checked for being in use before a setup:
/// `<wd>/game/bin/win64/engine2.dll`, joined part by part.
pub fn engine_lock_path(working_dir: &str) -> (res: String)
    ensures
        res@ == join_all(working_dir@, seq!["game"@, "bin"@, "win64"@, "engine2.dll"@]),
{
    let parts = ["game", "bin", "win64", "engine2.dll"];
    let res = join_parts(working_dir, &parts);
    assert(views(parts@) =~= seq!["game"@, "bin"@, "win64"@, "engine2.dll"@]);
    res
}

/// Whether a file is held open by another program, from whether it exists and
/// whether opening it for writing failed: a missing file is not locked.
pub fn is_locked(present: bool, write_open_failed: bool) -> (res: bool)
    ensures
        res == (present && write_open_failed),
{
    present && write_open_failed
}

/// What the setup page shows when the manager starts.
pub struct SetupPageView {
    /// The Counter-Strike 2 location, from the configuration.
    pub cs2_path: String,
    /// What was found there.
    pub cs2: Cs2Check,
    /// What was found below the working directory.
    pub setup: SetupCheck,
    /// The installation state shown.
    pub cs2_state: Cs2State,
    /// Whether the setup has been done.
    pub setup_done: bool,
    /// Whether to switch straight to the projects page.
    pub open_projects: bool,
}

/// The setup page for a configuration and what was found on disk.
pub fn setup_page_view(config: &Config, cs2: Cs2Check, setup: SetupCheck) -> (res: SetupPageView)
    ensures
        res.cs2_path@ == config@.cs2_path,
        res.cs2 == cs2,
        res.setup == setup,
        res.cs2_state == cs2.state,
        res.setup_done == setup.done,
        res.open_projects == setup.done,
{
    let cs2_state = cs2.state;
    let setup_done = setup.done;
    SetupPageView {
        cs2_path: config.cs2_path.clone(),
        cs2,
        setup,
        cs2_state,
        setup_done,
        open_projects: setup_done,
    }
}

/// Prepares the setup page: looks at the installation at the configured
/// location and checks below `working_dir` whether the setup has been done.
/// The file system answers the probes; the page shows what is decided from
/// its answers.
pub fn plugin(config: &Config, working_dir: &str) -> (res: SetupPageView)
    ensures
        res.cs2_path@ == config@.cs2_path,
        is_cs2_check_for(res.cs2, config@.cs2_path),
        is_setup_check_for(res.setup, working_dir@),
        res.cs2_state == res.cs2.state,
        res.setup_done == res.setup.done,
        res.open_projects == res.setup_done,
{
    let cs2 = update_cs2_state(config.cs2_path.as_str());
    let setup = is_setup_done(working_dir);
    setup_page_view(config, cs2, setup)
}

} // verus!
