use vstd::prelude::*;
use vstd::string::*;

use crate::config::{empty_project, Config, Project, ProjectView};
use crate::ident::{is_ascii_rust_ident, is_ident};
use crate::disk::{probe, Probe};
use crate::paths::{join_all, join_parts, join_path, joined_path, views};
use crate::setup::found_by;
use crate::text::str_eq;

verus! {

/// The first entry of the project selection, which creates a new project.
pub open spec fn create_new_label() -> Seq<char> {
    "➕︎ Create New Project"@
}

/// The names of the projects, in order.
pub open spec fn project_names(projects: Seq<ProjectView>) -> Seq<Seq<char>> {
    projects.map_values(|p: ProjectView| p.name)
}

/// The project selection: the entry that creates a new project, then every
/// project's name in order; and the position of the last entry.
pub struct ProjectSelection {
    pub entries: Vec<String>,
    pub last: usize,
}

/// Lists the projects of `config` for selection.
pub fn project_selection(config: &Config) -> (res: ProjectSelection)
    ensures
        res.entries@.map_values(|s: String| s@) == seq![create_new_label()] + project_names(
            config@.projects,
        ),
        res.last == config@.projects.len(),
{
    let mut entries: Vec<String> = Vec::new();
    entries.push(String::from_str("➕︎ Create New Project"));
    let mut i: usize = 0;
    while i < config.projects.len()
        invariant
            i <= config.projects@.len(),
            entries@.len() == i + 1,
            entries@[0]@ == create_new_label(),
            forall|j: int| 0 <= j < i ==> #[trigger] entries@[j + 1]@ == config.projects@[j].name@,
        decreases config.projects@.len() - i,
    {
        entries.push(config.projects[i].name.clone());
        i = i + 1;
    }
    let last = config.projects.len();
    proof {
        let lhs = entries@.map_values(|s: String| s@);
        let rhs = seq![create_new_label()] + project_names(config@.projects);
        assert(lhs.len() == rhs.len());
        assert forall|j: int| 0 <= j < lhs.len() implies lhs[j] == rhs[j] by {
            if j > 0 {
                assert(entries@[(j - 1) + 1]@ == config.projects@[j - 1].name@);
            }
        }
        assert(lhs =~= rhs);
    }
    ProjectSelection { entries, last }
}

/// `i` is the first position in `ps` of a project named `name`.
pub open spec fn is_first_named(ps: Seq<ProjectView>, name: Seq<char>, i: int) -> bool {
    &&& 0 <= i < ps.len()
    &&& ps[i].name == name
    &&& forall|j: int| 0 <= j < i ==> #[trigger] ps[j].name != name
}

/// The project named `name`, the first one where several share the name; the
/// empty project where none has it.
pub fn read_project(config: &Config, name: &str) -> (res: Project)
    ensures
        (exists|i: int| is_first_named(config@.projects, name@, i) && res@ == config@.projects[i])
            || ((forall|i: int|
            0 <= i < config@.projects.len() ==> #[trigger] config@.projects[i].name != name@)
            && res@ == empty_project()),
{
    let mut i: usize = 0;
    while i < config.projects.len()
        invariant
            i <= config.projects@.len(),
            forall|j: int| 0 <= j < i ==> #[trigger] config@.projects[j].name != name@,
        decreases config.projects@.len() - i,
    {
        if str_eq(config.projects[i].name.as_str(), name) {
            let res = config.projects[i].duplicate();
            assert(is_first_named(config@.projects, name@, i as int));
            return res;
        }
        i = i + 1;
    }
    Project::default()
}

/// `i` is the first position in `entries` holding `name`.
pub open spec fn is_first_entry(entries: Seq<Seq<char>>, name: Seq<char>, i: int) -> bool {
    &&& 0 <= i < entries.len()
    &&& entries[i] == name
    &&& forall|j: int| 0 <= j < i ==> #[trigger] entries[j] != name
}

/// The position of `name` in the selection, the first where it occurs
/// several times; 0 where it does not occur.
pub fn selection_index(entries: &Vec<String>, name: &str) -> (res: usize)
    ensures
        is_first_entry(entries@.map_values(|s: String| s@), name@, res as int) || ((forall|i: int|
            0 <= i < entries@.len() ==> #[trigger] entries@[i]@ != name@) && res == 0),
{
    let ghost seen = entries@.map_values(|s: String| s@);
    let mut i: usize = 0;
    while i < entries.len()
        invariant
            i <= entries@.len(),
            seen == entries@.map_values(|s: String| s@),
            forall|j: int| 0 <= j < i ==> #[trigger] entries@[j]@ != name@,
        decreases entries@.len() - i,
    {
        if str_eq(entries[i].as_str(), name) {
            assert forall|j: int| 0 <= j < i implies #[trigger] seen[j] != name@ by {
                assert(entries@[j]@ != name@);
            }
            return i;
        }
        i = i + 1;
    }
    0
}

/// The addon folders of a project named `name` below the working directory `wd`:
/// `<wd>/game/core_addons/<name>` and `<wd>/content/core_addons/<name>`.
pub open spec fn addon_dirs(wd: Seq<char>, name: Seq<char>) -> Seq<Seq<char>> {
    seq![
        join_all(wd, seq!["game"@, "core_addons"@, name]),
        join_all(wd, seq!["content"@, "core_addons"@, name]),
    ]
}

/// The form in which a new project is described: its name and its folder.
pub struct NewProjectForm {
    pub name: String,
    pub path: String,
}

/// Creates the project described in `form`: adds it to the configuration,
/// clears the form, and gives the two folders to create for its addon below
/// the working directory `working_dir`.
pub fn create_project(config: &mut Config, working_dir: &str, form: &mut NewProjectForm) -> (res:
    Vec<String>)
    ensures
        final(config)@.cs2_path == old(config)@.cs2_path,
        final(config)@.projects == old(config)@.projects.push(
            ProjectView { name: old(form).name@, path: old(form).path@ },
        ),
        res@.map_values(|s: String| s@) == addon_dirs(working_dir@, old(form).name@),
        final(form).name@ == Seq::<char>::empty(),
        final(form).path@ == Seq::<char>::empty(),
{
    let name = form.name.clone();
    let path = form.path.clone();
    let game_parts = ["game", "core_addons", name.as_str()];
    let game_dir = join_parts(working_dir, &game_parts);
    assert(views(game_parts@) =~= seq!["game"@, "core_addons"@, name@]);
    let content_parts = ["content", "core_addons", name.as_str()];
    let content_dir = join_parts(working_dir, &content_parts);
    assert(views(content_parts@) =~= seq!["content"@, "core_addons"@, name@]);
    let mut dirs: Vec<String> = Vec::new();
    dirs.push(game_dir);
    dirs.push(content_dir);
    let ghost before = config@.projects;
    let ghost entry = ProjectView { name: name@, path: path@ };
    config.projects.push(Project { name, path });
    assert(config@.projects =~= before.push(entry));
    assert(dirs@.map_values(|s: String| s@) =~= addon_dirs(working_dir@, entry.name));
    form.name = String::new();
    form.path = String::new();
    dirs
}

/// How the tools are started for a project.
pub struct ToolsLaunch {
    /// The selection entry to remember as the last project.
    pub last_project: usize,
    /// The launcher to run.
    pub program: String,
    /// The folder to run it in.
    pub dir: String,
    /// Its arguments.
    pub args: Vec<String>,
    /// The process-creation flags it is started with.
    pub creation_flags: u32,
}

/// The launcher runs detached from the manager, in a process group of its own:
/// `DETACHED_PROCESS | CREATE_NEW_PROCESS_GROUP` (0x8 | 0x200).
pub open spec fn tools_creation_flags() -> u32 {
    0x208u32
}

/// `<wd>/game/bin/win64`, where the tools live.
pub open spec fn tools_dir(wd: Seq<char>) -> Seq<char> {
    join_all(wd, seq!["game"@, "bin"@, "win64"@])
}

/// Starts the tools for the project `name`: remembers its place in the
/// selection and runs the launcher from the tools folder below `working_dir`
/// with `-addon <name>`.
pub fn launch_tools(entries: &Vec<String>, working_dir: &str, name: &str) -> (res: ToolsLaunch)
    ensures
        is_first_entry(entries@.map_values(|s: String| s@), name@, res.last_project as int) || ((
        forall|i: int| 0 <= i < entries@.len() ==> #[trigger] entries@[i]@ != name@)
            && res.last_project == 0),
        res.dir@ == tools_dir(working_dir@),
        res.program@ == joined_path(tools_dir(working_dir@), "bs2_launcher.exe"@),
        res.args@.map_values(|s: String| s@) == seq!["-addon"@, name@],
        res.creation_flags == tools_creation_flags(),
{
    let last_project = selection_index(entries, name);
    let parts = ["game", "bin", "win64"];
    let dir = join_parts(working_dir, &parts);
    assert(views(parts@) =~= seq!["game"@, "bin"@, "win64"@]);
    let program = join_path(dir.as_str(), "bs2_launcher.exe");
    let mut args: Vec<String> = Vec::new();
    args.push(String::from_str("-addon"));
    args.push(String::from_str(name));
    assert(args@.map_values(|s: String| s@) =~= seq!["-addon"@, name@]);
    // DETACHED_PROCESS | CREATE_NEW_PROCESS_GROUP, see
    // https://learn.microsoft.com/en-us/windows/win32/procthread/process-creation-flags
    let creation_flags: u32 = 0x00000008 | 0x00000200;
    assert(0x00000008u32 | 0x00000200u32 == 0x208u32) by (bit_vector);
    ToolsLaunch { last_project, program, dir, args, creation_flags }
}

/// Only one position is the first one holding a name.
pub proof fn lemma_first_named_unique(ps: Seq<ProjectView>, name: Seq<char>, i: int, k: int)
    requires
        is_first_named(ps, name, i),
        is_first_named(ps, name, k),
    ensures
        i == k,
{
    if i < k {
        assert(ps[i].name != name);
    } else if k < i {
        assert(ps[k].name != name);
    }
}

/// A project created under a name that no project had is the one read back
/// under that name: it stands last, with the folder it was created with.
pub proof fn lemma_created_project_read_back(
    ps: Seq<ProjectView>,
    name: Seq<char>,
    path: Seq<char>,
)
    requires
        forall|j: int| 0 <= j < ps.len() ==> #[trigger] ps[j].name != name,
    ensures
        is_first_named(ps.push(ProjectView { name, path }), name, ps.len() as int),
        ps.push(ProjectView { name, path })[ps.len() as int] == (ProjectView { name, path }),
{
    let after = ps.push(ProjectView { name, path });
    assert forall|j: int| 0 <= j < ps.len() implies #[trigger] after[j].name != name by {
        assert(after[j] == ps[j]);
    }
}

/// The selection entry of a project is one past its place among the projects:
/// launching the tools for the first project with a name remembers that
/// project's entry (unless the name is that of the entry creating a project).
pub proof fn lemma_selection_entry_of_project(ps: Seq<ProjectView>, name: Seq<char>, i: int)
    requires
        is_first_named(ps, name, i),
        name != create_new_label(),
    ensures
        is_first_entry(seq![create_new_label()] + project_names(ps), name, i + 1),
{
    let entries = seq![create_new_label()] + project_names(ps);
    assert(entries[i + 1] == ps[i].name);
    assert forall|j: int| 0 <= j < i + 1 implies #[trigger] entries[j] != name by {
        if j > 0 {
            assert(entries[j] == ps[j - 1].name);
        }
    }
}

/// The error shown for an invalid project name.
pub open spec fn msg_bad_name() -> Seq<char> {
    "Project name must start with a letter, only contain English letters, digits, or the separator _, and have no spaces."@
}

/// The error shown for a project folder that does not exist.
pub open spec fn msg_missing_path() -> Seq<char> {
    "Project path doesn't exist"@
}

/// The error to show under a new project's name: none while it is empty or
/// valid.
pub fn new_project_name_error(name: &str) -> (res: String)
    ensures
        res@ == if name@.len() == 0 || is_ident(name@) {
            Seq::empty()
        } else {
            msg_bad_name()
        },
{
    if name.is_empty() {
        String::new()
    } else if is_ascii_rust_ident(name) {
        String::new()
    } else {
        String::from_str(
            "Project name must start with a letter, only contain English letters, digits, or the separator _, and have no spaces.",
        )
    }
}

/// The error to show under a new project's folder, given whether it exists:
/// none while it is empty or exists.
pub fn path_error_for(path: &str, found: bool) -> (res: String)
    ensures
        res@ == if path@.len() == 0 || found {
            Seq::empty()
        } else {
            msg_missing_path()
        },
{
    if path.is_empty() || found {
        String::new()
    } else {
        String::from_str("Project path doesn't exist")
    }
}

/// The error to show under a new project's folder, with the look-up made
/// for it. An empty folder is not looked up and gets no error; otherwise the
/// file system is asked about the folder, and the error is "Project path
/// doesn't exist" exactly when it was not found.
pub fn new_project_path_error(path: &str) -> (res: (String, Option<Probe>))
    ensures
        res.1 is Some <==> path@.len() > 0,
        res.1 matches Some(p) ==> p.asked() == path@,
        res.0@ == (if path@.len() == 0 || found_by(res.1) {
            Seq::<char>::empty()
        } else {
            msg_missing_path()
        }),
{
    if path.is_empty() {
        return (path_error_for(path, false), None);
    }
    let looked = probe(String::from_str(path));
    let message = path_error_for(path, looked.found());
    (message, Some(looked))
}

/// The folder a folder picker starts in: the current choice, or the home
/// folder while nothing is chosen.
pub fn dialog_start_dir(current: &str, home: String) -> (res: String)
    ensures
        res@ == if current@.len() == 0 {
            home@
        } else {
            current@
        },
{
    if current.is_empty() {
        home
    } else {
        String::from_str(current)
    }
}

} // verus!
