use vstd::prelude::*;
use vstd::string::*;

verus! {

/// A project known to the manager: an addon name and the folder of its game code.
pub struct Project {
    pub name: String,
    pub path: String,
}

/// The mathematical model of a [`Project`].
pub struct ProjectView {
    pub name: Seq<char>,
    pub path: Seq<char>,
}

impl View for Project {
    type V = ProjectView;

    open spec fn view(&self) -> ProjectView {
        ProjectView { name: self.name@, path: self.path@ }
    }
}

/// The project with empty name and path, which stands for "no project".
pub open spec fn empty_project() -> ProjectView {
    ProjectView { name: Seq::empty(), path: Seq::empty() }
}

impl Default for Project {
    fn default() -> (res: Self)
        ensures
            res@ == empty_project(),
    {
        Project { name: String::new(), path: String::new() }
    }
}

impl Project {
    /// A copy of this project.
    pub fn duplicate(&self) -> (res: Project)
        ensures
            res@ == self@,
    {
        Project { name: self.name.clone(), path: self.path.clone() }
    }
}

/// The manager's persistent configuration.
pub struct Config {
    /// Where Counter-Strike 2 is installed.
    pub cs2_path: String,
    /// The projects, in the order they were created.
    pub projects: Vec<Project>,
}

/// The mathematical model of a [`Config`].
pub struct ConfigView {
    pub cs2_path: Seq<char>,
    pub projects: Seq<ProjectView>,
}

impl View for Config {
    type V = ConfigView;

    open spec fn view(&self) -> ConfigView {
        ConfigView { cs2_path: self.cs2_path@, projects: self.projects@.map_values(|p: Project| p@) }
    }
}

/// The default Steam location of Counter-Strike 2.
pub open spec fn default_cs2_path() -> Seq<char> {
    "C:\\Program Files (x86)\\Steam\\steamapps\\common\\Counter-Strike Global Offensive\\"@
}

impl Default for Config {
    fn default() -> (res: Self)
        ensures
            res@.cs2_path == default_cs2_path(),
            res@.projects == Seq::<ProjectView>::empty(),
    {
        let projects: Vec<Project> = Vec::new();
        let res = Config {
            cs2_path: String::from_str(
                "C:\\Program Files (x86)\\Steam\\steamapps\\common\\Counter-Strike Global Offensive\\",
            ),
            projects,
        };
        assert(res@.projects =~= Seq::<ProjectView>::empty());
        res
    }
}

impl Config {
    /// The configuration in effect after reading the configuration file:
    /// what was read and parsed, or the default where reading or parsing failed.
    pub fn read_or_default(parsed: Option<Config>) -> (res: Config)
        ensures
            parsed is Some ==> res@ == parsed->0@,
            parsed is None ==> res@ == Config::default_view(),
    {
        match parsed {
            Some(c) => c,
            None => Config::default(),
        }
    }

    /// The model of the default configuration.
    pub open spec fn default_view() -> ConfigView {
        ConfigView { cs2_path: default_cs2_path(), projects: Seq::empty() }
    }

    /// Whether the default configuration must be written, given what the check
    /// for an existing file reported: `Some(found)`, or `None` where the check
    /// itself failed. Only a file known to exist is left alone.
    pub fn must_write_default(probe: Option<bool>) -> (res: bool)
        ensures
            res == (probe != Some(true)),
    {
        match probe {
            Some(found) => !found,
            None => true,
        }
    }

    /// This configuration with another Counter-Strike 2 location; the projects stay.
    pub fn with_cs2_path(self, cs2_path: String) -> (res: Config)
        ensures
            res@.cs2_path == cs2_path@,
            res@.projects == self@.projects,
    {
        Config { cs2_path, projects: self.projects }
    }
}

} // verus!
