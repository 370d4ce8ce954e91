//! The configuration of one invocation: where the project lies, if the
//! working directory is inside one, and the tasks that are defined.
//!
//! A configuration is assembled once and is read-only from then on. Its fields
//! are private, every operation on it takes a shared reference, and the parts
//! that a consumer could be tempted to edit are held in [`Frozen`].

use vstd::prelude::*;
use vstd::std_specs::cmp::PartialEqSpecImpl;
use crate::filesystem::{Filesystem, PathResolutionError};
use crate::frozen::Frozen;
use crate::path::{AbsolutePath, PathView};
use crate::search::search;

verus! {

/// The name of the file that marks the root of a project.
pub const CONFIG_FILENAME: &'static str = "dx.toml";

/// The textual path that resolves to the directory where the search starts.
pub const WORKING_DIRECTORY: &'static str = ".";

/// The textual path that resolves to the directory where the search stops.
pub const ROOT_DIRECTORY: &'static str = "/";

/// Why no configuration could be produced.
#[derive(Debug, Clone, Copy, PartialEq, Eq, Structural)]
pub enum ConfigError {
    /// The directory where the search starts, or the one where it stops,
    /// could not be resolved.
    PathResolution(PathResolutionError),
}

/// The model of a task: its name.
pub struct TaskConfigView {
    pub name: Seq<char>,
}

/// The model of a project: the path of its marker file.
pub struct ProjectConfigView {
    pub path: PathView,
}

/// The model of a configuration: the project, if there is one, and the tasks
/// in their order.
pub struct ConfigView {
    pub project: Option<ProjectConfigView>,
    pub tasks: Seq<TaskConfigView>,
}

/// The configuration of a specific task.
#[derive(Debug)]
pub struct TaskConfig {
    name: Frozen<String>,
}

/// The configuration of the project.
#[derive(Debug)]
pub struct ProjectConfig {
    path: AbsolutePath,
}

/// The global configuration.
#[derive(Debug)]
pub struct Config {
    project: Option<ProjectConfig>,
    tasks: Frozen<Vec<TaskConfig>>,
}

impl View for TaskConfig {
    type V = TaskConfigView;

    closed spec fn view(&self) -> TaskConfigView {
        TaskConfigView { name: self.name@@ }
    }
}

impl View for ProjectConfig {
    type V = ProjectConfigView;

    closed spec fn view(&self) -> ProjectConfigView {
        ProjectConfigView { path: self.path@ }
    }
}

impl View for Config {
    type V = ConfigView;

    closed spec fn view(&self) -> ConfigView {
        ConfigView { project: project_view(self.project), tasks: tasks_view(self.tasks@@) }
    }
}

/// The models of the tasks of a list, in the order of the list.
pub open spec fn tasks_view(tasks: Seq<TaskConfig>) -> Seq<TaskConfigView> {
    tasks.map_values(|task: TaskConfig| task@)
}

/// The model of a project that may be absent.
pub open spec fn project_view(project: Option<ProjectConfig>) -> Option<ProjectConfigView> {
    match project {
        Some(project) => Some(project@),
        None => None,
    }
}

/// The model of the outcome of a load.
pub open spec fn loaded_view(loaded: Result<Config, ConfigError>) -> Result<
    ConfigView,
    ConfigError,
> {
    match loaded {
        Ok(config) => Ok(config@),
        Err(error) => Err(error),
    }
}

/// The configuration that belongs to a state of the filesystem: `files` are
/// its regular files, `start` and `stop` what resolving the working directory
/// and the root directory yields, and `tasks` the tasks that were defined.
///
/// A failure to resolve the start comes first, then one to resolve the stop.
/// Where both resolve, the project is the marker file that the ascending
/// search finds, and is absent where it finds none.
pub open spec fn resolved_config(
    files: Set<PathView>,
    start: Result<PathView, PathResolutionError>,
    stop: Result<PathView, PathResolutionError>,
    tasks: Seq<TaskConfigView>,
) -> Result<ConfigView, ConfigError> {
    match start {
        Err(reason) => Err(ConfigError::PathResolution(reason)),
        Ok(start) => match stop {
            Err(reason) => Err(ConfigError::PathResolution(reason)),
            Ok(stop) => Ok(
                ConfigView {
                    project: match search(files, start, stop, CONFIG_FILENAME@) {
                        Some(path) => Some(ProjectConfigView { path }),
                        None => None,
                    },
                    tasks,
                },
            ),
        },
    }
}

/// A project, where there is one, lies at a path whose last component is the
/// name of the marker file.
pub open spec fn marks_project(project: Option<ProjectConfigView>) -> bool {
    project matches Some(project) ==> project.path.len() > 0 && project.path.last()
        == CONFIG_FILENAME@
}

/// The configuration that a load from `fs` produces for the given tasks,
/// where `fs` answers for a known state.
pub open spec fn load_outcome<F: Filesystem>(fs: &F, tasks: Seq<TaskConfigView>) -> Result<
    ConfigView,
    ConfigError,
> {
    resolved_config(
        fs.files(),
        fs.resolution(WORKING_DIRECTORY@),
        fs.resolution(ROOT_DIRECTORY@),
        tasks,
    )
}

impl TaskConfig {
    /// The task of the given name.
    pub fn new(name: String) -> (task: TaskConfig)
        ensures
            task@.name == name@,
    {
        TaskConfig { name: Frozen::new(name) }
    }

    /// The name of the task.
    pub fn name(&self) -> (name: &Frozen<String>)
        ensures
            name@@ == self@.name,
    {
        &self.name
    }

    /// Tells whether the two tasks have the same name.
    pub fn same_as(&self, other: &TaskConfig) -> (same: bool)
        ensures
            same == (self@ == other@),
    {
        *self.name.get() == *other.name.get()
    }
}

impl ProjectConfig {
    /// The project whose marker file lies at `path`.
    pub fn new(path: AbsolutePath) -> (project: ProjectConfig)
        ensures
            project@.path == path@,
    {
        ProjectConfig { path }
    }

    /// The path of the marker file; the project's directory is its parent.
    pub fn path(&self) -> (path: &AbsolutePath)
        ensures
            path@ == self@.path,
    {
        &self.path
    }

    /// Tells whether the two projects have the same marker file.
    pub fn same_as(&self, other: &ProjectConfig) -> (same: bool)
        ensures
            same == (self@ == other@),
    {
        self.path.same_as(&other.path)
    }
}

impl Config {
    /// The configuration made of the given project and tasks. The tasks keep
    /// their order, and equal names stay apart.
    pub fn new(project: Option<ProjectConfig>, tasks: Vec<TaskConfig>) -> (config: Config)
        ensures
            config@.project == project_view(project),
            config@.tasks == tasks_view(tasks@),
    {
        Config { project, tasks: Frozen::new(tasks) }
    }

    /// Project configuration, if present.
    pub fn project(&self) -> (project: Option<&ProjectConfig>)
        ensures
            match project {
                Some(project) => self@.project == Some(project@),
                None => self@.project is None,
            },
    {
        self.project.as_ref()
    }

    /// Task configuration, in the order in which the tasks were given.
    pub fn tasks(&self) -> (tasks: &Frozen<Vec<TaskConfig>>)
        ensures
            tasks_view(tasks@@) == self@.tasks,
    {
        &self.tasks
    }

    /// Loads the configuration as `fs` shows it, without tasks.
    ///
    /// The working directory and the root directory are resolved, in this
    /// order, and a failure of either ends the load. Then the project marker
    /// is searched from the working directory up to the root.
    pub fn load<F: Filesystem>(fs: &F) -> (loaded: Result<Config, ConfigError>)
        ensures
            fs.has_model() ==> loaded_view(loaded) == load_outcome(
                fs,
                Seq::<TaskConfigView>::empty(),
            ),
            loaded matches Ok(config) ==> config@.tasks.len() == 0 && marks_project(
                config@.project,
            ),
    {
        let tasks: Vec<TaskConfig> = Vec::new();
        assert(tasks_view(tasks@) =~= Seq::<TaskConfigView>::empty());
        Config::load_with_tasks(fs, tasks)
    }

    /// Loads the configuration as `fs` shows it, with the tasks that a decoder
    /// has produced.
    pub fn load_with_tasks<F: Filesystem>(fs: &F, tasks: Vec<TaskConfig>) -> (loaded: Result<
        Config,
        ConfigError,
    >)
        ensures
            fs.has_model() ==> loaded_view(loaded) == load_outcome(fs, tasks_view(tasks@)),
            loaded matches Ok(config) ==> config@.tasks == tasks_view(tasks@) && marks_project(
                config@.project,
            ),
    {
        let start = match fs.canonicalize(WORKING_DIRECTORY) {
            Ok(start) => start,
            Err(reason) => {
                return Err(ConfigError::PathResolution(reason));
            },
        };
        let stop = match fs.canonicalize(ROOT_DIRECTORY) {
            Ok(stop) => stop,
            Err(reason) => {
                return Err(ConfigError::PathResolution(reason));
            },
        };
        let project = match fs.find_file_ascending(&start, &stop, CONFIG_FILENAME) {
            Some(path) => Some(ProjectConfig::new(path)),
            None => None,
        };
        Ok(Config::new(project, tasks))
    }

    /// Tells whether the two configurations are equal field by field: the
    /// same project or none, and the same tasks in the same order.
    pub fn same_as(&self, other: &Config) -> (same: bool)
        ensures
            same == (self@ == other@),
    {
        let same_project = match (&self.project, &other.project) {
            (Some(mine), Some(theirs)) => mine.same_as(theirs),
            (None, None) => true,
            _ => false,
        };
        if !same_project {
            return false;
        }
        let mine = self.tasks.get();
        let theirs = other.tasks.get();
        if mine.len() != theirs.len() {
            assert(self@.tasks.len() != other@.tasks.len());
            return false;
        }
        let mut i: usize = 0;
        while i < mine.len()
            invariant
                i <= mine.len(),
                mine.len() == theirs.len(),
                mine@ == self.tasks@@,
                theirs@ == other.tasks@@,
                forall|j: int| 0 <= j < i ==> self@.tasks[j] == other@.tasks[j],
            decreases mine.len() - i,
        {
            if !mine[i].same_as(&theirs[i]) {
                assert(self@.tasks[i as int] != other@.tasks[i as int]);
                return false;
            }
            i += 1;
        }
        assert(self@.tasks =~= other@.tasks);
        true
    }
}

impl PartialEq for TaskConfig {
    fn eq(&self, other: &TaskConfig) -> (equal: bool) {
        self.same_as(other)
    }
}

impl PartialEqSpecImpl for TaskConfig {
    open spec fn obeys_eq_spec() -> bool {
        true
    }

    open spec fn eq_spec(&self, other: &TaskConfig) -> bool {
        self@ == other@
    }
}

impl PartialEq for ProjectConfig {
    fn eq(&self, other: &ProjectConfig) -> (equal: bool) {
        self.same_as(other)
    }
}

impl PartialEqSpecImpl for ProjectConfig {
    open spec fn obeys_eq_spec() -> bool {
        true
    }

    open spec fn eq_spec(&self, other: &ProjectConfig) -> bool {
        self@ == other@
    }
}

impl PartialEq for Config {
    fn eq(&self, other: &Config) -> (equal: bool) {
        self.same_as(other)
    }
}

impl PartialEqSpecImpl for Config {
    open spec fn obeys_eq_spec() -> bool {
        true
    }

    open spec fn eq_spec(&self, other: &Config) -> bool {
        self@ == other@
    }
}

/// Tasks are read back as they were given: a list that has the model of the
/// given list has its length, and holds the same name at every place.
pub proof fn lemma_tasks_keep_their_order(given: Seq<TaskConfig>, read: Seq<TaskConfig>)
    requires
        tasks_view(read) == tasks_view(given),
    ensures
        read.len() == given.len(),
        forall|i: int| 0 <= i < given.len() ==> (#[trigger] read[i])@.name == given[i]@.name,
{
    assert(tasks_view(read).len() == read.len());
    assert(tasks_view(given).len() == given.len());
    assert forall|i: int| 0 <= i < given.len() implies (#[trigger] read[i])@.name
        == given[i]@.name by {
        assert(tasks_view(read)[i] == read[i]@);
        assert(tasks_view(given)[i] == given[i]@);
    }
}

/// Loading is repeatable: two loads for the same tasks, from filesystems in
/// the same state, end alike. Both fail for the same reason, or both yield a
/// configuration, and the two are equal field by field. Filesystems are in
/// the same state when they hold the same regular files and resolve the
/// working directory and the root directory alike; one filesystem that does
/// not change between the loads is the plain case.
pub proof fn lemma_load_is_repeatable<F: Filesystem, G: Filesystem>(
    earlier: &F,
    later: &G,
    tasks: Seq<TaskConfigView>,
    first: Result<Config, ConfigError>,
    second: Result<Config, ConfigError>,
)
    requires
        earlier.has_model(),
        later.has_model(),
        earlier.files() == later.files(),
        earlier.resolution(WORKING_DIRECTORY@) == later.resolution(WORKING_DIRECTORY@),
        earlier.resolution(ROOT_DIRECTORY@) == later.resolution(ROOT_DIRECTORY@),
        loaded_view(first) == load_outcome(earlier, tasks),
        loaded_view(second) == load_outcome(later, tasks),
    ensures
        loaded_view(first) == loaded_view(second),
        first matches Ok(config) ==> second is Ok && second.unwrap()@ == config@,
        first matches Err(error) ==> second == Err::<Config, ConfigError>(error),
{
}

} // verus!
