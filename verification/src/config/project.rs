//! The registry of projects: one record for each project that the user
//! registered.
use crate::config::{config_dir, settings_dir};
use crate::path::{join, joined, nested_under, starts_with};
use crate::process::optional_text;
use crate::text::{concat2, has_suffix, to_chars};
use std::collections::HashMap;
use vstd::prelude::*;

verus! {

/// A point in time: seconds since the start of 1970 in UTC, and the
/// nanoseconds since that second began.
#[derive(Debug, Clone, Copy, PartialEq, Eq, Structural)]
pub struct Timestamp {
    pub seconds: i64,
    pub nanos: u32,
}

/// Whether `a` is a later point in time than `b`.
pub open spec fn later(a: Timestamp, b: Timestamp) -> bool {
    a.seconds > b.seconds || (a.seconds == b.seconds && a.nanos > b.nanos)
}

impl Timestamp {
    /// Whether this is a later point in time than `other`.
    pub fn is_later_than(&self, other: &Timestamp) -> (r: bool)
        ensures
            r == later(*self, *other),
    {
        self.seconds > other.seconds || (self.seconds == other.seconds && self.nanos
            > other.nanos)
    }
}

/// Trusted: the time of the system clock as chrono's
/// `DateTime::<Utc>::from(SystemTime)` gives it, read through
/// `DateTime::timestamp` and `DateTime::timestamp_subsec_nanos`. The clock
/// decides the result, and nothing is claimed of it. The conversion
/// handles a clock that stands before 1970 as well as one after; it fails
/// only for a time outside the years that chrono can write, some 262,000
/// either side of 1970.
#[verifier::external_body]
fn current_time() -> (t: Timestamp) {
    let now = chrono::DateTime::<chrono::Utc>::from(std::time::SystemTime::now());
    Timestamp { seconds: now.timestamp(), nanos: now.timestamp_subsec_nanos() }
}

/// A registered project.
#[derive(Debug, Clone, PartialEq, Eq)]
pub struct ProjectConfig {
    /// The name by which the project is known.
    pub name: String,
    /// The root directory of the project.
    pub path: String,
    /// Where the project was cloned from, if it was.
    pub remote_url: Option<String>,
    /// The editor for this project, where it is not the user's usual one.
    pub editor: Option<String>,
    /// Whether to install dependencies, where that differs from the
    /// user's setting.
    pub auto_install_deps: Option<bool>,
    pub uses_devbox: bool,
    /// Environment variables for the project: names and values.
    pub env: HashMap<String, String>,
    pub created_at: Timestamp,
    pub last_accessed: Timestamp,
}

/// A project record as plain values.
pub struct ProjectView {
    pub name: Seq<char>,
    pub path: Seq<char>,
    pub remote_url: Option<Seq<char>>,
    pub editor: Option<Seq<char>>,
    pub auto_install_deps: Option<bool>,
    pub uses_devbox: bool,
    pub env: Map<String, String>,
    pub created_at: Timestamp,
    pub last_accessed: Timestamp,
}

impl View for ProjectConfig {
    type V = ProjectView;

    open spec fn view(&self) -> ProjectView {
        ProjectView {
            name: self.name@,
            path: self.path@,
            remote_url: optional_text(self.remote_url),
            editor: optional_text(self.editor),
            auto_install_deps: self.auto_install_deps,
            uses_devbox: self.uses_devbox,
            env: self.env@,
            created_at: self.created_at,
            last_accessed: self.last_accessed,
        }
    }
}

/// The record of a project registered at `now`: nothing set but name and
/// path, created and last accessed at that time.
pub open spec fn fresh_project(name: Seq<char>, path: Seq<char>, now: Timestamp) -> ProjectView {
    ProjectView {
        name,
        path,
        remote_url: None,
        editor: None,
        auto_install_deps: None,
        uses_devbox: false,
        env: Map::empty(),
        created_at: now,
        last_accessed: now,
    }
}

/// The file that holds the record of the project `name`, in the given
/// settings directory: `<name>.json` under `projects`.
pub open spec fn project_file(config_dir: Seq<char>, name: Seq<char>) -> Seq<char> {
    joined(joined(config_dir, "projects"@), name + ".json"@)
}

/// The file that holds the record of the project `name`, given what the
/// platform says of the user's configuration and home directories.
pub open spec fn project_file_for(
    config: Option<Seq<char>>,
    home: Option<Seq<char>>,
    name: Seq<char>,
) -> Option<Seq<char>> {
    match settings_dir(config, home) {
        Some(dir) => Some(project_file(dir, name)),
        None => None,
    }
}

/// Whether a file name is that of a project record: it ends with `.json`
/// and has something before that.
pub open spec fn names_project_file(file_name: Seq<char>) -> bool {
    file_name.len() > ".json"@.len() && ".json"@.is_suffix_of(file_name)
}

/// Whether a file of the `projects` directory holds a project record,
/// going by its name.
pub fn is_project_file(file_name: &str) -> (r: bool)
    ensures
        r == names_project_file(file_name@),
{
    let name = to_chars(file_name);
    let ending = to_chars(".json");
    name.len() > ending.len() && has_suffix(name.as_slice(), ending.as_slice())
}

/// Whether the projects at `i` and `j` of `input` stand in the order of
/// the list: the one accessed later first, and of two accessed at the same
/// time the one that came first.
pub open spec fn comes_first(input: Seq<ProjectConfig>, i: int, j: int) -> bool {
    later(input[i].last_accessed, input[j].last_accessed) || (input[i].last_accessed
        == input[j].last_accessed && i < j)
}

/// Whether `output` holds the projects of `input`, each once, with
/// `order[k]` the place in `input` of the project at `k`, the most
/// recently accessed first and projects accessed at the same time in the
/// order in which they came.
pub open spec fn arranged_by_recency(
    input: Seq<ProjectConfig>,
    output: Seq<ProjectConfig>,
    order: Seq<int>,
) -> bool {
    &&& order.len() == input.len()
    &&& output.len() == input.len()
    &&& forall|k: int|
        0 <= k < order.len() ==> 0 <= #[trigger] order[k] < input.len() && output[k]
            == input[order[k]]
    &&& forall|a: int, b: int|
        0 <= a < b < order.len() ==> #[trigger] order[a] != #[trigger] order[b] && comes_first(
            input,
            order[a],
            order[b],
        )
}

impl ProjectConfig {
    /// The record of a project registered at the time `now`.
    pub fn new_at(name: &str, path: String, now: Timestamp) -> (p: ProjectConfig)
        ensures
            p@ == fresh_project(name@, path@, now),
    {
        let p = ProjectConfig {
            name: name.to_owned(),
            path,
            remote_url: None,
            editor: None,
            auto_install_deps: None,
            uses_devbox: false,
            env: HashMap::new(),
            created_at: now,
            last_accessed: now,
        };
        p
    }

    /// The record of a project registered now.
    pub fn new(name: &str, path: String) -> (p: ProjectConfig)
        ensures
            p@ == fresh_project(name@, path@, p.created_at),
    {
        ProjectConfig::new_at(name, path, current_time())
    }

    /// The file that holds the record of the project `name`, in the given
    /// settings directory.
    pub fn config_path_in(config_dir: &str, name: &str) -> (r: String)
        ensures
            r@ == project_file(config_dir@, name@),
    {
        let dir = join(config_dir, "projects");
        let file = concat2(name, ".json");
        join(dir.as_str(), file.as_str())
    }

    /// The file that holds the record of the project `name` on this
    /// machine, or none where the platform names no directory for it.
    pub fn config_path(name: &str) -> (r: Option<String>)
        ensures
            exists|config: Option<Seq<char>>, home: Option<Seq<char>>|
                optional_text(r) == #[trigger] project_file_for(config, home, name@),
    {
        let dir = config_dir();
        let ghost pair = choose|config: Option<Seq<char>>, home: Option<Seq<char>>|
            optional_text(dir) == settings_dir(config, home);
        let r = match dir {
            Some(d) => Some(ProjectConfig::config_path_in(d.as_str(), name)),
            None => None,
        };
        assert(optional_text(r) == project_file_for(pair.0, pair.1, name@));
        r
    }

    /// Puts the projects that were read from the registry in the order of
    /// the list: the most recently accessed first; projects accessed at
    /// the same time keep the order in which they were read.
    pub fn list_all(loaded: Vec<ProjectConfig>) -> (r: Vec<ProjectConfig>)
        ensures
            exists|order: Seq<int>| arranged_by_recency(loaded@, r@, order),
    {
        let ghost input = loaded@;
        let mut rest = loaded;
        let mut out: Vec<ProjectConfig> = Vec::new();
        let ghost mut order: Seq<int> = Seq::empty();
        while rest.len() > 0
            invariant
                rest@ == input.take(rest@.len() as int),
                rest@.len() <= input.len(),
                out@.len() == order.len(),
                order.len() == input.len() - rest@.len(),
                forall|k: int|
                    0 <= k < order.len() ==> rest@.len() <= #[trigger] order[k] < input.len()
                        && out@[k] == input[order[k]],
                forall|a: int, b: int|
                    0 <= a < b < order.len() ==> #[trigger] order[a] != #[trigger] order[b]
                        && comes_first(input, order[a], order[b]),
            decreases rest@.len(),
        {
            let ghost m = rest@.len() - 1;
            let project = rest.pop().unwrap();
            assert(project == input[m]);
            assert(rest@ == input.take(m));
            let mut p: usize = 0;
            while p < out.len() && out[p].last_accessed.is_later_than(&project.last_accessed)
                invariant
                    p <= out@.len(),
                    forall|k: int|
                        0 <= k < p ==> later(
                            (#[trigger] out@[k]).last_accessed,
                            project.last_accessed,
                        ),
                decreases out@.len() - p,
            {
                p += 1;
            }
            let ghost old_order = order;
            let ghost old_out = out@;
            out.insert(p, project);
            proof {
                order = old_order.insert(p as int, m);
                assert forall|k: int| 0 <= k < order.len() implies m <= #[trigger] order[k]
                    < input.len() && out@[k] == input[order[k]] by {
                    if k < p {
                        assert(order[k] == old_order[k]);
                    } else if k > p {
                        assert(order[k] == old_order[k - 1]);
                    }
                }
                assert forall|a: int, b: int| 0 <= a < b < order.len() implies #[trigger] order[a]
                    != #[trigger] order[b] && comes_first(input, order[a], order[b]) by {
                    if b < p {
                        assert(order[a] == old_order[a] && order[b] == old_order[b]);
                    } else if b == p {
                        assert(order[a] == old_order[a]);
                        assert(old_out[a] == input[old_order[a]]);
                    } else if a == p {
                        assert(order[b] == old_order[b - 1]);
                        assert(old_out[b - 1] == input[old_order[b - 1]]);
                        assert(old_out[p as int] == input[old_order[p as int]]);
                        if b - 1 > p {
                            assert(comes_first(input, old_order[p as int], old_order[b - 1]));
                        }
                    } else if a < p {
                        assert(order[a] == old_order[a] && order[b] == old_order[b - 1]);
                    } else {
                        assert(order[a] == old_order[a - 1] && order[b] == old_order[b - 1]);
                    }
                }
            }
        }
        assert(arranged_by_recency(input, out@, order));
        out
    }

    /// Marks the project as accessed at the time `now`.
    pub fn touch_at(&mut self, now: Timestamp)
        ensures
            final(self)@ == (ProjectView { last_accessed: now, ..old(self)@ }),
    {
        self.last_accessed = now;
    }

    /// Marks the project as accessed now: only the time of the last access
    /// changes.
    pub fn touch_accessed(&mut self)
        ensures
            final(self)@ == (ProjectView {
                last_accessed: final(self).last_accessed,
                ..old(self)@
            }),
    {
        self.touch_at(current_time());
    }

    /// The first project of the list in which `path` lies: `path` is the
    /// project's root or lies under it.
    pub fn find_by_path<'a>(projects: &'a Vec<ProjectConfig>, path: &str) -> (r: Option<
        &'a ProjectConfig,
    >)
        ensures
            match r {
                Some(p) => exists|i: int|
                    {
                        &&& 0 <= i < projects@.len()
                        &&& *p == #[trigger] projects@[i]
                        &&& nested_under(path@, projects@[i].path@)
                        &&& forall|j: int|
                            0 <= j < i ==> !nested_under(path@, (#[trigger] projects@[j]).path@)
                    },
                None => forall|j: int|
                    0 <= j < projects@.len() ==> !nested_under(
                        path@,
                        (#[trigger] projects@[j]).path@,
                    ),
            },
    {
        let mut i: usize = 0;
        while i < projects.len()
            invariant
                i <= projects@.len(),
                forall|j: int|
                    0 <= j < i ==> !nested_under(path@, (#[trigger] projects@[j]).path@),
            decreases projects@.len() - i,
        {
            if starts_with(path, projects[i].path.as_str()) {
                return Some(&projects[i]);
            }
            i += 1;
        }
        None
    }
}

} // verus!
