use dev_cli::config::global::{
    default_dev_path, default_editor, default_true, dev_path_in, GlobalConfig, Shell,
};
use dev_cli::config::project::{is_project_file, ProjectConfig, Timestamp};
use dev_cli::config::{config_dir, config_dir_from, ensure_config_dirs};
use dev_cli::error::DevError;

fn config() -> GlobalConfig {
    GlobalConfig {
        editor: "zed".into(),
        dev_path: "/home/u/Development".into(),
        auto_install_deps: true,
        auto_devbox: false,
        shell: Shell::Fish,
    }
}

fn project(name: &str, path: &str, seconds: i64, nanos: u32) -> ProjectConfig {
    let mut p = ProjectConfig::new_at(name, path.to_string(), Timestamp { seconds: 0, nanos: 0 });
    p.last_accessed = Timestamp { seconds, nanos };
    p
}

#[test]
fn settings_directory() {
    assert_eq!(
        config_dir_from(Some("/home/u/.config".into()), Some("/home/u".into())).as_deref(),
        Some("/home/u/.config/dev")
    );
    assert_eq!(
        config_dir_from(None, Some("/home/u".into())).as_deref(),
        Some("/home/u/.config/dev")
    );
    assert_eq!(config_dir_from(Some("/etc/xdg".into()), None).as_deref(), Some("/etc/xdg/dev"));
    assert_eq!(config_dir_from(None, None), None);
}

#[test]
fn settings_directory_on_this_machine() {
    let expected = dirs::config_dir()
        .or_else(|| dirs::home_dir().map(|h| h.join(".config")))
        .map(|d| d.join("dev").to_string_lossy().into_owned());
    assert_eq!(config_dir(), expected);
    let file = expected.as_ref().map(|d| format!("{}/config.json", d));
    assert_eq!(GlobalConfig::config_path(), file);
    let record = expected.as_ref().map(|d| format!("{}/projects/demo.json", d));
    assert_eq!(ProjectConfig::config_path("demo"), record);
}

#[test]
fn directories_to_create() {
    assert_eq!(ensure_config_dirs("/c/dev"), vec!["/c/dev", "/c/dev/projects"]);
}

#[test]
fn defaults() {
    assert_eq!(default_editor(), "zed");
    assert!(default_true());
    assert_eq!(dev_path_in(Some("/home/u".into())), "/home/u/Development");
    assert_eq!(dev_path_in(None), "~/Development");
    assert_eq!(Shell::default(), Shell::Zsh);
    let home = dirs::home_dir().map(|h| h.to_string_lossy().into_owned());
    assert_eq!(default_dev_path(), dev_path_in(home.clone()));
    let d = GlobalConfig::default();
    assert_eq!(d.editor, "zed");
    assert_eq!(d.dev_path, dev_path_in(home));
    assert!(d.auto_install_deps);
    assert!(d.auto_devbox);
    assert_eq!(d.shell, Shell::Zsh);
}

#[test]
fn settings_file_path() {
    assert_eq!(GlobalConfig::config_path_in("/c/dev"), "/c/dev/config.json");
}

#[test]
fn get_reads_every_setting() {
    let c = config();
    assert_eq!(c.get("editor").as_deref(), Some("zed"));
    assert_eq!(c.get("dev_path").as_deref(), Some("/home/u/Development"));
    assert_eq!(c.get("auto_install_deps").as_deref(), Some("true"));
    assert_eq!(c.get("auto_devbox").as_deref(), Some("false"));
    assert_eq!(c.get("shell").as_deref(), Some("fish"));
    assert_eq!(c.get("Editor"), None);
    assert_eq!(c.get(""), None);
    assert_eq!(c.get("editor "), None);
    assert_eq!(Shell::Zsh.name(), "zsh");
    assert_eq!(Shell::Bash.name(), "bash");
}

#[test]
fn set_changes_one_setting() {
    let mut c = config();
    assert_eq!(c.set("editor", "code"), Ok(()));
    assert_eq!(c.editor, "code");
    assert_eq!(c.set("dev_path", "/work"), Ok(()));
    assert_eq!(c.dev_path, "/work");
    assert_eq!(c.set("auto_install_deps", "false"), Ok(()));
    assert!(!c.auto_install_deps);
    assert_eq!(c.set("auto_devbox", "true"), Ok(()));
    assert!(c.auto_devbox);
    assert_eq!(c.set("shell", "BASH"), Ok(()));
    assert_eq!(c.shell, Shell::Bash);
    assert_eq!(c.set("shell", "zsh"), Ok(()));
    assert_eq!(c.shell, Shell::Zsh);
    assert_eq!(c.set("shell", "Fish"), Ok(()));
    assert_eq!(c.shell, Shell::Fish);
    assert_eq!(
        c,
        GlobalConfig {
            editor: "code".into(),
            dev_path: "/work".into(),
            auto_install_deps: false,
            auto_devbox: true,
            shell: Shell::Fish,
        }
    );
}

#[test]
fn set_rejects_what_it_cannot_read() {
    let mut c = config();
    assert_eq!(
        c.set("auto_devbox", "yes").unwrap_err(),
        DevError::ConfigError("Invalid boolean value".into())
    );
    assert_eq!(
        c.set("auto_install_deps", "True").unwrap_err(),
        DevError::ConfigError("Invalid boolean value".into())
    );
    assert_eq!(
        c.set("shell", "tcsh").unwrap_err(),
        DevError::ConfigError("Unknown shell: tcsh. Valid options: zsh, bash, fish".into())
    );
    assert_eq!(
        c.set("colour", "red").unwrap_err(),
        DevError::ConfigError("Unknown config key: colour".into())
    );
    assert_eq!(c, config());
}

#[test]
fn new_project_records() {
    let now = Timestamp { seconds: 1_700_000_000, nanos: 5 };
    let p = ProjectConfig::new_at("demo", "/w/demo".into(), now);
    assert_eq!(p.name, "demo");
    assert_eq!(p.path, "/w/demo");
    assert_eq!(p.remote_url, None);
    assert_eq!(p.editor, None);
    assert_eq!(p.auto_install_deps, None);
    assert!(!p.uses_devbox);
    assert!(p.env.is_empty());
    assert_eq!(p.created_at, now);
    assert_eq!(p.last_accessed, now);
}

#[test]
fn new_project_is_stamped_with_the_clock() {
    let before = chrono::Utc::now().timestamp();
    let p = ProjectConfig::new("demo", "/w/demo".into());
    let after = chrono::Utc::now().timestamp();
    assert_eq!(p.created_at, p.last_accessed);
    assert!(before <= p.created_at.seconds && p.created_at.seconds <= after);
    assert!(p.created_at.seconds >= 0);
    assert!(p.created_at.nanos < 1_000_000_000);
    assert_eq!(p.name, "demo");
}

#[test]
fn touching_changes_only_the_access_time() {
    let mut p = project("demo", "/w/demo", 10, 0);
    p.uses_devbox = true;
    let mut expected = p.clone();
    p.touch_at(Timestamp { seconds: 20, nanos: 7 });
    expected.last_accessed = Timestamp { seconds: 20, nanos: 7 };
    assert_eq!(p, expected);
    let before = chrono::Utc::now().timestamp();
    p.touch_accessed();
    assert!(p.last_accessed.seconds >= before);
    expected.last_accessed = p.last_accessed;
    assert_eq!(p, expected);
}

#[test]
fn project_record_path() {
    assert_eq!(ProjectConfig::config_path_in("/c/dev", "demo"), "/c/dev/projects/demo.json");
}

#[test]
fn project_files_end_in_json() {
    assert!(is_project_file("demo.json"));
    assert!(is_project_file("a.b.json"));
    assert!(is_project_file("..json"));
    assert!(!is_project_file(".json"));
    assert!(!is_project_file("json"));
    assert!(!is_project_file("demo.JSON"));
    assert!(!is_project_file("demo.json.bak"));
    assert!(!is_project_file(""));
    for name in ["demo.json", ".json", "a.json", "x", "a.b.json", "..json", "demo.jsonn"] {
        let expected = std::path::Path::new(name).extension().map_or(false, |e| e == "json");
        assert_eq!(is_project_file(name), expected, "{:?}", name);
    }
}

#[test]
fn timestamps_compare_by_seconds_then_nanos() {
    let t = |seconds, nanos| Timestamp { seconds, nanos };
    assert!(t(2, 0).is_later_than(&t(1, 999)));
    assert!(t(1, 5).is_later_than(&t(1, 4)));
    assert!(!t(1, 5).is_later_than(&t(1, 5)));
    assert!(!t(1, 5).is_later_than(&t(2, 0)));
    assert!(t(0, 0).is_later_than(&t(-1, 999_999_999)));
}

#[test]
fn list_puts_recent_projects_first() {
    let listed = ProjectConfig::list_all(vec![
        project("a", "/a", 10, 0),
        project("b", "/b", 30, 0),
        project("c", "/c", 20, 5),
        project("d", "/d", 20, 9),
    ]);
    let names: Vec<&str> = listed.iter().map(|p| p.name.as_str()).collect();
    assert_eq!(names, vec!["b", "d", "c", "a"]);
    assert!(ProjectConfig::list_all(Vec::new()).is_empty());
}

#[test]
fn list_keeps_the_order_of_equal_times() {
    let listed = ProjectConfig::list_all(vec![
        project("a", "/a", 5, 0),
        project("b", "/b", 7, 0),
        project("c", "/c", 5, 0),
        project("d", "/d", 7, 0),
        project("e", "/e", 5, 0),
    ]);
    let names: Vec<&str> = listed.iter().map(|p| p.name.as_str()).collect();
    assert_eq!(names, vec!["b", "d", "a", "c", "e"]);
}

#[test]
fn find_by_path_takes_the_first_enclosing_project() {
    let projects = vec![
        project("inner", "/w/outer/inner", 0, 0),
        project("outer", "/w/outer", 0, 0),
        project("other", "/w/other", 0, 0),
    ];
    assert_eq!(ProjectConfig::find_by_path(&projects, "/w/outer/inner/src").unwrap().name, "inner");
    assert_eq!(ProjectConfig::find_by_path(&projects, "/w/outer/x").unwrap().name, "outer");
    assert_eq!(ProjectConfig::find_by_path(&projects, "/w/other").unwrap().name, "other");
    assert!(ProjectConfig::find_by_path(&projects, "/w/others").is_none());
    assert!(ProjectConfig::find_by_path(&projects, "/w").is_none());
}
